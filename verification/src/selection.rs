//! What the cursor selects: the nearest control point or handle within reach.

use crate::curve::Curve;
use crate::key::{Interpolation, Key};
use crate::screen::ScreenPos;
use vstd::prelude::*;

verus! {

/// Part of handle being selected.
#[derive(Clone, Copy, Debug, PartialEq, Eq, Structural)]
pub enum HandleSelection {
    /// The actual handle of the control point.
    Own,
    /// Mirror handle of the control point. Nothing selects it yet.
    Mirror,
}

/// A selection. It can either be a control point (Key) or a handle for a Bézier curve. In case
/// of a handle, we either select the “real” handle or its mirrored sibling.
#[derive(Clone, Copy, Debug, PartialEq, Eq, Structural)]
pub enum Selection {
    /// A selected control point.
    Key(usize),
    /// A selected handle.
    Handle(usize, HandleSelection),
}

impl Selection {
    /// Index of the control point that is selected, or whose handle is.
    pub open spec fn index(self) -> usize {
        match self {
            Selection::Key(i) => i,
            Selection::Handle(i, _) => i,
        }
    }
}

/// Square of the distance from the cursor to what it can select at `key`: the
/// point itself where that is within reach, else the handle of a Bézier point
/// where that is.
pub open spec fn candidate(key: Key, cursor: ScreenPos) -> Option<int> {
    if cursor.within_reach(key.value) {
        Some(cursor.dist2(key.value))
    } else {
        match key.interpolation {
            Interpolation::Bezier(h) => if cursor.within_reach(h) {
                Some(cursor.dist2(h))
            } else {
                None
            },
            _ => None,
        }
    }
}

/// The selection that `candidate` stands for at the control point of index
/// `i`.
pub open spec fn candidate_selection(key: Key, i: usize, cursor: ScreenPos) -> Selection {
    if cursor.within_reach(key.value) {
        Selection::Key(i)
    } else {
        Selection::Handle(i, HandleSelection::Own)
    }
}

/// `i` is the index of the nearest candidate, and of the first one among
/// those that are equally near.
pub open spec fn is_nearest(keys: Seq<Key>, cursor: ScreenPos, i: int) -> bool {
    &&& 0 <= i < keys.len()
    &&& candidate(keys[i], cursor) is Some
    &&& forall|j: int|
        0 <= j < keys.len() && (#[trigger] candidate(keys[j], cursor)) is Some ==> candidate(
            keys[i],
            cursor,
        )->0 <= candidate(keys[j], cursor)->0
    &&& forall|j: int|
        0 <= j < i && (#[trigger] candidate(keys[j], cursor)) is Some ==> candidate(
            keys[i],
            cursor,
        )->0 < candidate(keys[j], cursor)->0
}

/// `r` is what the cursor selects among `keys`: nothing where no candidate is
/// within reach, else the nearest one, the first of them on a tie, as a
/// control point where the point itself is within reach and as its handle
/// otherwise.
pub open spec fn picks(keys: Seq<Key>, cursor: ScreenPos, r: Option<Selection>) -> bool {
    match r {
        None => forall|j: int|
            0 <= j < keys.len() ==> (#[trigger] candidate(keys[j], cursor)) is None,
        Some(s) => {
            &&& is_nearest(keys, cursor, s.index() as int)
            &&& s == candidate_selection(keys[s.index() as int], s.index(), cursor)
        },
    }
}

/// `picks` leaves no choice: it holds of one result only.
pub proof fn lemma_picks_unique(
    keys: Seq<Key>,
    cursor: ScreenPos,
    a: Option<Selection>,
    b: Option<Selection>,
)
    requires
        picks(keys, cursor, a),
        picks(keys, cursor, b),
    ensures
        a == b,
{
    match (a, b) {
        (Some(s), Some(u)) => {
            let i = s.index() as int;
            let j = u.index() as int;
            assert(candidate(keys[i], cursor) is Some);
            assert(candidate(keys[j], cursor) is Some);
            if i < j {
                assert(candidate(keys[j], cursor)->0 < candidate(keys[i], cursor)->0);
            } else if j < i {
                assert(candidate(keys[i], cursor)->0 < candidate(keys[j], cursor)->0);
            }
        },
        (Some(s), None) => {
            assert(candidate(keys[s.index() as int], cursor) is Some);
        },
        (None, Some(u)) => {
            assert(candidate(keys[u.index() as int], cursor) is Some);
        },
        (None, None) => {},
    }
}

/// With the cursor exactly on a control point, that point is selected, never a
/// handle, unless an earlier candidate lies exactly under the cursor too.
pub proof fn lemma_pick_on_point(
    keys: Seq<Key>,
    cursor: ScreenPos,
    i: int,
    r: Option<Selection>,
)
    requires
        0 <= i < keys.len(),
        i <= usize::MAX,
        keys[i].value == cursor,
        forall|j: int| 0 <= j < i ==> (#[trigger] candidate(keys[j], cursor)) != Some(0int),
        picks(keys, cursor, r),
    ensures
        r == Some(Selection::Key(i as usize)),
{
    assert(cursor.dist2(keys[i].value) == 0);
    assert(candidate(keys[i], cursor) == Some(0int));
    match r {
        None => {},
        Some(s) => {
            let k = s.index() as int;
            lemma_candidate_not_negative(keys[k], cursor);
            assert(candidate(keys[k], cursor)->0 <= candidate(keys[i], cursor)->0);
            assert(candidate(keys[k], cursor) == Some(0int));
            if k > i {
                assert(candidate(keys[k], cursor)->0 < candidate(keys[i], cursor)->0);
            }
        },
    }
}

/// With the cursor farther than the selection radius from every control point
/// and every handle, nothing is selected.
pub proof fn lemma_pick_out_of_reach(keys: Seq<Key>, cursor: ScreenPos, r: Option<Selection>)
    requires
        forall|j: int|
            0 <= j < keys.len() ==> !cursor.within_reach((#[trigger] keys[j]).value) && (
            keys[j].interpolation matches Interpolation::Bezier(h) ==> !cursor.within_reach(h)),
        picks(keys, cursor, r),
    ensures
        r is None,
{
    if let Some(s) = r {
        let k = s.index() as int;
        assert(!cursor.within_reach(keys[k].value));
        assert(candidate(keys[k], cursor) is Some);
    }
}

/// No candidate is at a negative distance.
pub proof fn lemma_candidate_not_negative(key: Key, cursor: ScreenPos)
    ensures
        candidate(key, cursor) matches Some(d) ==> d >= 0,
{
    lemma_dist2_not_negative(cursor, key.value);
    if let Interpolation::Bezier(h) = key.interpolation {
        lemma_dist2_not_negative(cursor, h);
    }
}

proof fn lemma_dist2_not_negative(a: ScreenPos, b: ScreenPos)
    ensures
        a.dist2(b) >= 0,
{
    let dx = a.x - b.x;
    let dy = a.y - b.y;
    assert(dx * dx >= 0) by (nonlinear_arith);
    assert(dy * dy >= 0) by (nonlinear_arith);
}

/// Square of the distance from the cursor to what it can select at `key`, if
/// anything, and whether that is the point itself.
fn reach(key: &Key, cursor: &ScreenPos) -> (r: Option<(i128, bool)>)
    ensures
        match r {
            None => candidate(*key, *cursor) is None,
            Some((d, on_point)) => candidate(*key, *cursor) == Some(d as int) && on_point
                == cursor.within_reach(key.value),
        },
{
    if cursor.is_within_reach(&key.value) {
        Some((cursor.distance_squared(&key.value), true))
    } else {
        match key.interpolation {
            Interpolation::Bezier(handle) => if cursor.is_within_reach(&handle) {
                Some((cursor.distance_squared(&handle), false))
            } else {
                None
            },
            _ => None,
        }
    }
}

/// Finds what the cursor selects among `keys`.
pub fn pick(keys: &Vec<Key>, cursor: ScreenPos) -> (r: Option<Selection>)
    ensures
        picks(keys@, cursor, r),
{
    let mut found: Option<(Selection, i128)> = None;
    let mut i: usize = 0;
    while i < keys.len()
        invariant
            0 <= i <= keys.len(),
            match found {
                None => picks(keys@.take(i as int), cursor, None),
                Some((s, d)) => {
                    &&& picks(keys@.take(i as int), cursor, Some(s))
                    &&& candidate(keys@[s.index() as int], cursor) == Some(d as int)
                },
            },
        decreases keys.len() - i,
    {
        match reach(&keys[i], &cursor) {
            None => {},
            Some((d, on_point)) => {
                let here = if on_point {
                    Selection::Key(i)
                } else {
                    Selection::Handle(i, HandleSelection::Own)
                };
                match found {
                    Some((_, prev_dist)) if d < prev_dist => {
                        found = Some((here, d));
                    },
                    None => {
                        found = Some((here, d));
                    },
                    _ => {},
                }
            },
        }
        i += 1;
    }
    assert(keys@.take(i as int) == keys@);
    match found {
        None => None,
        Some((s, _)) => Some(s),
    }
}

impl Curve {
    /// Finds what the cursor selects on the curve.
    pub fn pick(&self, cursor: ScreenPos) -> (r: Option<Selection>)
        ensures
            picks(self@, cursor, r),
    {
        let keys = self.keys();
        pick(&keys, cursor)
    }
}

} // verus!
