//! The store of control points: a `splines::Spline` keyed by the integer
//! parameter, and what this library takes for granted about it.

use crate::error::EditorError;
use crate::key::{cycle_interpolation, Interpolation, Key};
use crate::screen::ScreenPos;
use splines::Spline;
use vstd::prelude::*;

verus! {

#[verifier::external_type_specification]
#[verifier::external_body]
#[verifier::reject_recursive_types(T)]
#[verifier::reject_recursive_types(V)]
pub struct ExSpline<T, V>(Spline<T, V>);

/// The control points that a spline holds, in the order in which it holds
/// them. A mode of the spline crate that `Interpolation` has no counterpart
/// for reads as `Linear`; this library never stores one.
pub uninterp spec fn spline_keys(s: Spline<i32, ScreenPos>) -> Seq<Key>;

/// The parameters never decrease along `keys`.
pub open spec fn sorted(keys: Seq<Key>) -> bool {
    forall|i: int, j: int| 0 <= i <= j < keys.len() ==> keys[i].t <= keys[j].t
}

/// How many of `keys` have a parameter of at most `t`. Among sorted keys these
/// are the first ones, so this is also the index of the first key beyond `t`.
pub open spec fn keys_up_to(keys: Seq<Key>, t: int) -> nat
    decreases keys.len(),
{
    if keys.len() == 0 {
        0
    } else {
        keys_up_to(keys.drop_last(), t) + if keys.last().t <= t {
            1nat
        } else {
            0nat
        }
    }
}

/// `keys` with `key` put in behind every key whose parameter is at most its
/// own.
pub open spec fn inserted(keys: Seq<Key>, key: Key) -> Seq<Key> {
    keys.insert(keys_up_to(keys, key.t as int) as int, key)
}

/// Among sorted keys, `keys_up_to` splits them: at most `t` before it, beyond
/// `t` from it on.
pub proof fn lemma_keys_up_to_splits(keys: Seq<Key>, t: int)
    requires
        sorted(keys),
    ensures
        keys_up_to(keys, t) <= keys.len(),
        forall|j: int| 0 <= j < keys_up_to(keys, t) ==> (#[trigger] keys[j]).t <= t,
        forall|j: int| keys_up_to(keys, t) <= j < keys.len() ==> (#[trigger] keys[j]).t > t,
    decreases keys.len(),
{
    if keys.len() > 0 {
        let front = keys.drop_last();
        assert(sorted(front)) by {
            assert forall|i: int, j: int| 0 <= i <= j < front.len() implies front[i].t
                <= front[j].t by {
                assert(front[i] == keys[i] && front[j] == keys[j]);
            }
        }
        lemma_keys_up_to_splits(front, t);
        let p = keys_up_to(front, t) as int;
        assert forall|j: int| 0 <= j < keys_up_to(keys, t) implies (#[trigger] keys[j]).t <= t by {
            if j < front.len() {
                assert(front[j] == keys[j]);
                if j >= p {
                    // the last key is at most `t`, and nothing before it is larger
                    assert(keys[j].t <= keys.last().t);
                }
            }
        }
        assert forall|j: int| keys_up_to(keys, t) <= j < keys.len() implies (#[trigger] keys[j]).t
            > t by {
            if j < front.len() {
                assert(front[j] == keys[j]);
                if keys.last().t <= t {
                    // then every key is at most `t`, and the count is the length
                    assert(p == front.len()) by {
                        if p < front.len() {
                            assert(front[p].t > t);
                            assert(front[p] == keys[p]);
                            assert(keys[p].t <= keys.last().t);
                        }
                    }
                }
            }
        }
    }
}

/// Among sorted keys, only `keys_up_to` splits them so.
pub proof fn lemma_split_is_keys_up_to(keys: Seq<Key>, t: int, p: int)
    requires
        sorted(keys),
        0 <= p <= keys.len(),
        forall|j: int| 0 <= j < p ==> (#[trigger] keys[j]).t <= t,
        forall|j: int| p <= j < keys.len() ==> (#[trigger] keys[j]).t > t,
    ensures
        keys_up_to(keys, t) == p,
{
    lemma_keys_up_to_splits(keys, t);
    let q = keys_up_to(keys, t) as int;
    if q < p {
        assert(keys[q].t > t);
    } else if p < q {
        assert(keys[p].t <= t);
    }
}

/// Putting a key into sorted keys leaves them sorted.
pub proof fn lemma_inserted_sorted(keys: Seq<Key>, key: Key)
    requires
        sorted(keys),
    ensures
        sorted(inserted(keys, key)),
        inserted(keys, key).len() == keys.len() + 1,
        keys_up_to(keys, key.t as int) <= keys.len(),
        inserted(keys, key)[keys_up_to(keys, key.t as int) as int] == key,
{
    lemma_keys_up_to_splits(keys, key.t as int);
    let p = keys_up_to(keys, key.t as int) as int;
    let after = inserted(keys, key);
    assert forall|i: int, j: int| 0 <= i <= j < after.len() implies after[i].t <= after[j].t by {
        if i < p {
            assert(after[i] == keys[i]);
        } else if i > p {
            assert(after[i] == keys[i - 1]);
        }
        if j < p {
            assert(after[j] == keys[j]);
        } else if j > p {
            assert(after[j] == keys[j - 1]);
        }
    }
}

/// Taking a key out of sorted keys leaves them sorted.
pub proof fn lemma_removed_sorted(keys: Seq<Key>, index: int)
    requires
        sorted(keys),
        0 <= index < keys.len(),
    ensures
        sorted(keys.remove(index)),
{
    let after = keys.remove(index);
    assert forall|i: int, j: int| 0 <= i <= j < after.len() implies after[i].t <= after[j].t by {
        let a = if i < index { i } else { i + 1 };
        let b = if j < index { j } else { j + 1 };
        assert(after[i] == keys[a] && after[j] == keys[b]);
    }
}

/// `Spline::from_vec` on no keys: a spline that holds none.
#[verifier::external_body]
pub(crate) fn spline_new() -> (s: Spline<i32, ScreenPos>)
    ensures
        spline_keys(s) == Seq::<Key>::empty(),
{
    Spline::from_vec(Vec::new())
}

/// `Spline::len`: the number of keys held.
#[verifier::external_body]
pub(crate) fn spline_len(s: &Spline<i32, ScreenPos>) -> (n: usize)
    ensures
        n == spline_keys(*s).len(),
{
    s.len()
}

/// `Spline::get`: the key at `index`, or nothing from the number of keys on.
#[verifier::external_body]
pub(crate) fn spline_get(s: &Spline<i32, ScreenPos>, index: usize) -> (r: Option<Key>)
    ensures
        index < spline_keys(*s).len() ==> r == Some(spline_keys(*s)[index as int]),
        index >= spline_keys(*s).len() ==> r is None,
{
    let key = s.get(index)?;
    let interpolation = match key.interpolation {
        splines::Interpolation::Step(threshold) => Interpolation::Step(threshold),
        splines::Interpolation::Linear => Interpolation::Linear,
        splines::Interpolation::Cosine => Interpolation::Cosine,
        splines::Interpolation::Bezier(handle) => Interpolation::Bezier(handle),
        _ => Interpolation::Linear,
    };
    Some(Key { t: key.t, value: key.value, interpolation })
}

/// `Spline::add`: pushes the key and sorts by parameter with a stable sort.
/// On keys that were sorted, this puts the key in behind every key whose
/// parameter is at most its own and moves no other.
#[verifier::external_body]
pub(crate) fn spline_add(s: &mut Spline<i32, ScreenPos>, key: Key)
    requires
        sorted(spline_keys(*old(s))),
    ensures
        spline_keys(*final(s)) == inserted(spline_keys(*old(s)), key),
{
    let interpolation = match key.interpolation {
        Interpolation::Step(threshold) => splines::Interpolation::Step(threshold),
        Interpolation::Linear => splines::Interpolation::Linear,
        Interpolation::Cosine => splines::Interpolation::Cosine,
        Interpolation::Bezier(handle) => splines::Interpolation::Bezier(handle),
    };
    s.add(splines::Key::new(key.t, key.value, interpolation));
}

/// `Spline::remove`: takes the key at `index` out and hands it back, the keys
/// behind it moving down by one; from the number of keys on, nothing happens.
#[verifier::external_body]
pub(crate) fn spline_remove(s: &mut Spline<i32, ScreenPos>, index: usize) -> (r: Option<Key>)
    ensures
        index < spline_keys(*old(s)).len() ==> r == Some(spline_keys(*old(s))[index as int])
            && spline_keys(*final(s)) == spline_keys(*old(s)).remove(index as int),
        index >= spline_keys(*old(s)).len() ==> r is None && spline_keys(*final(s))
            == spline_keys(*old(s)),
{
    let key = s.remove(index)?;
    let interpolation = match key.interpolation {
        splines::Interpolation::Step(threshold) => Interpolation::Step(threshold),
        splines::Interpolation::Linear => Interpolation::Linear,
        splines::Interpolation::Cosine => Interpolation::Cosine,
        splines::Interpolation::Bezier(handle) => Interpolation::Bezier(handle),
        _ => Interpolation::Linear,
    };
    Some(Key { t: key.t, value: key.value, interpolation })
}

/// `Spline::get_mut`, to write the mode of the key at `index`: its parameter
/// and value stay, and so does every other key. From the number of keys on,
/// nothing happens. Says whether there was such a key.
#[verifier::external_body]
pub(crate) fn spline_set_interpolation(
    s: &mut Spline<i32, ScreenPos>,
    index: usize,
    interpolation: Interpolation,
) -> (r: bool)
    ensures
        r == (index < spline_keys(*old(s)).len()),
        r ==> spline_keys(*final(s)) == spline_keys(*old(s)).update(
            index as int,
            (Key { interpolation, ..spline_keys(*old(s))[index as int] }),
        ),
        !r ==> spline_keys(*final(s)) == spline_keys(*old(s)),
{
    match s.get_mut(index) {
        Some(key) => {
            *key.interpolation = match interpolation {
                Interpolation::Step(threshold) => splines::Interpolation::Step(threshold),
                Interpolation::Linear => splines::Interpolation::Linear,
                Interpolation::Cosine => splines::Interpolation::Cosine,
                Interpolation::Bezier(handle) => splines::Interpolation::Bezier(handle),
            };
            true
        },
        None => false,
    }
}

/// What holds of the control points of every curve: they are sorted by
/// parameter, and the parameter of each is its horizontal coordinate.
pub open spec fn valid_keys(keys: Seq<Key>) -> bool {
    &&& sorted(keys)
    &&& forall|i: int| 0 <= i < keys.len() ==> (#[trigger] keys[i]).t == keys[i].value.x
}

/// `keys` after the control point at `index` has been moved to `p`: it keeps
/// its mode, takes the parameter of its new place, and goes where that
/// parameter puts it.
pub open spec fn moved(keys: Seq<Key>, index: int, p: ScreenPos) -> Seq<Key> {
    inserted(keys.remove(index), Key::at(p, keys[index].interpolation))
}

/// `keys` after the handle of the control point at `index` has been moved to
/// `p`.
pub open spec fn with_handle(keys: Seq<Key>, index: int, p: ScreenPos) -> Seq<Key> {
    keys.update(index, Key { interpolation: Interpolation::Bezier(p), ..keys[index] })
}

/// How moving the handle of the control point at `index` ends: well on a
/// Bézier point, with an error where there is no such point or it is of
/// another mode.
pub open spec fn handle_move_outcome(keys: Seq<Key>, index: usize) -> Result<(), EditorError> {
    if index >= keys.len() {
        Err(EditorError::UnknownKey(index))
    } else if keys[index as int].interpolation is Bezier {
        Ok(())
    } else {
        Err(EditorError::WrongInterpolationAssumed(index))
    }
}

/// `keys` after the mode of the control point at `index` has been switched to
/// the next one of the cycle.
pub open spec fn toggled(keys: Seq<Key>, index: int) -> Seq<Key> {
    keys.update(
        index,
        Key { interpolation: keys[index].interpolation.cycled(keys[index].value), ..keys[index] },
    )
}

/// The curve being edited: control points in the order of their parameters.
pub struct Curve {
    spline: Spline<i32, ScreenPos>,
}

impl View for Curve {
    type V = Seq<Key>;

    closed spec fn view(&self) -> Seq<Key> {
        spline_keys(self.spline)
    }
}

impl Curve {
    #[verifier::type_invariant]
    closed spec fn inv(self) -> bool {
        valid_keys(self@)
    }

    /// A curve without control points.
    pub fn new() -> (curve: Curve)
        ensures
            curve@ == Seq::<Key>::empty(),
    {
        Curve { spline: spline_new() }
    }

    /// Number of control points.
    pub fn len(&self) -> (n: usize)
        ensures
            n == self@.len(),
    {
        spline_len(&self.spline)
    }

    /// The control point at `index`.
    pub fn get(&self, index: usize) -> (r: Option<Key>)
        ensures
            r == if index < self@.len() {
                Some(self@[index as int])
            } else {
                None
            },
    {
        spline_get(&self.spline, index)
    }

    /// The control points, in order.
    pub fn keys(&self) -> (keys: Vec<Key>)
        ensures
            keys@ == self@,
            valid_keys(keys@),
    {
        proof {
            use_type_invariant(self);
        }
        let n: usize = self.len();
        let mut keys: Vec<Key> = Vec::new();
        let mut i: usize = 0;
        while i < n
            invariant
                n == self@.len(),
                0 <= i <= n,
                keys@ == self@.take(i as int),
            decreases n - i,
        {
            match self.get(i) {
                Some(key) => {
                    keys.push(key);
                },
                None => {},
            }
            i += 1;
        }
        assert(self@.take(n as int) == self@);
        keys
    }

    /// Index at which a control point of parameter `t` would be put in.
    fn position_for(&self, t: i32) -> (index: usize)
        ensures
            index == keys_up_to(self@, t as int),
            index <= self@.len(),
    {
        proof {
            use_type_invariant(self);
        }
        let n: usize = self.len();
        let mut i: usize = 0;
        loop
            invariant_except_break
                n == self@.len(),
                0 <= i <= n,
                forall|j: int| 0 <= j < i ==> (#[trigger] self@[j]).t <= t,
            ensures
                0 <= i <= n == self@.len(),
                forall|j: int| 0 <= j < i ==> (#[trigger] self@[j]).t <= t,
                i < n ==> self@[i as int].t > t,
            decreases n - i,
        {
            match self.get(i) {
                Some(key) => {
                    if key.t > t {
                        break ;
                    }
                },
                None => {
                    break ;
                },
            }
            i += 1;
        }
        proof {
            assert forall|j: int| i <= j < self@.len() implies (#[trigger] self@[j]).t > t by {
                assert(self@[i as int].t <= self@[j].t);
            }
            lemma_split_is_keys_up_to(self@, t as int, i as int);
        }
        i
    }

    /// Takes the spline out for the time of a change and leaves an empty one,
    /// so that the curve holds sorted keys whatever becomes of the change.
    fn take_spline(&mut self) -> (spline: Spline<i32, ScreenPos>)
        ensures
            spline_keys(spline) == old(self)@,
            valid_keys(old(self)@),
            final(self)@ == Seq::<Key>::empty(),
    {
        proof {
            use_type_invariant(&*self);
        }
        let mut spline = spline_new();
        core::mem::swap(&mut self.spline, &mut spline);
        spline
    }

    /// Adds a control point at `value`; its parameter is its horizontal
    /// coordinate. Gives the index at which it stands.
    pub fn add(&mut self, value: ScreenPos, interpolation: Interpolation) -> (index: usize)
        ensures
            final(self)@ == inserted(old(self)@, Key::at(value, interpolation)),
            index == keys_up_to(old(self)@, value.x as int),
            index < final(self)@.len(),
            final(self)@[index as int] == Key::at(value, interpolation),
    {
        let index: usize = self.position_for(value.x);
        let mut spline = self.take_spline();
        proof {
            lemma_inserted_sorted(spline_keys(spline), Key::at(value, interpolation));
        }
        spline_add(&mut spline, Key::new(value.x, value, interpolation));
        self.spline = spline;
        index
    }

    /// Removes the control point at `index` and hands it back; those behind
    /// it move down by one.
    pub fn remove(&mut self, index: usize) -> (r: Result<Key, EditorError>)
        ensures
            index < old(self)@.len() ==> r == Ok::<Key, EditorError>(old(self)@[index as int])
                && final(self)@ == old(self)@.remove(index as int),
            index >= old(self)@.len() ==> r == Err::<Key, EditorError>(
                EditorError::UnknownKey(index),
            ) && final(self)@ == old(self)@,
    {
        let mut spline = self.take_spline();
        proof {
            if index < spline_keys(spline).len() {
                lemma_removed_sorted(spline_keys(spline), index as int);
            }
        }
        let removed = spline_remove(&mut spline, index);
        self.spline = spline;
        match removed {
            Some(key) => Ok(key),
            None => Err(EditorError::UnknownKey(index)),
        }
    }

    /// Moves the control point at `index` to `p`. Its parameter follows, so
    /// the point may change its place among the others: the result is the
    /// index at which it stands afterwards.
    pub fn move_point(&mut self, index: usize, p: ScreenPos) -> (r: Result<usize, EditorError>)
        ensures
            index < old(self)@.len() ==> final(self)@ == moved(old(self)@, index as int, p) && r
                == Ok::<usize, EditorError>(
                keys_up_to(old(self)@.remove(index as int), p.x as int) as usize,
            ) && r->Ok_0 < final(self)@.len(),
            index >= old(self)@.len() ==> r == Err::<usize, EditorError>(
                EditorError::UnknownKey(index),
            ) && final(self)@ == old(self)@,
    {
        match self.remove(index) {
            Ok(key) => Ok(self.add(p, key.interpolation)),
            Err(e) => Err(e),
        }
    }

    /// Writes the mode of the control point at `index`.
    fn set_interpolation(&mut self, index: usize, interpolation: Interpolation)
        requires
            index < old(self)@.len(),
        ensures
            final(self)@ == old(self)@.update(
                index as int,
                (Key { interpolation, ..old(self)@[index as int] }),
            ),
    {
        let mut spline = self.take_spline();
        let _ = spline_set_interpolation(&mut spline, index, interpolation);
        self.spline = spline;
    }

    /// Moves the handle of the Bézier control point at `index` to `p`; the
    /// point itself stays.
    pub fn move_handle(&mut self, index: usize, p: ScreenPos) -> (r: Result<(), EditorError>)
        ensures
            r == handle_move_outcome(old(self)@, index),
            final(self)@ == if r is Ok {
                with_handle(old(self)@, index as int, p)
            } else {
                old(self)@
            },
    {
        match self.get(index) {
            None => Err(EditorError::UnknownKey(index)),
            Some(key) => match key.interpolation {
                Interpolation::Bezier(_) => {
                    self.set_interpolation(index, Interpolation::Bezier(p));
                    Ok(())
                },
                _ => Err(EditorError::WrongInterpolationAssumed(index)),
            },
        }
    }

    /// Switches the mode of the control point at `index` to the next one of
    /// the cycle.
    pub fn toggle_interpolation(&mut self, index: usize) -> (r: Result<(), EditorError>)
        ensures
            index < old(self)@.len() ==> r == Ok::<(), EditorError>(()) && final(self)@ == toggled(
                old(self)@,
                index as int,
            ),
            index >= old(self)@.len() ==> r == Err::<(), EditorError>(
                EditorError::UnknownKey(index),
            ) && final(self)@ == old(self)@,
    {
        match self.get(index) {
            None => Err(EditorError::UnknownKey(index)),
            Some(key) => {
                let next = cycle_interpolation(key.value, key.interpolation);
                self.set_interpolation(index, next);
                Ok(())
            },
        }
    }
}

} // verus!
