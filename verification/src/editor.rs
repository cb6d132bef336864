//! The editor: a curve, what is selected on it, and the geometry that shows
//! both, rebuilt only when something has changed.

use crate::curve::{
    handle_move_outcome, inserted, keys_up_to, lemma_inserted_sorted, lemma_keys_up_to_splits,
    lemma_removed_sorted, moved, toggled, valid_keys, with_handle, Curve,
};
use crate::error::EditorError;
use crate::key::{lemma_cycle_returns, Interpolation, Key};
use crate::screen::ScreenPos;
use crate::selection::{picks, Selection};
use crate::vertex::{
    line_strip, line_vertices, mark_points, point_markers, LineVertex, PointVertex,
};
use luminance::tess::TessError;
use vstd::prelude::*;

verus! {

/// The geometry of one rebuild, for the renderer to take up.
pub struct Tessellation {
    /// List of display points.
    pub points: Vec<PointVertex>,
    /// List of lines.
    pub lines: Vec<LineVertex>,
}

/// Editor object.
pub struct Editor {
    // The actual spline the user is editing.
    curve: Curve,
    // Currently selected content.
    selection: Option<Selection>,
    // List of display points, as the renderer last took them up.
    points: Vec<PointVertex>,
    // List of lines, as the renderer last took them up.
    lines: Vec<LineVertex>,
    // Hint to know whether tessellations should be rebuilt.
    rebuild_tess: bool,
}

/// What an editor holds.
pub struct EditorView {
    pub keys: Seq<Key>,
    pub selection: Option<Selection>,
    pub points: Seq<PointVertex>,
    pub lines: Seq<LineVertex>,
    pub rebuild_tess: bool,
}

/// Where the control point of index `j` stands after the one at `from` has
/// been taken out and put in again at `to`.
pub open spec fn relocated(j: usize, from: usize, to: usize) -> usize {
    if j == from {
        to
    } else {
        let closed_up = if j > from {
            (j - 1) as usize
        } else {
            j
        };
        if closed_up >= to {
            (closed_up + 1) as usize
        } else {
            closed_up
        }
    }
}

/// The selection that designates, after such a move, what `selection`
/// designated before it.
pub open spec fn followed(selection: Option<Selection>, from: usize, to: usize) -> Option<
    Selection,
> {
    match selection {
        None => None,
        Some(Selection::Key(j)) => Some(Selection::Key(relocated(j, from, to))),
        Some(Selection::Handle(j, part)) => Some(Selection::Handle(relocated(j, from, to), part)),
    }
}

impl EditorView {
    /// What a new editor holds: no control point, no selection, no geometry,
    /// and nothing to rebuild.
    pub open spec fn fresh() -> EditorView {
        EditorView {
            keys: Seq::empty(),
            selection: None,
            points: Seq::empty(),
            lines: Seq::empty(),
            rebuild_tess: false,
        }
    }

    /// Every selection designates a control point that is there, and the
    /// control points are in order.
    pub open spec fn wf(self) -> bool {
        &&& valid_keys(self.keys)
        &&& self.keys.len() <= usize::MAX
        &&& self.selection matches Some(s) ==> s.index() < self.keys.len()
    }

    pub open spec fn add_point(self, p: ScreenPos, interpolation: Interpolation) -> EditorView {
        EditorView {
            keys: inserted(self.keys, Key::at(p, interpolation)),
            selection: None,
            rebuild_tess: true,
            ..self
        }
    }

    pub open spec fn move_key(self, index: usize, p: ScreenPos) -> EditorView {
        if index < self.keys.len() {
            EditorView {
                keys: moved(self.keys, index as int, p),
                selection: followed(
                    self.selection,
                    index,
                    keys_up_to(self.keys.remove(index as int), p.x as int) as usize,
                ),
                rebuild_tess: true,
                ..self
            }
        } else {
            self
        }
    }

    pub open spec fn move_handle(self, index: usize, p: ScreenPos) -> EditorView {
        if handle_move_outcome(self.keys, index) is Ok {
            EditorView { keys: with_handle(self.keys, index as int, p), rebuild_tess: true, ..self }
        } else {
            self
        }
    }

    pub open spec fn remove_point(self, index: usize) -> EditorView {
        if index < self.keys.len() {
            EditorView {
                keys: self.keys.remove(index as int),
                selection: None,
                rebuild_tess: true,
                ..self
            }
        } else {
            self
        }
    }

    pub open spec fn toggle_interpolation(self, index: usize) -> EditorView {
        if index < self.keys.len() {
            EditorView { keys: toggled(self.keys, index as int), rebuild_tess: true, ..self }
        } else {
            self
        }
    }

    pub open spec fn select(self, picked: Option<Selection>) -> EditorView {
        EditorView { selection: picked, rebuild_tess: true, ..self }
    }

    pub open spec fn deselect(self) -> EditorView {
        EditorView { selection: None, rebuild_tess: true, ..self }
    }

    /// The editor once a rebuild has been asked for: nothing is left to
    /// rebuild.
    pub open spec fn rebuild_asked(self) -> EditorView {
        EditorView { rebuild_tess: false, ..self }
    }

    /// The editor once the renderer has said how it fared with the geometry
    /// of a rebuild: taken up, that geometry is the editor's; refused, the
    /// editor keeps the geometry it had and the rebuild is due again.
    pub open spec fn rebuild_finished(
        self,
        points: Seq<PointVertex>,
        lines: Seq<LineVertex>,
        taken: bool,
    ) -> EditorView {
        if taken {
            EditorView { points, lines, ..self }
        } else {
            EditorView { rebuild_tess: true, ..self }
        }
    }
}

impl View for Editor {
    type V = EditorView;

    closed spec fn view(&self) -> EditorView {
        EditorView {
            keys: self.curve@,
            selection: self.selection,
            points: self.points@,
            lines: self.lines@,
            rebuild_tess: self.rebuild_tess,
        }
    }
}

impl Editor {
    /// Create a default editor.
    pub fn new() -> (editor: Editor)
        ensures
            editor@ == EditorView::fresh(),
    {
        Editor {
            curve: Curve::new(),
            selection: None,
            points: Vec::new(),
            lines: Vec::new(),
            rebuild_tess: false,
        }
    }

    /// The control points, in the order of their parameters.
    pub fn keys(&self) -> (keys: Vec<Key>)
        ensures
            keys@ == self@.keys,
            valid_keys(keys@),
    {
        self.curve.keys()
    }

    /// Tessellation based on control points for lines.
    pub fn build_lines(&self) -> (vertices: Vec<LineVertex>)
        ensures
            vertices@ == line_vertices(self@.keys),
    {
        let strip = self.curve.sample_curve();
        line_strip(&strip)
    }

    /// Tessellation based on control points for points.
    pub fn build_points(&self) -> (vertices: Vec<PointVertex>)
        ensures
            vertices@ == point_markers(self@.keys, self@.selection),
    {
        let keys = self.curve.keys();
        mark_points(&keys, self.selection)
    }

    /// Rebuild tessellation if needed: where something has changed since the
    /// last rebuild, hands out the geometry for the renderer to take up, and
    /// from then on nothing is left to rebuild. The renderer's answer goes to
    /// `finish_rebuild`.
    pub fn rebuild_tess_if_needed(&mut self) -> (r: Option<Tessellation>)
        ensures
            final(self)@ == old(self)@.rebuild_asked(),
            !old(self)@.rebuild_tess ==> r is None && final(self)@ == old(self)@,
            match r {
                None => !old(self)@.rebuild_tess,
                Some(tess) => {
                    &&& old(self)@.rebuild_tess
                    &&& tess.points@ == point_markers(old(self)@.keys, old(self)@.selection)
                    &&& tess.lines@ == line_vertices(old(self)@.keys)
                },
            },
    {
        if self.rebuild_tess {
            self.rebuild_tess = false;
            let points = self.build_points();
            let lines = self.build_lines();
            Some(Tessellation { points, lines })
        } else {
            None
        }
    }

    /// Takes the renderer's answer to the geometry of a rebuild. Taken up,
    /// both lists become the editor's; on an error neither does, and the
    /// rebuild is due again.
    pub fn finish_rebuild(&mut self, tess: Tessellation, outcome: Result<(), TessError>) -> (r:
        Result<(), EditorError>)
        ensures
            final(self)@ == old(self)@.rebuild_finished(tess.points@, tess.lines@, outcome is Ok),
            r == match outcome {
                Ok(()) => Ok::<(), EditorError>(()),
                Err(e) => Err::<(), EditorError>(EditorError::TessError(e)),
            },
    {
        match outcome {
            Ok(()) => {
                self.points = tess.points;
                self.lines = tess.lines;
                Ok(())
            },
            Err(e) => {
                self.rebuild_tess = true;
                Err(EditorError::TessError(e))
            },
        }
    }

    /// Move a point. Its parameter follows it, so it may change its place
    /// among the others; the selection goes on designating what it did.
    pub fn move_key(&mut self, index: usize, p: ScreenPos) -> (r: Result<(), EditorError>)
        ensures
            final(self)@ == old(self)@.move_key(index, p),
            r == if index < old(self)@.keys.len() {
                Ok::<(), EditorError>(())
            } else {
                Err::<(), EditorError>(EditorError::UnknownKey(index))
            },
            index >= old(self)@.keys.len() ==> final(self)@ == old(self)@,
    {
        match self.curve.move_point(index, p) {
            Err(e) => Err(e),
            Ok(to) => {
                self.selection = follow(self.selection, index, to);
                self.rebuild_tess = true;
                Ok(())
            },
        }
    }

    /// Move a handle of a point.
    pub fn move_handle(&mut self, index: usize, p: ScreenPos) -> (r: Result<(), EditorError>)
        ensures
            final(self)@ == old(self)@.move_handle(index, p),
            r == handle_move_outcome(old(self)@.keys, index),
            r is Err ==> final(self)@ == old(self)@,
            index < old(self)@.keys.len() && !(old(self)@.keys[index as int].interpolation
                is Bezier) ==> r == Err::<(), EditorError>(
                EditorError::WrongInterpolationAssumed(index),
            ),
    {
        match self.curve.move_handle(index, p) {
            Err(e) => Err(e),
            Ok(()) => {
                self.rebuild_tess = true;
                Ok(())
            },
        }
    }

    /// Add a new point. Gives the index at which it stands.
    pub fn add_point(&mut self, p: ScreenPos, interpolation: Interpolation) -> (index: usize)
        ensures
            final(self)@ == old(self)@.add_point(p, interpolation),
            index == keys_up_to(old(self)@.keys, p.x as int),
            index < final(self)@.keys.len(),
            final(self)@.keys[index as int] == Key::at(p, interpolation),
    {
        self.selection = None;
        let index: usize = self.curve.add(p, interpolation);
        self.rebuild_tess = true;
        index
    }

    /// Remove a point.
    pub fn remove_point(&mut self, index: usize) -> (r: Result<Key, EditorError>)
        ensures
            final(self)@ == old(self)@.remove_point(index),
            r == if index < old(self)@.keys.len() {
                Ok::<Key, EditorError>(old(self)@.keys[index as int])
            } else {
                Err::<Key, EditorError>(EditorError::UnknownKey(index))
            },
    {
        match self.curve.remove(index) {
            Err(e) => Err(e),
            Ok(key) => {
                self.rebuild_tess = true;
                self.selection = None;
                Ok(key)
            },
        }
    }

    /// Check if there’s a selection.
    pub fn is_selecting(&self) -> (r: bool)
        ensures
            r == self@.selection is Some,
    {
        self.selection.is_some()
    }

    /// Get the currently selected point, if any.
    pub fn selected_point(&self) -> (r: Option<usize>)
        ensures
            r == match self@.selection {
                Some(Selection::Key(i)) => Some(i),
                _ => None,
            },
    {
        match self.selection {
            Some(Selection::Key(i)) => Some(i),
            _ => None,
        }
    }

    /// Currently selected content.
    pub fn selection(&self) -> (r: &Option<Selection>)
        ensures
            *r == self@.selection,
    {
        &self.selection
    }

    /// Try to select some content at the given position. The selected content is returned if any.
    pub fn select(&mut self, cursor_pos: ScreenPos) -> (r: Option<Selection>)
        ensures
            picks(old(self)@.keys, cursor_pos, r),
            final(self)@ == old(self)@.select(r),
    {
        let found = self.curve.pick(cursor_pos);
        self.selection = found;
        self.rebuild_tess = true;
        found
    }

    /// Deselect, if anything was selected.
    pub fn deselect(&mut self)
        ensures
            final(self)@ == old(self)@.deselect(),
    {
        self.selection = None;
        self.rebuild_tess = true;
    }

    /// Toggle the interpolation of a key to something else.
    pub fn toggle_interpolation(&mut self, index: usize) -> (r: Result<(), EditorError>)
        ensures
            final(self)@ == old(self)@.toggle_interpolation(index),
            r == if index < old(self)@.keys.len() {
                Ok::<(), EditorError>(())
            } else {
                Err::<(), EditorError>(EditorError::UnknownKey(index))
            },
    {
        match self.curve.toggle_interpolation(index) {
            Err(e) => Err(e),
            Ok(()) => {
                self.rebuild_tess = true;
                Ok(())
            },
        }
    }

    /// Get the point tessellation that the renderer last took up.
    pub fn points(&self) -> (r: &Vec<PointVertex>)
        ensures
            r@ == self@.points,
    {
        &self.points
    }

    /// Get the line tessellation that the renderer last took up.
    pub fn lines(&self) -> (r: &Vec<LineVertex>)
        ensures
            r@ == self@.lines,
    {
        &self.lines
    }
}

/// Whatever is done to an editor, its control points stay in order and its
/// selection stays on a control point that is there.
pub proof fn lemma_changes_keep_wf(
    v: EditorView,
    index: usize,
    p: ScreenPos,
    interpolation: Interpolation,
    cursor: ScreenPos,
    picked: Option<Selection>,
)
    requires
        v.wf(),
        picks(v.keys, cursor, picked),
    ensures
        EditorView::fresh().wf(),
        v.keys.len() < usize::MAX ==> v.add_point(p, interpolation).wf(),
        v.move_key(index, p).wf(),
        v.move_handle(index, p).wf(),
        v.remove_point(index).wf(),
        v.toggle_interpolation(index).wf(),
        v.select(picked).wf(),
        v.deselect().wf(),
        v.rebuild_asked().wf(),
        forall|points: Seq<PointVertex>, lines: Seq<LineVertex>, taken: bool|
            (#[trigger] v.rebuild_finished(points, lines, taken)).wf(),
{
    lemma_inserted_sorted(v.keys, Key::at(p, interpolation));
    if index < v.keys.len() {
        lemma_moved_key_stands(v.keys, index, p);
    }
}

/// A control point that has been moved stands at the index that its new
/// parameter gives it, with its mode; the keys are in order as before, and
/// as many.
pub proof fn lemma_moved_key_stands(keys: Seq<Key>, index: usize, p: ScreenPos)
    requires
        valid_keys(keys),
        index < keys.len(),
    ensures
        valid_keys(moved(keys, index as int, p)),
        moved(keys, index as int, p).len() == keys.len(),
        keys_up_to(keys.remove(index as int), p.x as int) < keys.len(),
        moved(keys, index as int, p)[keys_up_to(keys.remove(index as int), p.x as int) as int]
            == Key::at(p, keys[index as int].interpolation),
{
    let rest = keys.remove(index as int);
    lemma_removed_sorted(keys, index as int);
    lemma_inserted_sorted(rest, Key::at(p, keys[index as int].interpolation));
}

/// After a move, the selection that followed it designates the control point
/// that it designated before: the moved one at its new place, any other one
/// as it was.
pub proof fn lemma_selection_follows_move(keys: Seq<Key>, index: usize, p: ScreenPos, j: usize)
    requires
        valid_keys(keys),
        keys.len() <= usize::MAX,
        index < keys.len(),
        j < keys.len(),
    ensures
        ({
            let to = keys_up_to(keys.remove(index as int), p.x as int) as usize;
            let after = moved(keys, index as int, p);
            &&& relocated(j, index, to) < after.len()
            &&& after[relocated(j, index, to) as int] == if j == index {
                Key::at(p, keys[index as int].interpolation)
            } else {
                keys[j as int]
            }
        }),
{
    lemma_moved_key_stands(keys, index, p);
    lemma_keys_up_to_splits(keys.remove(index as int), p.x as int);
}

/// Asking twice for a rebuild, with nothing done to the editor in between,
/// rebuilds once: the second time nothing is left to rebuild and the editor
/// stays as it is, with the geometry that the renderer took up the first time.
pub proof fn lemma_rebuild_once(v: EditorView, points: Seq<PointVertex>, lines: Seq<LineVertex>)
    ensures
        !v.rebuild_asked().rebuild_tess,
        v.rebuild_asked().rebuild_asked() == v.rebuild_asked(),
        !v.rebuild_asked().rebuild_finished(points, lines, true).rebuild_tess,
        v.rebuild_asked().rebuild_finished(points, lines, true).rebuild_asked()
            == v.rebuild_asked().rebuild_finished(points, lines, true),
        v.rebuild_asked().rebuild_finished(points, lines, true).points == points,
        v.rebuild_asked().rebuild_finished(points, lines, true).lines == lines,
{
}

/// A rebuild that the renderer refused leaves the geometry as it was and is
/// due again.
pub proof fn lemma_refused_rebuild_is_due_again(
    v: EditorView,
    points: Seq<PointVertex>,
    lines: Seq<LineVertex>,
)
    ensures
        v.rebuild_asked().rebuild_finished(points, lines, false).rebuild_tess,
        v.rebuild_asked().rebuild_finished(points, lines, false).points == v.points,
        v.rebuild_asked().rebuild_finished(points, lines, false).lines == v.lines,
        v.rebuild_asked().rebuild_finished(points, lines, false).keys == v.keys,
        v.rebuild_asked().rebuild_finished(points, lines, false).selection == v.selection,
{
}

/// Four toggles of a control point bring it back to the kind of mode that it
/// had, and leave every other control point alone.
pub proof fn lemma_toggle_four_times(keys: Seq<Key>, index: int)
    requires
        0 <= index < keys.len(),
    ensures
        ({
            let after = toggled(toggled(toggled(toggled(keys, index), index), index), index);
            &&& after.len() == keys.len()
            &&& after[index].interpolation.same_kind(keys[index].interpolation)
            &&& after[index].t == keys[index].t
            &&& after[index].value == keys[index].value
            &&& forall|j: int| 0 <= j < keys.len() && j != index ==> after[j] == keys[j]
        }),
{
    lemma_cycle_returns(keys[index].value, keys[index].interpolation);
}

/// Makes a selection follow a control point that went from `from` to `to`.
fn follow(selection: Option<Selection>, from: usize, to: usize) -> (r: Option<Selection>)
    ensures
        r == followed(selection, from, to),
{
    match selection {
        None => None,
        Some(Selection::Key(j)) => Some(Selection::Key(relocate(j, from, to))),
        Some(Selection::Handle(j, part)) => Some(Selection::Handle(relocate(j, from, to), part)),
    }
}

fn relocate(j: usize, from: usize, to: usize) -> (r: usize)
    ensures
        r == relocated(j, from, to),
{
    if j == from {
        to
    } else {
        let closed_up: usize = if j > from {
            j - 1
        } else {
            j
        };
        if closed_up >= to {
            closed_up + 1
        } else {
            closed_up
        }
    }
}

} // verus!
