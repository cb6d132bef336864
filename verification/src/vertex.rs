//! What the renderer is handed: a strip of line vertices for the curve, and
//! point markers for the control points and the handles.

use crate::key::{Interpolation, Key};
use crate::sample::sampled_curve;
use crate::screen::ScreenPos;
use crate::selection::Selection;
use vstd::prelude::*;

verus! {

/// Radius of the marker of a control point: half of a fortieth of a unit.
pub const KEY_RADIUS: i32 = 125;

/// Radius of the marker of a handle.
pub const HANDLE_RADIUS: i32 = 75;

/// What an attribute of a vertex means to the shaders.
#[derive(Clone, Copy, Debug, PartialEq, Eq, Structural)]
pub enum Semantics {
    Position,
    Radius,
    Color,
}

/// Position of a vertex.
#[derive(Clone, Copy, Debug, PartialEq, Eq, Structural)]
pub struct VPos(pub ScreenPos);

/// Radius of a point marker, in grid steps.
#[derive(Clone, Copy, Debug, PartialEq, Eq, Structural)]
pub struct VRadius(pub i32);

/// Colour of a point marker: red, green and blue, each in ten-thousandths.
#[derive(Clone, Copy, Debug, PartialEq, Eq, Structural)]
pub struct VColor(pub i32, pub i32, pub i32);

/// A vertex of the strip that draws the curve.
#[derive(Clone, Copy, Debug, PartialEq, Eq, Structural)]
pub struct LineVertex(pub VPos);

/// A marker of a control point or of a handle.
#[derive(Clone, Copy, Debug, PartialEq, Eq, Structural)]
pub struct PointVertex(pub VPos, pub VColor, pub VRadius);

impl Semantics {
    /// Name of the attribute in the shaders.
    pub open spec fn name_of(self) -> Seq<char> {
        match self {
            Semantics::Position => "position"@,
            Semantics::Radius => "radius"@,
            Semantics::Color => "color"@,
        }
    }

    /// Place of the attribute among those of a vertex.
    pub open spec fn index_of(self) -> usize {
        match self {
            Semantics::Position => 0,
            Semantics::Radius => 1,
            Semantics::Color => 2,
        }
    }

    pub fn name(&self) -> (name: &'static str)
        ensures
            name@ == self.name_of(),
    {
        match self {
            Semantics::Position => "position",
            Semantics::Radius => "radius",
            Semantics::Color => "color",
        }
    }

    pub fn index(&self) -> (index: usize)
        ensures
            index == self.index_of(),
    {
        match self {
            Semantics::Position => 0,
            Semantics::Radius => 1,
            Semantics::Color => 2,
        }
    }
}

/// Whether the control point of index `i` is selected.
pub open spec fn selects_key(selection: Option<Selection>, i: int) -> bool {
    selection matches Some(Selection::Key(s)) && s == i
}

/// Whether a handle of the control point of index `i` is selected.
pub open spec fn selects_handle(selection: Option<Selection>, i: int) -> bool {
    selection matches Some(Selection::Handle(s, _)) && s == i
}

/// The marker of a control point at `p`: light blue, light red when selected.
pub open spec fn key_marker(p: ScreenPos, selected: bool) -> PointVertex {
    PointVertex(
        VPos(p),
        if selected {
            VColor(10_000, 5_000, 5_000)
        } else {
            VColor(5_000, 5_000, 10_000)
        },
        VRadius(KEY_RADIUS),
    )
}

/// The marker of a handle at `p`: light green, light red when selected.
pub open spec fn handle_marker(p: ScreenPos, selected: bool) -> PointVertex {
    PointVertex(
        VPos(p),
        if selected {
            VColor(10_000, 5_000, 5_000)
        } else {
            VColor(5_000, 10_000, 5_000)
        },
        VRadius(HANDLE_RADIUS),
    )
}

/// The markers of the control points, in their order.
pub open spec fn key_markers(keys: Seq<Key>, selection: Option<Selection>) -> Seq<PointVertex> {
    Seq::new(keys.len(), |i: int| key_marker(keys[i].value, selects_key(selection, i)))
}

/// The markers of the handles of the Bézier points, in the order of their
/// points.
pub open spec fn handle_markers(keys: Seq<Key>, selection: Option<Selection>) -> Seq<PointVertex>
    decreases keys.len(),
{
    if keys.len() == 0 {
        Seq::empty()
    } else {
        let before = handle_markers(keys.drop_last(), selection);
        match keys.last().interpolation {
            Interpolation::Bezier(u) => before.push(
                handle_marker(u, selects_handle(selection, keys.len() - 1)),
            ),
            _ => before,
        }
    }
}

/// The point markers of a curve: those of the control points, then those of
/// the handles.
pub open spec fn point_markers(keys: Seq<Key>, selection: Option<Selection>) -> Seq<PointVertex> {
    key_markers(keys, selection) + handle_markers(keys, selection)
}

/// The line vertices of a curve: its strip.
pub open spec fn line_vertices(keys: Seq<Key>) -> Seq<LineVertex> {
    sampled_curve(keys).map_values(|p: ScreenPos| LineVertex(VPos(p)))
}

/// Builds the point markers of `keys`.
pub fn mark_points(keys: &Vec<Key>, selection: Option<Selection>) -> (vertices: Vec<PointVertex>)
    ensures
        vertices@ == point_markers(keys@, selection),
{
    let mut vertices: Vec<PointVertex> = Vec::new();
    let mut specials: Vec<PointVertex> = Vec::new();
    let mut i: usize = 0;
    while i < keys.len()
        invariant
            0 <= i <= keys.len(),
            vertices@ == key_markers(keys@.take(i as int), selection),
            specials@ == handle_markers(keys@.take(i as int), selection),
        decreases keys.len() - i,
    {
        let cp = keys[i];
        let ghost before = keys@.take(i as int);
        let ghost after = keys@.take(i + 1);
        assert(after.drop_last() == before);
        let mut vertex = PointVertex(VPos(cp.value), VColor(5_000, 5_000, 10_000), VRadius(KEY_RADIUS));
        if let Some(Selection::Key(i_sel)) = selection {
            if i_sel == i {
                vertex.1 = VColor(10_000, 5_000, 5_000);
            }
        }
        vertices.push(vertex);
        if let Interpolation::Bezier(u) = cp.interpolation {
            let mut vertex = PointVertex(VPos(u), VColor(5_000, 10_000, 5_000), VRadius(HANDLE_RADIUS));
            if let Some(Selection::Handle(i_sel, _)) = selection {
                if i_sel == i {
                    vertex.1 = VColor(10_000, 5_000, 5_000);
                }
            }
            specials.push(vertex);
        }
        i += 1;
    }
    assert(keys@.take(i as int) == keys@);
    vertices.append(&mut specials);
    vertices
}

/// Turns a strip of points into line vertices.
pub fn line_strip(strip: &Vec<ScreenPos>) -> (vertices: Vec<LineVertex>)
    ensures
        vertices@ == strip@.map_values(|p: ScreenPos| LineVertex(VPos(p))),
{
    let mut vertices: Vec<LineVertex> = Vec::new();
    let mut i: usize = 0;
    while i < strip.len()
        invariant
            0 <= i <= strip.len(),
            vertices@ == strip@.take(i as int).map_values(|p: ScreenPos| LineVertex(VPos(p))),
        decreases strip.len() - i,
    {
        vertices.push(LineVertex(VPos(strip[i])));
        i += 1;
    }
    assert(strip@.take(i as int) == strip@);
    vertices
}

} // verus!
