//! The shapes that spawn on the map to be farmed for experience.
use vstd::prelude::*;

verus! {

/// The kind of a shape, which decides its texture, size and hit points.
#[derive(Clone, Copy, Debug, PartialEq, Eq, Structural)]
pub enum ShapeKind {
    Square,
    Triangle,
    Hexagon,
    /// A twelve-sided shape; at most a hundredth of the shapes on the map.
    TwelveGon,
}

pub open spec fn spawned_shape_kind_spec(
    hexagon_roll: bool,
    triangle_roll: bool,
    many_missing: bool,
    twelve_gon_room: bool,
) -> ShapeKind {
    if (hexagon_roll || many_missing) && twelve_gon_room {
        ShapeKind::TwelveGon
    } else if hexagon_roll {
        ShapeKind::Hexagon
    } else if triangle_roll {
        ShapeKind::Triangle
    } else {
        ShapeKind::Square
    }
}

/// The kind of a newly spawned shape. `hexagon_roll` and `triangle_roll` are
/// the outcomes of its dice, `many_missing` tells whether more than a tenth
/// of the shapes that the map holds are missing, and `twelve_gon_room`
/// whether there are fewer twelve-sided shapes than a hundredth of that
/// number. A hexagon roll, or many missing shapes, turns the shape into a
/// twelve-sided one when there is room for one; otherwise the hexagon roll
/// comes before the triangle roll, and a shape with neither is a square.
pub fn spawned_shape_kind(
    hexagon_roll: bool,
    triangle_roll: bool,
    many_missing: bool,
    twelve_gon_room: bool,
) -> (r: ShapeKind)
    ensures
        r == spawned_shape_kind_spec(hexagon_roll, triangle_roll, many_missing, twelve_gon_room),
{
    let mut is_hexagon = hexagon_roll;
    let mut is_12gon = false;
    if is_hexagon || many_missing {
        if twelve_gon_room {
            is_12gon = true;
            is_hexagon = true;
        }
    }
    if is_12gon {
        ShapeKind::TwelveGon
    } else if is_hexagon {
        ShapeKind::Hexagon
    } else if triangle_roll {
        ShapeKind::Triangle
    } else {
        ShapeKind::Square
    }
}

pub open spec fn shape_texture_spec(k: ShapeKind) -> Seq<char> {
    match k {
        ShapeKind::Square => "square"@,
        ShapeKind::Triangle => "triangle"@,
        ShapeKind::Hexagon => "hexagon"@,
        ShapeKind::TwelveGon => "12gon"@,
    }
}

impl ShapeKind {
    /// The texture that shapes of this kind are drawn with.
    pub fn texture_name(&self) -> (r: &'static str)
        ensures
            r@ == shape_texture_spec(*self),
    {
        match self {
            ShapeKind::Square => "square",
            ShapeKind::Triangle => "triangle",
            ShapeKind::Hexagon => "hexagon",
            ShapeKind::TwelveGon => "12gon",
        }
    }
}

/// Without room for a twelve-sided shape none spawns, and with neither roll
/// nor many missing shapes none does either.
pub proof fn lemma_twelve_gon_needs_room(h: bool, t: bool, m: bool, room: bool)
    ensures
        spawned_shape_kind_spec(h, t, m, room) == ShapeKind::TwelveGon <==> (h || m) && room,
{
}

/// Without room for a twelve-sided shape, a hexagon roll gives a hexagon, a
/// triangle roll without it a triangle, and neither a square; with room, a
/// hexagon roll or many missing shapes give a twelve-sided one.
pub proof fn lemma_shape_kind_cases(h: bool, t: bool, m: bool, room: bool)
    ensures
        room && (h || m) ==> spawned_shape_kind_spec(h, t, m, room) == ShapeKind::TwelveGon,
        !(room && (h || m)) && h ==> spawned_shape_kind_spec(h, t, m, room) == ShapeKind::Hexagon,
        !(room && (h || m)) && !h && t ==> spawned_shape_kind_spec(h, t, m, room)
            == ShapeKind::Triangle,
        !(room && (h || m)) && !h && !t ==> spawned_shape_kind_spec(h, t, m, room)
            == ShapeKind::Square,
{
}

} // verus!
