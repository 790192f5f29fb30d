//! From shapes to vertices.
//!
//! A shape is discretized in its own frame: the vertices of a rectangle
//! depend on its size alone. Where the shape is placed in the scene is
//! not part of its geometry.

use crate::drawing::objects::{Light, Wall};
use crate::geometry::{vertex_members, white, Vertex2D, Vertex2DBuilder};
use crate::math::{Rect, Vec2, ZERO};
use vstd::prelude::*;

verus! {

/// The white vertex at the given coordinates.
pub open spec fn white_vertex(x: u32, y: u32) -> Vertex2D {
    Vertex2D::spec_new([x, y], white())
}

/// The vertices of a point: the point itself.
pub open spec fn spec_discrete_vec2(vec: Vec2) -> Seq<Vertex2D> {
    seq![white_vertex(vec.0[0], vec.0[1])]
}

/// The vertices of a rectangle: its four corners as seen from its own
/// origin, the origin first, then along the width, then along the
/// height, then the far corner, so that they form a triangle strip.
pub open spec fn spec_discrete_rect(rect: Rect) -> Seq<Vertex2D> {
    seq![
        white_vertex(ZERO, ZERO),
        white_vertex(rect.size.0[0], ZERO),
        white_vertex(ZERO, rect.size.0[1]),
        white_vertex(rect.size.0[0], rect.size.0[1]),
    ]
}

/// The vertices of a light: those of its rectangle.
pub open spec fn spec_discrete_light(light: Light) -> Seq<Vertex2D> {
    spec_discrete_rect(light.rect)
}

/// The vertices of a wall: those of its rectangle.
pub open spec fn spec_discrete_wall(wall: Wall) -> Seq<Vertex2D> {
    spec_discrete_rect(wall.rect)
}

fn vertex_at(x: u32, y: u32) -> (v: Vertex2D)
    ensures
        v == white_vertex(x, y),
        v.spec_position() == [x, y],
        v.spec_color() == white(),
{
    let v = Vertex2DBuilder::new([x, y]).build();
    proof {
        vertex_members([x, y], white());
    }
    v
}

/// Discretizes a point into one white vertex at its coordinates.
pub fn discrete_vec2(vec: &Vec2) -> (vertices: [Vertex2D; 1])
    ensures
        vertices@ == spec_discrete_vec2(*vec),
        vertices@.len() == 1,
        vertices[0].spec_position() == [vec.0[0], vec.0[1]],
        vertices[0].spec_color() == white(),
{
    let vertices = [vertex_at(vec.x(), vec.y())];
    assert(vertices@ =~= spec_discrete_vec2(*vec));
    vertices
}

/// Discretizes a rectangle into its four corners, white, in strip order.
pub fn discrete_rect(rect: &Rect) -> (vertices: [Vertex2D; 4])
    ensures
        vertices@ == spec_discrete_rect(*rect),
        vertices@.len() == 4,
        vertices[0].spec_position() == [ZERO, ZERO],
        vertices[1].spec_position() == [rect.size.0[0], ZERO],
        vertices[2].spec_position() == [ZERO, rect.size.0[1]],
        vertices[3].spec_position() == [rect.size.0[0], rect.size.0[1]],
        forall|i: int| 0 <= i < 4 ==> (#[trigger] vertices[i]).spec_color() == white(),
{
    let vertices = [
        vertex_at(ZERO, ZERO),
        vertex_at(rect.size.x(), ZERO),
        vertex_at(ZERO, rect.size.y()),
        vertex_at(rect.size.x(), rect.size.y()),
    ];
    assert(vertices@ =~= spec_discrete_rect(*rect));
    vertices
}

/// Discretizes a light: the corners of its rectangle.
pub fn discrete_light(light: &Light) -> (vertices: [Vertex2D; 4])
    ensures
        vertices@ == spec_discrete_light(*light),
        vertices@.len() == 4,
{
    discrete_rect(&light.rect)
}

/// Discretizes a wall: the corners of its rectangle.
pub fn discrete_wall(wall: &Wall) -> (vertices: [Vertex2D; 4])
    ensures
        vertices@ == spec_discrete_wall(*wall),
        vertices@.len() == 4,
{
    discrete_rect(&wall.rect)
}

/// A rectangle's vertices do not depend on where it is placed: two
/// rectangles of one size have the same vertices.
pub proof fn discrete_rect_ignores_position(a: Rect, b: Rect)
    requires
        a.size == b.size,
    ensures
        spec_discrete_rect(a) == spec_discrete_rect(b),
{
}

/// A light's vertices depend on the size of its rectangle alone, not on
/// its placement nor on that of the rectangle.
pub proof fn discrete_light_ignores_position(a: Light, b: Light)
    requires
        a.rect.size == b.rect.size,
    ensures
        spec_discrete_light(a) == spec_discrete_light(b),
{
}

/// A wall's vertices depend on the size of its rectangle alone.
pub proof fn discrete_wall_ignores_position(a: Wall, b: Wall)
    requires
        a.rect.size == b.rect.size,
    ensures
        spec_discrete_wall(a) == spec_discrete_wall(b),
{
}

} // verus!
