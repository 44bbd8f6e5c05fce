//! Ready-made shapes.

use crate::rendering::geometry::Vector2;
use crate::rendering::geometry::Vector3;
use crate::rendering::geometry::Vertex;
use vstd::prelude::*;

verus! {

/// The coordinate of an edge of the plane: one unit from the origin, on the
/// positive or the negative side.
pub open spec fn edge(positive: bool) -> i32 {
    if positive {
        1
    } else {
        -1 as i32
    }
}

/// The texture coordinate that belongs to an edge of the plane: the texture
/// starts at the negative edge and ends at the positive one.
pub open spec fn texture_edge(positive: bool) -> i32 {
    if positive {
        1
    } else {
        0
    }
}

/// One corner of the plane. The plane lies at depth zero and faces down the
/// negative z axis.
pub open spec fn plane_corner(right: bool, top: bool) -> Vertex {
    Vertex {
        position: Vector3 { x: edge(right), y: edge(top), z: 0 },
        normal: Vector3 { x: 0, y: 0, z: -1 as i32 },
        tex_coord: Vector2 { x: texture_edge(right), y: texture_edge(top) },
    }
}

/// The four corners of the plane in the order of a triangle strip: top left,
/// top right, bottom left, bottom right.
pub open spec fn plane_vertices() -> Seq<Vertex> {
    seq![
        plane_corner(false, true),
        plane_corner(true, true),
        plane_corner(false, false),
        plane_corner(true, false),
    ]
}

/// Builds one corner of the plane.
fn corner(right: bool, top: bool) -> (vertex: Vertex)
    ensures
        vertex == plane_corner(right, top),
{
    let x: i32 = if right { 1 } else { -1 };
    let y: i32 = if top { 1 } else { -1 };
    let u: i32 = if right { 1 } else { 0 };
    let v: i32 = if top { 1 } else { 0 };
    Vertex {
        position: Vector3 { x, y, z: 0 },
        normal: Vector3 { x: 0, y: 0, z: -1 },
        tex_coord: Vector2 { x: u, y: v },
    }
}

/// A square of side two around the origin, as a strip of two triangles.
pub fn new_plane() -> (plane: Vec<Vertex>)
    ensures
        plane@ == plane_vertices(),
{
    let mut plane: Vec<Vertex> = Vec::new();
    plane.push(corner(false, true));
    plane.push(corner(true, true));
    plane.push(corner(false, false));
    plane.push(corner(true, false));
    plane
}

} // verus!
