//! Vertices and meshes.
//!
//! Coordinates here are whole numbers of model units; the program that
//! uploads a vertex widens them to what the GPU wants. The handles that a
//! mesh owns are the GPU layer's, and this module never looks inside one: a
//! mesh is generic in all four.

use crate::loading::ResourceLoadError;
use vstd::prelude::*;

verus! {

/// A point or direction in the plane.
#[derive(Debug, Clone, Copy, PartialEq, Eq, Structural)]
pub struct Vector2 {
    pub x: i32,
    pub y: i32,
}

/// A point or direction in space.
#[derive(Debug, Clone, Copy, PartialEq, Eq, Structural)]
pub struct Vector3 {
    pub x: i32,
    pub y: i32,
    pub z: i32,
}

/// One corner of a surface: where it is, which way the surface faces there,
/// and which point of the textures belongs to it.
#[derive(Debug, Clone, Copy, PartialEq, Eq, Structural)]
pub struct Vertex {
    pub position: Vector3,
    pub normal: Vector3,
    pub tex_coord: Vector2,
}

/// Everything one draw call needs: the vertices, their copy on the GPU, the
/// compiled shader program, and the diffuse and normal textures.
///
/// `B`, `P`, `D` and `N` are the GPU layer's handles for the vertex buffer,
/// the program and the two textures. The mesh owns all four.
#[derive(Debug)]
pub struct Mesh<B, P, D, N> {
    pub vertices: Vec<Vertex>,
    pub vertex_buffer: B,
    pub program: P,
    pub tex_diffuse: D,
    pub tex_normal: N,
}

impl<B, P, D, N> Mesh<B, P, D, N> {
    /// Binds the results of the four GPU requests into a mesh.
    ///
    /// There is a mesh exactly when all four requests succeeded, and it then
    /// holds what they returned together with the vertices. One failure is
    /// enough for there to be none; which request failed, and why, is not
    /// kept.
    pub fn assemble<EB, EP>(
        vertices: Vec<Vertex>,
        vertex_buffer: Result<B, EB>,
        program: Result<P, EP>,
        tex_diffuse: Option<D>,
        tex_normal: Option<N>,
    ) -> (mesh: Option<Mesh<B, P, D, N>>)
        ensures
            mesh is Some <==> vertex_buffer is Ok && program is Ok && tex_diffuse is Some
                && tex_normal is Some,
            mesh is Some ==> mesh->Some_0 == (Mesh {
                vertices,
                vertex_buffer: vertex_buffer->Ok_0,
                program: program->Ok_0,
                tex_diffuse: tex_diffuse->Some_0,
                tex_normal: tex_normal->Some_0,
            }),
    {
        match (program, tex_diffuse, tex_normal, vertex_buffer) {
            (Ok(program), Some(tex_diffuse), Some(tex_normal), Ok(vertex_buffer)) => Some(
                Mesh { vertices, vertex_buffer, program, tex_diffuse, tex_normal },
            ),
            _ => None,
        }
    }
}

/// What the renderer does once the loader has answered for the shader pair.
#[derive(Debug, PartialEq, Eq)]
pub enum Startup {
    /// There is no shader text to work with: the program stops.
    Fatal,
    /// Compile the vertex and the fragment source, in that order.
    Compile(String, String),
}

/// Decides how startup goes on after the shader pair was loaded.
///
/// A shader pair that could not be loaded is the one failure that stops the
/// program. Everything that fails later, in compiling or in the textures,
/// only leaves the scene without a mesh: see [`Mesh::assemble`].
pub fn after_shader_load(sources: Result<(String, String), ResourceLoadError>) -> (next: Startup)
    ensures
        sources is Err <==> next is Fatal,
        sources is Ok ==> next == Startup::Compile(sources->Ok_0.0, sources->Ok_0.1),
{
    match sources {
        Ok((vertex, fragment)) => Startup::Compile(vertex, fragment),
        Err(_) => Startup::Fatal,
    }
}

} // verus!
