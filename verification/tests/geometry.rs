use rusty_render::loading::load_image;
use rusty_render::loading::load_shader;
use rusty_render::loading::RawFile;
use rusty_render::loading::ResourceLoadError;
use rusty_render::rendering::geometry::after_shader_load;
use rusty_render::rendering::geometry::Mesh;
use rusty_render::rendering::geometry::Startup;
use rusty_render::rendering::geometry::Vector2;
use rusty_render::rendering::geometry::Vector3;
use rusty_render::rendering::geometry::Vertex;
use rusty_render::rendering::shapes::new_plane;

// Stand-ins for what a GPU layer would hand back.
#[derive(Debug, PartialEq)]
struct Buffer(usize);
#[derive(Debug, PartialEq)]
struct Program(String, String);
#[derive(Debug, PartialEq)]
struct Texture(&'static str);
#[derive(Debug, PartialEq)]
struct Refused;

fn upload(vertices: &[Vertex]) -> Result<Buffer, Refused> {
    Ok(Buffer(vertices.len()))
}

fn compile(sources: Result<(String, String), ResourceLoadError>) -> Result<Program, Refused> {
    match sources {
        Ok((vertex, fragment)) if vertex.contains("main") && fragment.contains("main") => {
            Ok(Program(vertex, fragment))
        }
        _ => Err(Refused),
    }
}

fn shader(text: &str) -> RawFile {
    RawFile::Bytes(text.as_bytes().to_vec())
}

fn vertex(position: (i32, i32, i32), normal: (i32, i32, i32), tex_coord: (i32, i32)) -> Vertex {
    Vertex {
        position: Vector3 { x: position.0, y: position.1, z: position.2 },
        normal: Vector3 { x: normal.0, y: normal.1, z: normal.2 },
        tex_coord: Vector2 { x: tex_coord.0, y: tex_coord.1 },
    }
}

#[test]
fn plane_is_a_strip_of_four_corners() {
    assert_eq!(
        new_plane(),
        vec![
            vertex((-1, 1, 0), (0, 0, -1), (0, 1)),
            vertex((1, 1, 0), (0, 0, -1), (1, 1)),
            vertex((-1, -1, 0), (0, 0, -1), (0, 0)),
            vertex((1, -1, 0), (0, 0, -1), (1, 0)),
        ]
    );
}

#[test]
fn plane_lies_flat_and_faces_one_way() {
    for corner in new_plane() {
        assert_eq!(corner.position.z, 0);
        assert_eq!(corner.normal, Vector3 { x: 0, y: 0, z: -1 });
        assert_eq!(2 * corner.tex_coord.x - 1, corner.position.x);
        assert_eq!(2 * corner.tex_coord.y - 1, corner.position.y);
    }
}

#[test]
fn mesh_is_built_when_every_request_succeeded() {
    let plane = new_plane();
    let buffer = upload(&plane);
    let program = compile(load_shader(shader("void main() { a(); }"), shader("void main() { b(); }")));
    let mesh = Mesh::assemble(plane, buffer, program, Some(Texture("diffuse")), Some(Texture("normal")))
        .unwrap();
    assert_eq!(mesh.vertices, new_plane());
    assert_eq!(mesh.vertex_buffer, Buffer(4));
    assert_eq!(
        mesh.program,
        Program(String::from("void main() { a(); }"), String::from("void main() { b(); }"))
    );
    assert_eq!(mesh.tex_diffuse, Texture("diffuse"));
    assert_eq!(mesh.tex_normal, Texture("normal"));
}

#[test]
fn missing_diffuse_texture_gives_no_mesh() {
    let plane = new_plane();
    let buffer = upload(&plane);
    let program = compile(load_shader(shader("void main() {}"), shader("void main() {}")));
    let diffuse = match load_image("assets/wall-diffuse.jpg", RawFile::Unopened) {
        Ok(_) => Some(Texture("diffuse")),
        Err(_) => None,
    };
    assert_eq!(diffuse, None);
    let mesh = Mesh::assemble(plane, buffer, program, diffuse, Some(Texture("normal")));
    assert!(mesh.is_none());
}

#[test]
fn missing_normal_texture_gives_no_mesh() {
    let plane = new_plane();
    let buffer = upload(&plane);
    let program: Result<Program, Refused> = Ok(Program(String::new(), String::new()));
    let mesh = Mesh::assemble(plane, buffer, program, Some(Texture("diffuse")), None::<Texture>);
    assert!(mesh.is_none());
}

#[test]
fn shader_that_does_not_compile_gives_no_mesh() {
    let plane = new_plane();
    let buffer = upload(&plane);
    let program = compile(load_shader(shader("void main() {}"), shader("garbage")));
    assert_eq!(program, Err(Refused));
    let mesh = Mesh::assemble(plane, buffer, program, Some(Texture("diffuse")), Some(Texture("normal")));
    assert!(mesh.is_none());
}

#[test]
fn refused_vertex_buffer_gives_no_mesh() {
    let program: Result<Program, Refused> = Ok(Program(String::new(), String::new()));
    let buffer: Result<Buffer, Refused> = Err(Refused);
    let mesh = Mesh::assemble(new_plane(), buffer, program, Some(Texture("diffuse")), Some(Texture("normal")));
    assert!(mesh.is_none());
}

#[test]
fn nothing_at_all_gives_no_mesh() {
    let program: Result<Program, Refused> = Err(Refused);
    let buffer: Result<Buffer, Refused> = Err(Refused);
    let mesh = Mesh::assemble(Vec::new(), buffer, program, None::<Texture>, None::<Texture>);
    assert!(mesh.is_none());
}

#[test]
fn mesh_keeps_whatever_vertices_it_is_given() {
    let corners = vec![vertex((3, -4, 5), (1, 0, 0), (7, 9))];
    let program: Result<Program, Refused> = Ok(Program(String::from("v"), String::from("f")));
    let buffer: Result<Buffer, Refused> = Ok(Buffer(1));
    let mesh = Mesh::assemble(corners.clone(), buffer, program, Some(Texture("d")), Some(Texture("n")))
        .unwrap();
    assert_eq!(mesh.vertices, corners);
}

#[test]
fn loaded_shader_pair_goes_on_to_compiling() {
    let sources = load_shader(shader("void main() { a(); }"), shader("void main() { b(); }"));
    assert_eq!(
        after_shader_load(sources),
        Startup::Compile(String::from("void main() { a(); }"), String::from("void main() { b(); }"))
    );
}

#[test]
fn missing_shader_file_is_fatal() {
    let sources = load_shader(RawFile::Unopened, shader("void main() {}"));
    assert_eq!(after_shader_load(sources), Startup::Fatal);
}

#[test]
fn any_shader_load_error_is_fatal() {
    assert_eq!(after_shader_load(Err(ResourceLoadError::FileNotFound)), Startup::Fatal);
    assert_eq!(after_shader_load(Err(ResourceLoadError::FileReadFailure)), Startup::Fatal);
    assert_eq!(after_shader_load(Err(ResourceLoadError::ParsingError)), Startup::Fatal);
}

#[test]
fn shader_text_that_cannot_compile_is_not_fatal_at_load() {
    let sources = load_shader(shader("garbage"), shader("more garbage"));
    assert_eq!(
        after_shader_load(sources),
        Startup::Compile(String::from("garbage"), String::from("more garbage"))
    );
}
