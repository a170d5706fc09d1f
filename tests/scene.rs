use rugl::{GlCommand, Program, Reply, Scene, Step, VertexAttribute};

fn built_program() -> Program {
    let mut b = Program::graphics(&"v".to_string(), &"f".to_string());
    let mut reply = Reply::Done;
    let mut next: u32 = 1;
    loop {
        match b.advance(reply) {
            Step::Run(GlCommand::CreateShader { .. }) | Step::Run(GlCommand::CreateProgram) => {
                reply = Reply::Handle(next);
                next += 1;
            }
            Step::Run(GlCommand::ReadSource { .. }) => reply = Reply::Source(b"x".to_vec()),
            Step::Run(GlCommand::CompileShader { .. }) | Step::Run(GlCommand::LinkProgram { .. }) => {
                reply = Reply::Status(true)
            }
            Step::Run(_) => reply = Reply::Done,
            Step::Built(p) => return p,
            Step::Abort(e) => panic!("{:?}", e),
        }
    }
}

#[test]
fn scene_needs_both_objects() {
    assert!(Scene::new(0, 2).is_none());
    assert!(Scene::new(1, 0).is_none());
    let scene = Scene::new(1, 2).unwrap();
    assert_eq!(scene.vertex_array_id(), 1);
    assert_eq!(scene.vertex_buffer_id(), 2);
}

#[test]
fn attribute_layout_is_interleaved_position_and_color() {
    assert_eq!(
        Scene::layout(),
        vec![
            VertexAttribute { location: 0, components: 3, offset: 0 },
            VertexAttribute { location: 1, components: 3, offset: 12 },
        ]
    );
}

#[test]
fn init_declares_both_attributes_with_a_24_byte_stride() {
    let program = built_program();
    let scene = Scene::new(10, 11).unwrap();
    assert_eq!(
        scene.init(&program),
        vec![
            GlCommand::UseProgram { program: program.id() },
            GlCommand::BindVertexArray { vao: 10 },
            GlCommand::BindArrayBuffer { buffer: 11 },
            GlCommand::UploadVertices { floats: 18 },
            GlCommand::VertexAttribute { location: 0, components: 3, stride: 24, offset: 0 },
            GlCommand::EnableAttribute { location: 0 },
            GlCommand::VertexAttribute { location: 1, components: 3, stride: 24, offset: 12 },
            GlCommand::EnableAttribute { location: 1 },
        ]
    );
}

#[test]
fn render_draws_three_vertices_from_the_bound_array() {
    let program = built_program();
    let scene = Scene::new(10, 11).unwrap();
    assert_eq!(
        scene.render(&program),
        vec![
            GlCommand::UseProgram { program: program.id() },
            GlCommand::BindVertexArray { vao: 10 },
            GlCommand::DrawTriangles { first: 0, count: 3 },
        ]
    );
}
