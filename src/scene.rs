use vstd::prelude::*;

use crate::command::GlCommand;
use crate::program::Program;

verus! {

/// Bytes in one float of vertex data.
pub const FLOAT_BYTES: u32 = 4;

/// Floats per vertex: a position of three, then a color of three.
pub const FLOATS_PER_VERTEX: u32 = 6;

/// Bytes from one vertex to the next.
pub const STRIDE_BYTES: u32 = FLOATS_PER_VERTEX * FLOAT_BYTES;

/// Vertices in the uploaded triangle.
pub const VERTEX_COUNT: u32 = 3;

/// One float attribute of the interleaved vertex data.
#[derive(Clone, Copy, Debug, PartialEq, Eq, Structural)]
pub struct VertexAttribute {
    /// The program input it feeds.
    pub location: u32,
    /// Floats it reads per vertex.
    pub components: u32,
    /// Byte offset of its first float within a vertex.
    pub offset: u32,
}

/// The layout that programs drawn with a scene expect: position at input 0,
/// color at input 1, three floats each, interleaved.
pub open spec fn position_color_layout() -> Seq<VertexAttribute> {
    seq![
        VertexAttribute { location: 0, components: 3, offset: 0 },
        VertexAttribute { location: 1, components: 3, offset: (3 * FLOAT_BYTES) as u32 },
    ]
}

/// One vertex array and the vertex buffer it reads, holding one triangle.
#[derive(Debug)]
pub struct Scene {
    vao: u32,
    vbo: u32,
}

impl Scene {
    /// The vertex-array object.
    pub closed spec fn vertex_array(&self) -> u32 {
        self.vao
    }

    /// The vertex-buffer object.
    pub closed spec fn vertex_buffer(&self) -> u32 {
        self.vbo
    }

    /// A scene over a freshly generated vertex array and vertex buffer.
    /// A null object for either means it could not be generated.
    pub fn new(vao: u32, vbo: u32) -> (r: Option<Scene>)
        ensures
            r is Some <==> vao != 0 && vbo != 0,
            r matches Some(s) ==> s.vertex_array() == vao && s.vertex_buffer() == vbo,
    {
        if vao == 0 || vbo == 0 {
            None
        } else {
            Some(Scene { vao, vbo })
        }
    }

    pub fn vertex_array_id(&self) -> (r: u32)
        ensures
            r == self.vertex_array(),
    {
        self.vao
    }

    pub fn vertex_buffer_id(&self) -> (r: u32)
        ensures
            r == self.vertex_buffer(),
    {
        self.vbo
    }

    /// The attributes declared over the vertex data.
    pub fn layout() -> (r: Vec<VertexAttribute>)
        ensures
            r@ == position_color_layout(),
    {
        let r = vec![
            VertexAttribute { location: 0, components: 3, offset: 0 },
            VertexAttribute { location: 1, components: 3, offset: 3 * FLOAT_BYTES },
        ];
        assert(r@ =~= position_color_layout());
        r
    }

    /// The commands that fill the buffer and describe it to `program`: the
    /// program is made current, the vertex array bound, the buffer bound and
    /// filled with every vertex, and each attribute of the layout declared
    /// with the vertex stride and enabled.
    pub fn init(&self, program: &Program) -> (r: Vec<GlCommand>)
        ensures
            r@ == seq![
                GlCommand::UseProgram { program: program.handle() },
                GlCommand::BindVertexArray { vao: self.vertex_array() },
                GlCommand::BindArrayBuffer { buffer: self.vertex_buffer() },
                GlCommand::UploadVertices { floats: (VERTEX_COUNT * FLOATS_PER_VERTEX) as usize },
                GlCommand::VertexAttribute {
                    location: position_color_layout()[0].location,
                    components: position_color_layout()[0].components,
                    stride: STRIDE_BYTES,
                    offset: position_color_layout()[0].offset,
                },
                GlCommand::EnableAttribute { location: position_color_layout()[0].location },
                GlCommand::VertexAttribute {
                    location: position_color_layout()[1].location,
                    components: position_color_layout()[1].components,
                    stride: STRIDE_BYTES,
                    offset: position_color_layout()[1].offset,
                },
                GlCommand::EnableAttribute { location: position_color_layout()[1].location },
            ],
    {
        let mut r: Vec<GlCommand> = Vec::new();
        r.push(program.use_program());
        r.push(GlCommand::BindVertexArray { vao: self.vao });
        r.push(GlCommand::BindArrayBuffer { buffer: self.vbo });
        r.push(GlCommand::UploadVertices { floats: (VERTEX_COUNT * FLOATS_PER_VERTEX) as usize });
        let layout = Scene::layout();
        let mut i: usize = 0;
        while i < layout.len()
            invariant
                layout@ == position_color_layout(),
                i <= layout@.len(),
                r@.len() == 4 + 2 * i,
                forall|j: int| 0 <= j < 4 ==> r@[j] == setup_prefix(program.handle(), self.vao, self.vbo)[j],
                forall|j: int|
                    0 <= j < i ==> r@[4 + 2 * j] == (GlCommand::VertexAttribute {
                        location: layout@[j].location,
                        components: layout@[j].components,
                        stride: STRIDE_BYTES,
                        offset: layout@[j].offset,
                    }) && r@[5 + 2 * j] == (GlCommand::EnableAttribute { location: layout@[j].location }),
            decreases layout@.len() - i,
        {
            let a = layout[i];
            r.push(
                GlCommand::VertexAttribute {
                    location: a.location,
                    components: a.components,
                    stride: STRIDE_BYTES,
                    offset: a.offset,
                },
            );
            r.push(GlCommand::EnableAttribute { location: a.location });
            i = i + 1;
        }
        assert(r@ =~= seq![
            GlCommand::UseProgram { program: program.handle() },
            GlCommand::BindVertexArray { vao: self.vertex_array() },
            GlCommand::BindArrayBuffer { buffer: self.vertex_buffer() },
            GlCommand::UploadVertices { floats: (VERTEX_COUNT * FLOATS_PER_VERTEX) as usize },
            GlCommand::VertexAttribute {
                location: position_color_layout()[0].location,
                components: position_color_layout()[0].components,
                stride: STRIDE_BYTES,
                offset: position_color_layout()[0].offset,
            },
            GlCommand::EnableAttribute { location: position_color_layout()[0].location },
            GlCommand::VertexAttribute {
                location: position_color_layout()[1].location,
                components: position_color_layout()[1].components,
                stride: STRIDE_BYTES,
                offset: position_color_layout()[1].offset,
            },
            GlCommand::EnableAttribute { location: position_color_layout()[1].location },
        ]);
        r
    }

    /// The commands that draw the scene with `program`: the program is made
    /// current, this scene's vertex array bound, and a triangle list of every
    /// vertex drawn from the first.
    pub fn render(&self, program: &Program) -> (r: Vec<GlCommand>)
        ensures
            r@ == seq![
                GlCommand::UseProgram { program: program.handle() },
                GlCommand::BindVertexArray { vao: self.vertex_array() },
                GlCommand::DrawTriangles { first: 0, count: VERTEX_COUNT },
            ],
    {
        let mut r: Vec<GlCommand> = Vec::new();
        r.push(program.use_program());
        r.push(GlCommand::BindVertexArray { vao: self.vao });
        r.push(GlCommand::DrawTriangles { first: 0, count: VERTEX_COUNT });
        assert(r@ =~= seq![
            GlCommand::UseProgram { program: program.handle() },
            GlCommand::BindVertexArray { vao: self.vertex_array() },
            GlCommand::DrawTriangles { first: 0, count: VERTEX_COUNT },
        ]);
        r
    }
}

/// The first four commands of a scene's setup.
spec fn setup_prefix(program: u32, vao: u32, vbo: u32) -> Seq<GlCommand> {
    seq![
        GlCommand::UseProgram { program },
        GlCommand::BindVertexArray { vao },
        GlCommand::BindArrayBuffer { buffer: vbo },
        GlCommand::UploadVertices { floats: (VERTEX_COUNT * FLOATS_PER_VERTEX) as usize },
    ]
}

} // verus!
