use vstd::prelude::*;

verus! {

/// The buffer binding point that vertex attribute layouts read from.
pub const ARRAY_BUFFER: u32 = 0x8892;

/// The shader stage that a new shader object is created for.
#[derive(Clone, Copy, Debug, PartialEq, Eq, Structural)]
pub enum ShaderStage {
    Vertex,
    Fragment,
}

/// One call into the graphics driver, with its arguments as plain values.
///
/// Buffer contents and matrices travel as 32-bit words: an `i32` as its two's
/// complement pattern, an `f32` as its IEEE-754 bit pattern.
#[derive(Clone, Debug, PartialEq, Eq)]
pub enum GlCommand {
    BindVertexArray { id: u32 },
    BindBuffer { target: u32, id: u32 },
    BufferData { target: u32, byte_size: isize, words: Vec<u32>, usage: u32 },
    VertexAttribPointer {
        index: u32,
        size: i32,
        component_type: u32,
        normalized: u8,
        stride: i32,
        offset: usize,
    },
    EnableVertexAttribArray { index: u32 },
    DisableVertexAttribArray { index: u32 },
    CreateShader { stage: ShaderStage },
    ShaderSource { shader: u32, source: String },
    CompileShader { shader: u32 },
    CreateProgram,
    AttachShader { program: u32, shader: u32 },
    LinkProgram { program: u32 },
    DeleteShader { shader: u32 },
    UseProgram { program: u32 },
    UniformMatrix4fv { location: i32, count: i32, transpose: bool, value: [u32; 16] },
}

/// The mathematical value of a [`GlCommand`]: the same call with its payloads
/// as sequences.
pub ghost enum CommandView {
    BindVertexArray { id: u32 },
    BindBuffer { target: u32, id: u32 },
    BufferData { target: u32, byte_size: isize, words: Seq<u32>, usage: u32 },
    VertexAttribPointer {
        index: u32,
        size: i32,
        component_type: u32,
        normalized: u8,
        stride: i32,
        offset: usize,
    },
    EnableVertexAttribArray { index: u32 },
    DisableVertexAttribArray { index: u32 },
    CreateShader { stage: ShaderStage },
    ShaderSource { shader: u32, source: Seq<char> },
    CompileShader { shader: u32 },
    CreateProgram,
    AttachShader { program: u32, shader: u32 },
    LinkProgram { program: u32 },
    DeleteShader { shader: u32 },
    UseProgram { program: u32 },
    UniformMatrix4fv { location: i32, count: i32, transpose: bool, value: Seq<u32> },
}

impl View for GlCommand {
    type V = CommandView;

    open spec fn view(&self) -> CommandView {
        match self {
            GlCommand::BindVertexArray { id } => CommandView::BindVertexArray { id: *id },
            GlCommand::BindBuffer { target, id } => CommandView::BindBuffer {
                target: *target,
                id: *id,
            },
            GlCommand::BufferData { target, byte_size, words, usage } => CommandView::BufferData {
                target: *target,
                byte_size: *byte_size,
                words: words@,
                usage: *usage,
            },
            GlCommand::VertexAttribPointer {
                index,
                size,
                component_type,
                normalized,
                stride,
                offset,
            } => CommandView::VertexAttribPointer {
                index: *index,
                size: *size,
                component_type: *component_type,
                normalized: *normalized,
                stride: *stride,
                offset: *offset,
            },
            GlCommand::EnableVertexAttribArray { index } => CommandView::EnableVertexAttribArray {
                index: *index,
            },
            GlCommand::DisableVertexAttribArray { index } => CommandView::DisableVertexAttribArray {
                index: *index,
            },
            GlCommand::CreateShader { stage } => CommandView::CreateShader { stage: *stage },
            GlCommand::ShaderSource { shader, source } => CommandView::ShaderSource {
                shader: *shader,
                source: source@,
            },
            GlCommand::CompileShader { shader } => CommandView::CompileShader { shader: *shader },
            GlCommand::CreateProgram => CommandView::CreateProgram,
            GlCommand::AttachShader { program, shader } => CommandView::AttachShader {
                program: *program,
                shader: *shader,
            },
            GlCommand::LinkProgram { program } => CommandView::LinkProgram { program: *program },
            GlCommand::DeleteShader { shader } => CommandView::DeleteShader { shader: *shader },
            GlCommand::UseProgram { program } => CommandView::UseProgram { program: *program },
            GlCommand::UniformMatrix4fv { location, count, transpose, value } =>
                CommandView::UniformMatrix4fv {
                location: *location,
                count: *count,
                transpose: *transpose,
                value: value@,
            },
        }
    }
}

impl CommandView {
    /// Whether the call hands back a new driver object name.
    pub open spec fn creates_object(self) -> bool {
        self is CreateShader || self is CreateProgram
    }
}

impl GlCommand {
    /// Whether the call hands back a new driver object name (a shader or a
    /// program), which the caller then reports back.
    pub fn creates_object(&self) -> (r: bool)
        ensures
            r == self@.creates_object(),
    {
        match self {
            GlCommand::CreateShader { .. } => true,
            GlCommand::CreateProgram => true,
            _ => false,
        }
    }
}

} // verus!
