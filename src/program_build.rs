use vstd::prelude::*;

use crate::command::{CommandView, GlCommand, ShaderStage};
use crate::shader::ShaderProgram;

verus! {

/// How many driver calls building a program takes.
pub const BUILD_STEPS: usize = 12;

/// The driver call made at `step` of building a program from two sources,
/// given the names the driver handed out for the vertex shader, the fragment
/// shader and the program. Each stage is created, given its source and
/// compiled; then the program is created, both stages attached, the program
/// linked, and both stage objects deleted.
pub open spec fn build_command(
    step: int,
    vertex_source: Seq<char>,
    fragment_source: Seq<char>,
    vertex: u32,
    fragment: u32,
    program: u32,
) -> CommandView {
    if step == 0 {
        CommandView::CreateShader { stage: ShaderStage::Vertex }
    } else if step == 1 {
        CommandView::ShaderSource { shader: vertex, source: vertex_source }
    } else if step == 2 {
        CommandView::CompileShader { shader: vertex }
    } else if step == 3 {
        CommandView::CreateShader { stage: ShaderStage::Fragment }
    } else if step == 4 {
        CommandView::ShaderSource { shader: fragment, source: fragment_source }
    } else if step == 5 {
        CommandView::CompileShader { shader: fragment }
    } else if step == 6 {
        CommandView::CreateProgram
    } else if step == 7 {
        CommandView::AttachShader { program, shader: vertex }
    } else if step == 8 {
        CommandView::AttachShader { program, shader: fragment }
    } else if step == 9 {
        CommandView::LinkProgram { program }
    } else if step == 10 {
        CommandView::DeleteShader { shader: vertex }
    } else {
        CommandView::DeleteShader { shader: fragment }
    }
}

/// The build of one shader program from its two sources, one driver call at
/// a time. The caller makes each call that `next_command` gives and reports
/// what the driver returned to `advance`; the names that the creating calls
/// return are kept and used by the calls after them.
pub struct ProgramBuild {
    vertex_source: String,
    fragment_source: String,
    vertex_shader: u32,
    fragment_shader: u32,
    program: u32,
    step: usize,
}

impl ProgramBuild {
    pub closed spec fn step(self) -> int {
        self.step as int
    }

    pub closed spec fn vertex_source(self) -> Seq<char> {
        self.vertex_source@
    }

    pub closed spec fn fragment_source(self) -> Seq<char> {
        self.fragment_source@
    }

    pub closed spec fn vertex_shader(self) -> u32 {
        self.vertex_shader
    }

    pub closed spec fn fragment_shader(self) -> u32 {
        self.fragment_shader
    }

    pub closed spec fn program(self) -> u32 {
        self.program
    }

    pub closed spec fn well_formed(self) -> bool {
        self.step <= BUILD_STEPS
    }

    /// The call due at the current step.
    pub open spec fn current_command(self) -> CommandView {
        build_command(
            self.step(),
            self.vertex_source(),
            self.fragment_source(),
            self.vertex_shader(),
            self.fragment_shader(),
            self.program(),
        )
    }

    /// Starts a build from the two stages' source text.
    pub fn new(vertex_source: String, fragment_source: String) -> (r: ProgramBuild)
        ensures
            r.well_formed(),
            r.step() == 0,
            r.vertex_source() == vertex_source@,
            r.fragment_source() == fragment_source@,
    {
        ProgramBuild {
            vertex_source,
            fragment_source,
            vertex_shader: 0,
            fragment_shader: 0,
            program: 0,
            step: 0,
        }
    }

    /// Whether every call has been made.
    pub fn is_done(&self) -> (r: bool)
        requires
            self.well_formed(),
        ensures
            r == (self.step() == BUILD_STEPS),
    {
        self.step == BUILD_STEPS
    }

    /// The call to make next, or `None` once the build is done.
    pub fn next_command(&self) -> (r: Option<GlCommand>)
        requires
            self.well_formed(),
        ensures
            self.step() < BUILD_STEPS ==> r is Some && r->Some_0@ == self.current_command(),
            self.step() == BUILD_STEPS ==> r is None,
    {
        let cmd = match self.step {
            0 => GlCommand::CreateShader { stage: ShaderStage::Vertex },
            1 => GlCommand::ShaderSource {
                shader: self.vertex_shader,
                source: self.vertex_source.clone(),
            },
            2 => GlCommand::CompileShader { shader: self.vertex_shader },
            3 => GlCommand::CreateShader { stage: ShaderStage::Fragment },
            4 => GlCommand::ShaderSource {
                shader: self.fragment_shader,
                source: self.fragment_source.clone(),
            },
            5 => GlCommand::CompileShader { shader: self.fragment_shader },
            6 => GlCommand::CreateProgram,
            7 => GlCommand::AttachShader { program: self.program, shader: self.vertex_shader },
            8 => GlCommand::AttachShader { program: self.program, shader: self.fragment_shader },
            9 => GlCommand::LinkProgram { program: self.program },
            10 => GlCommand::DeleteShader { shader: self.vertex_shader },
            11 => GlCommand::DeleteShader { shader: self.fragment_shader },
            _ => {
                return None;
            },
        };
        Some(cmd)
    }

    /// Records that the current call was made and that the driver returned
    /// `returned`. The creating calls keep it as the new object's name; the
    /// others ignore it.
    pub fn advance(&mut self, returned: u32)
        requires
            old(self).well_formed(),
            old(self).step() < BUILD_STEPS,
        ensures
            final(self).well_formed(),
            final(self).step() == old(self).step() + 1,
            final(self).vertex_source() == old(self).vertex_source(),
            final(self).fragment_source() == old(self).fragment_source(),
            final(self).vertex_shader() == (if old(self).step() == 0 {
                returned
            } else {
                old(self).vertex_shader()
            }),
            final(self).fragment_shader() == (if old(self).step() == 3 {
                returned
            } else {
                old(self).fragment_shader()
            }),
            final(self).program() == (if old(self).step() == 6 {
                returned
            } else {
                old(self).program()
            }),
    {
        if self.step == 0 {
            self.vertex_shader = returned;
        } else if self.step == 3 {
            self.fragment_shader = returned;
        } else if self.step == 6 {
            self.program = returned;
        }
        self.step = self.step + 1;
    }

    /// The linked program, with no uniforms registered yet.
    pub fn finish(self) -> (r: ShaderProgram)
        requires
            self.well_formed(),
            self.step() == BUILD_STEPS,
        ensures
            r.well_formed(),
            r.handle() == self.program(),
            r.uniforms() == Map::<Seq<char>, i32>::empty(),
    {
        ShaderProgram::new(self.program)
    }
}

} // verus!
