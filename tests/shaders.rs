use gl_wrapper::command::{GlCommand, ShaderStage};
use gl_wrapper::program_build::{ProgramBuild, BUILD_STEPS};
use gl_wrapper::shader::{ShaderProgram, UniformError};

#[test]
fn create_uniform_missing_is_not_found() {
    let mut p = ShaderProgram::new(3);
    assert_eq!(p.create_uniform("x", -1), Err(UniformError::NotFound));
    assert_eq!(p.uniform_location("x"), None);
}

#[test]
fn create_uniform_then_set_matrix_is_one_upload() {
    let mut p = ShaderProgram::new(3);
    assert_eq!(p.create_uniform("transform", 2), Ok(()));
    assert_eq!(p.uniform_location("transform"), Some(2));
    let identity: [f32; 16] = [
        1.0, 0.0, 0.0, 0.0, 0.0, 1.0, 0.0, 0.0, 0.0, 0.0, 1.0, 0.0, 0.0, 0.0, 0.0, 1.0,
    ];
    let mut bits = [0u32; 16];
    for (b, f) in bits.iter_mut().zip(identity.iter()) {
        *b = f.to_bits();
    }
    let cmd = p.set_matrix4fv_uniform("transform", bits);
    assert_eq!(
        cmd,
        GlCommand::UniformMatrix4fv { location: 2, count: 1, transpose: false, value: bits }
    );
}

#[test]
fn create_uniform_overwrites_earlier_location() {
    let mut p = ShaderProgram::new(3);
    assert_eq!(p.create_uniform("a", 0), Ok(()));
    assert_eq!(p.create_uniform("b", 1), Ok(()));
    assert_eq!(p.create_uniform("a", 5), Ok(()));
    assert_eq!(p.uniform_location("a"), Some(5));
    assert_eq!(p.uniform_location("b"), Some(1));
    assert_eq!(p.create_uniform("b", -1), Err(UniformError::NotFound));
    assert_eq!(p.uniform_location("b"), Some(1));
    assert_eq!(p.uniform_location("c"), None);
}

#[test]
fn program_bind_and_handle() {
    let p = ShaderProgram::new(42);
    assert_eq!(p.program_handle(), 42);
    assert_eq!(p.bind(), GlCommand::UseProgram { program: 42 });
    assert_eq!(ShaderProgram::unbind(), GlCommand::UseProgram { program: 0 });
}

#[test]
fn program_build_issues_calls_in_order() {
    let mut build = ProgramBuild::new("void main() {}".to_string(), "out vec4 c;".to_string());
    let mut calls = Vec::new();
    let mut next_name: u32 = 10;
    while let Some(cmd) = build.next_command() {
        let returned = if cmd.creates_object() {
            next_name += 1;
            next_name
        } else {
            0
        };
        calls.push(cmd);
        build.advance(returned);
    }
    assert!(build.is_done());
    assert_eq!(calls.len(), BUILD_STEPS);
    let expected = vec![
        GlCommand::CreateShader { stage: ShaderStage::Vertex },
        GlCommand::ShaderSource { shader: 11, source: "void main() {}".to_string() },
        GlCommand::CompileShader { shader: 11 },
        GlCommand::CreateShader { stage: ShaderStage::Fragment },
        GlCommand::ShaderSource { shader: 12, source: "out vec4 c;".to_string() },
        GlCommand::CompileShader { shader: 12 },
        GlCommand::CreateProgram,
        GlCommand::AttachShader { program: 13, shader: 11 },
        GlCommand::AttachShader { program: 13, shader: 12 },
        GlCommand::LinkProgram { program: 13 },
        GlCommand::DeleteShader { shader: 11 },
        GlCommand::DeleteShader { shader: 12 },
    ];
    assert_eq!(calls, expected);
    let program = build.finish();
    assert_eq!(program.program_handle(), 13);
    assert_eq!(program.uniform_location("transform"), None);
}

#[test]
fn creates_object_only_for_create_calls() {
    assert!(GlCommand::CreateProgram.creates_object());
    assert!(GlCommand::CreateShader { stage: ShaderStage::Fragment }.creates_object());
    assert!(!GlCommand::LinkProgram { program: 1 }.creates_object());
    assert!(!GlCommand::UseProgram { program: 0 }.creates_object());
}
