use gl_wrapper::command::{GlCommand, ARRAY_BUFFER};
use gl_wrapper::context::{AttribLayout, GlContext};
use gl_wrapper::objects::{BufferObject, Vao, VertexAttribute};
use gl_wrapper::shader::ShaderProgram;

const ELEMENT_ARRAY_BUFFER: u32 = 0x8893;
const STATIC_DRAW: u32 = 0x88E4;
const DYNAMIC_DRAW: u32 = 0x88E8;
const FLOAT: u32 = 0x1406;

#[test]
fn bind_buffer_sets_binding_for_each_target_and_usage() {
    for &target in &[ARRAY_BUFFER, ELEMENT_ARRAY_BUFFER] {
        for &usage in &[STATIC_DRAW, DYNAMIC_DRAW] {
            let mut ctx = GlContext::new();
            let b = BufferObject::new(5, target, usage);
            let cmd = b.bind();
            assert_eq!(cmd, GlCommand::BindBuffer { target, id: 5 });
            ctx.apply(&cmd);
            assert_eq!(ctx.bound_buffer(target), 5);
        }
    }
}

#[test]
fn bind_buffer_leaves_other_target_alone() {
    let mut ctx = GlContext::new();
    ctx.apply(&BufferObject::new(3, ELEMENT_ARRAY_BUFFER, STATIC_DRAW).bind());
    ctx.apply(&BufferObject::new(4, ARRAY_BUFFER, STATIC_DRAW).bind());
    assert_eq!(ctx.bound_buffer(ELEMENT_ARRAY_BUFFER), 3);
    assert_eq!(ctx.bound_buffer(ARRAY_BUFFER), 4);
}

#[test]
fn upload_i32_reads_back_exactly() {
    let mut ctx = GlContext::new();
    let b = BufferObject::new(7, ELEMENT_ARRAY_BUFFER, STATIC_DRAW);
    ctx.apply(&b.bind());
    let cmd = b.store_i32_data(&[0, 1, -1, 3]);
    assert_eq!(
        cmd,
        GlCommand::BufferData {
            target: ELEMENT_ARRAY_BUFFER,
            byte_size: 16,
            words: vec![0, 1, 0xFFFF_FFFF, 3],
            usage: STATIC_DRAW,
        }
    );
    ctx.apply(&cmd);
    assert_eq!(ctx.buffer_contents(7), Some(vec![0, 1, 0xFFFF_FFFF, 3]));
    assert_eq!(ctx.buffer_usage(7), Some(STATIC_DRAW));
}

#[test]
fn upload_f32_reads_back_exactly() {
    let mut ctx = GlContext::new();
    let b = BufferObject::new(2, ARRAY_BUFFER, DYNAMIC_DRAW);
    ctx.apply(&b.bind());
    let floats: [f32; 3] = [0.5, -1.0, 2.25];
    let bits: Vec<u32> = floats.iter().map(|f| f.to_bits()).collect();
    let cmd = b.store_f32_data(&bits);
    ctx.apply(&cmd);
    let back = ctx.buffer_contents(2).unwrap();
    let floats_back: Vec<f32> = back.iter().map(|w| f32::from_bits(*w)).collect();
    assert_eq!(floats_back, vec![0.5, -1.0, 2.25]);
    assert_eq!(ctx.buffer_usage(2), Some(DYNAMIC_DRAW));
}

#[test]
fn upload_replaces_earlier_contents() {
    let mut ctx = GlContext::new();
    let b = BufferObject::new(2, ARRAY_BUFFER, STATIC_DRAW);
    ctx.apply(&b.bind());
    ctx.apply(&b.store_i32_data(&[1, 2, 3]));
    ctx.apply(&b.store_i32_data(&[9]));
    assert_eq!(ctx.buffer_contents(2), Some(vec![9]));
}

#[test]
fn upload_with_nothing_bound_stores_nothing() {
    let mut ctx = GlContext::new();
    let b = BufferObject::new(2, ARRAY_BUFFER, STATIC_DRAW);
    ctx.apply(&b.store_i32_data(&[1, 2]));
    assert_eq!(ctx.buffer_contents(2), None);
    assert_eq!(ctx.buffer_usage(2), None);
}

#[test]
fn upload_after_unbind_stores_nothing() {
    let mut ctx = GlContext::new();
    let b = BufferObject::new(2, ARRAY_BUFFER, STATIC_DRAW);
    ctx.apply(&b.bind());
    ctx.apply(&b.unbind());
    ctx.apply(&b.store_i32_data(&[1, 2]));
    assert_eq!(ctx.buffer_contents(2), None);
}

#[test]
fn attribute_layout_enable_disable() {
    let mut ctx = GlContext::new();
    let vbo = BufferObject::new(4, ARRAY_BUFFER, STATIC_DRAW);
    ctx.apply(&vbo.bind());
    let (attr, cmd) = VertexAttribute::new(0, 3, FLOAT, 0, 12, 0);
    assert_eq!(attr.index, 0);
    assert_eq!(
        cmd,
        GlCommand::VertexAttribPointer {
            index: 0,
            size: 3,
            component_type: FLOAT,
            normalized: 0,
            stride: 12,
            offset: 0,
        }
    );
    ctx.apply(&cmd);
    assert_eq!(
        ctx.attrib_layout(0),
        Some(AttribLayout {
            size: 3,
            component_type: FLOAT,
            normalized: 0,
            stride: 12,
            offset: 0,
            buffer: 4,
        })
    );
    assert!(!ctx.is_attrib_enabled(0));
    ctx.apply(&attr.enable());
    assert!(ctx.is_attrib_enabled(0));
    ctx.apply(&attr.disable());
    assert!(!ctx.is_attrib_enabled(0));
    assert_eq!(ctx.attrib_layout(1), None);
}

#[test]
fn attribute_described_without_buffer_reads_none() {
    let mut ctx = GlContext::new();
    let (_, cmd) = VertexAttribute::new(2, 4, FLOAT, 1, 16, 8);
    ctx.apply(&cmd);
    assert_eq!(ctx.attrib_layout(2).unwrap().buffer, 0);
    assert_eq!(ctx.attrib_layout(2).unwrap().offset, 8);
}

#[test]
fn vao_bind_then_unbind() {
    let mut ctx = GlContext::new();
    let vao = Vao::new(9);
    assert_eq!(vao.bind(), GlCommand::BindVertexArray { id: 9 });
    ctx.apply(&vao.bind());
    assert_eq!(ctx.bound_vertex_array(), 9);
    ctx.apply(&vao.unbind());
    assert_eq!(ctx.bound_vertex_array(), 0);
}

#[test]
fn construct_then_unbind_returns_bindings_to_none() {
    let mut ctx = GlContext::new();
    let vao = Vao::new(1);
    ctx.apply(&vao.bind());
    let other = Vao::new(2);
    ctx.apply(&other.unbind());
    assert_eq!(ctx.bound_vertex_array(), 0);

    ctx.apply(&BufferObject::new(6, ARRAY_BUFFER, STATIC_DRAW).bind());
    let b = BufferObject::new(8, ARRAY_BUFFER, STATIC_DRAW);
    assert_eq!(b.unbind(), GlCommand::BindBuffer { target: ARRAY_BUFFER, id: 0 });
    ctx.apply(&b.unbind());
    assert_eq!(ctx.bound_buffer(ARRAY_BUFFER), 0);

    let p = ShaderProgram::new(11);
    ctx.apply(&p.bind());
    assert_eq!(ctx.current_program(), 11);
    ctx.apply(&ShaderProgram::unbind());
    assert_eq!(ctx.current_program(), 0);
}

#[test]
fn fresh_context_has_nothing_bound() {
    let ctx = GlContext::new();
    assert_eq!(ctx.bound_vertex_array(), 0);
    assert_eq!(ctx.bound_buffer(ARRAY_BUFFER), 0);
    assert_eq!(ctx.current_program(), 0);
    assert!(!ctx.is_attrib_enabled(0));
}
