use vstd::prelude::*;

use crate::command::{CommandView, ARRAY_BUFFER};
use crate::context::{bound_buffer, step, AttribLayout, ContextState};
use crate::objects::{word_bytes, BufferObject, Vao, VertexAttribute};
use crate::shader::ShaderProgram;

verus! {

/// Binding a buffer leaves its target's binding point set to the buffer's
/// name, whatever target and usage hint the buffer has and whatever was
/// bound before.
pub proof fn lemma_bind_buffer_sets_binding(s: ContextState, b: BufferObject)
    ensures
        bound_buffer(step(s, b.bind_command()), b.target) == b.id,
{
}

/// Binding a buffer and uploading words to it stores exactly those words in
/// it, and its storage carries the buffer's usage hint: reading it back
/// gives the words uploaded.
pub proof fn lemma_upload_read_back(s: ContextState, b: BufferObject, words: Seq<u32>)
    requires
        b.id != 0,
        words.len() > 0,
        word_bytes(words.len()) <= isize::MAX,
    ensures
        ({
            let after = step(step(s, b.bind_command()), b.data_command(words));
            &&& after.storage.contains_key(b.id)
            &&& after.storage[b.id] == words
            &&& after.usages.contains_key(b.id)
            &&& after.usages[b.id] == b.usage
        }),
{
}

/// Once a uniform is registered at a location, the matrix upload for it is
/// one call to that location, with the matrix as given and untransposed.
pub proof fn lemma_registered_uniform_upload(
    before: ShaderProgram,
    after: ShaderProgram,
    name: Seq<char>,
    location: i32,
    matrix: Seq<u32>,
)
    requires
        location >= 0,
        after.uniforms() == before.uniforms().insert(name, location),
    ensures
        after.uniforms().contains_key(name),
        after.matrix_command(name, matrix) == (CommandView::UniformMatrix4fv {
            location,
            count: 1,
            transpose: false,
            value: matrix,
        }),
{
}

/// Describing an attribute slot records its layout over the array buffer
/// bound at that moment; enabling the slot makes it read, and disabling it
/// again reverts that.
pub proof fn lemma_attribute_layout_and_enable(
    s: ContextState,
    index: u32,
    size: i32,
    component_type: u32,
    normalized: u8,
    stride: i32,
    offset: usize,
)
    ensures
        ({
            let described = step(
                s,
                VertexAttribute::layout_command(
                    index,
                    size,
                    component_type,
                    normalized,
                    stride,
                    offset,
                ),
            );
            let a = VertexAttribute { index };
            let enabled = step(described, a.enable_command());
            let disabled = step(enabled, a.disable_command());
            &&& described.layouts.contains_key(index)
            &&& described.layouts[index] == (AttribLayout {
                size,
                component_type,
                normalized,
                stride,
                offset,
                buffer: bound_buffer(s, ARRAY_BUFFER),
            })
            &&& enabled.enabled.contains(index)
            &&& !disabled.enabled.contains(index)
            &&& disabled.enabled == described.enabled.remove(index)
            &&& disabled.layouts == described.layouts
        }),
{
}

/// Unbinding any handle, whatever was bound before, sets its binding point
/// back to none (0): the vertex array, the buffer at the buffer's target,
/// and the active program.
pub proof fn lemma_unbind_clears_binding(s: ContextState, vao: Vao, buffer: BufferObject)
    ensures
        step(s, vao.unbind_command()).vertex_array == 0,
        bound_buffer(step(s, buffer.unbind_command()), buffer.target) == 0,
        step(s, ShaderProgram::unbind_command()).program == 0,
{
}

} // verus!
