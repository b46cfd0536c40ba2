use vstd::prelude::*;

use crate::command::{CommandView, GlCommand};

verus! {

/// The byte size of a buffer that holds `n` 32-bit words.
pub open spec fn word_bytes(n: nat) -> int {
    (4 * n) as int
}

/// The word that an `i32` is stored as: its two's complement bit pattern.
pub open spec fn i32_word(v: i32) -> u32 {
    v as u32
}

/// A fresh vector holding the same words as `data`.
pub(crate) fn copy_words(data: &[u32]) -> (r: Vec<u32>)
    ensures
        r@ == data@,
{
    let mut words: Vec<u32> = Vec::with_capacity(data.len());
    let mut i: usize = 0;
    while i < data.len()
        invariant
            i <= data@.len(),
            words@ == data@.subrange(0, i as int),
        decreases data@.len() - i,
    {
        words.push(data[i]);
        i = i + 1;
    }
    assert(data@.subrange(0, data@.len() as int) == data@);
    words
}

/// A vertex array object: one driver name, bound and unbound as a whole.
pub struct Vao {
    pub id: u32,
}

impl Vao {
    /// Wraps the name that the driver handed out for a new vertex array.
    pub fn new(id: u32) -> (r: Vao)
        ensures
            r.id == id,
    {
        Vao { id }
    }

    pub open spec fn bind_command(self) -> CommandView {
        CommandView::BindVertexArray { id: self.id }
    }

    pub open spec fn unbind_command(self) -> CommandView {
        CommandView::BindVertexArray { id: 0 }
    }

    /// Makes this the active vertex array.
    pub fn bind(&self) -> (r: GlCommand)
        ensures
            r@ == self.bind_command(),
    {
        GlCommand::BindVertexArray { id: self.id }
    }

    /// Makes no vertex array active (name 0).
    pub fn unbind(&self) -> (r: GlCommand)
        ensures
            r@ == self.unbind_command(),
    {
        GlCommand::BindVertexArray { id: 0 }
    }
}

/// A buffer object: one driver name, the binding point (target) it is used
/// at, and the usage hint its storage is created with.
pub struct BufferObject {
    pub id: u32,
    pub target: u32,
    pub usage: u32,
}

impl BufferObject {
    /// Wraps the name that the driver handed out for a new buffer, with its
    /// target and usage hint.
    pub fn new(id: u32, target: u32, usage: u32) -> (r: BufferObject)
        ensures
            r.id == id,
            r.target == target,
            r.usage == usage,
    {
        BufferObject { id, target, usage }
    }

    pub open spec fn bind_command(self) -> CommandView {
        CommandView::BindBuffer { target: self.target, id: self.id }
    }

    pub open spec fn unbind_command(self) -> CommandView {
        CommandView::BindBuffer { target: self.target, id: 0 }
    }

    /// The upload of `words` into the buffer bound at this buffer's target,
    /// sized to exactly their bytes, with this buffer's usage hint.
    pub open spec fn data_command(self, words: Seq<u32>) -> CommandView {
        CommandView::BufferData {
            target: self.target,
            byte_size: word_bytes(words.len()) as isize,
            words,
            usage: self.usage,
        }
    }

    /// Binds this buffer at its target.
    pub fn bind(&self) -> (r: GlCommand)
        ensures
            r@ == self.bind_command(),
    {
        GlCommand::BindBuffer { target: self.target, id: self.id }
    }

    /// Binds no buffer (name 0) at this buffer's target.
    pub fn unbind(&self) -> (r: GlCommand)
        ensures
            r@ == self.unbind_command(),
    {
        GlCommand::BindBuffer { target: self.target, id: 0 }
    }

    /// Uploads 32-bit floats, given as their bit patterns, into the buffer
    /// bound at this buffer's target.
    pub fn store_f32_data(&self, data: &[u32]) -> (r: GlCommand)
        requires
            data@.len() > 0,
            word_bytes(data@.len()) <= isize::MAX,
        ensures
            r@ == self.data_command(data@),
    {
        let words = copy_words(data);
        let size = (data.len() * 4) as isize;
        GlCommand::BufferData { target: self.target, byte_size: size, words, usage: self.usage }
    }

    /// Uploads 32-bit integers into the buffer bound at this buffer's target.
    pub fn store_i32_data(&self, data: &[i32]) -> (r: GlCommand)
        requires
            data@.len() > 0,
            word_bytes(data@.len()) <= isize::MAX,
        ensures
            r@ == self.data_command(data@.map_values(|v: i32| i32_word(v))),
    {
        let mut words: Vec<u32> = Vec::with_capacity(data.len());
        let mut i: usize = 0;
        while i < data.len()
            invariant
                i <= data@.len(),
                words@ == data@.subrange(0, i as int).map_values(|v: i32| i32_word(v)),
            decreases data@.len() - i,
        {
            words.push(data[i] as u32);
            i = i + 1;
        }
        assert(data@.subrange(0, data@.len() as int) == data@);
        let size = (data.len() * 4) as isize;
        GlCommand::BufferData { target: self.target, byte_size: size, words, usage: self.usage }
    }
}

/// One vertex attribute slot, configured once against the array buffer bound
/// when it is described.
pub struct VertexAttribute {
    pub index: u32,
}

impl VertexAttribute {
    pub open spec fn layout_command(
        index: u32,
        size: i32,
        component_type: u32,
        normalized: u8,
        stride: i32,
        offset: usize,
    ) -> CommandView {
        CommandView::VertexAttribPointer { index, size, component_type, normalized, stride, offset }
    }

    pub open spec fn enable_command(self) -> CommandView {
        CommandView::EnableVertexAttribArray { index: self.index }
    }

    pub open spec fn disable_command(self) -> CommandView {
        CommandView::DisableVertexAttribArray { index: self.index }
    }

    /// Describes slot `index`: `size` components of `component_type`, the
    /// given normalisation, `stride` bytes between vertices and the first
    /// component `offset` bytes into the buffer. Returns the slot and the
    /// call that configures it.
    pub fn new(
        index: u32,
        size: i32,
        component_type: u32,
        normalized: u8,
        stride: i32,
        offset: usize,
    ) -> (r: (VertexAttribute, GlCommand))
        ensures
            r.0.index == index,
            r.1@ == Self::layout_command(index, size, component_type, normalized, stride, offset),
    {
        let cmd = GlCommand::VertexAttribPointer {
            index,
            size,
            component_type,
            normalized,
            stride,
            offset,
        };
        (VertexAttribute { index }, cmd)
    }

    /// Lets the pipeline read this slot.
    pub fn enable(&self) -> (r: GlCommand)
        ensures
            r@ == self.enable_command(),
    {
        GlCommand::EnableVertexAttribArray { index: self.index }
    }

    /// Stops the pipeline reading this slot.
    pub fn disable(&self) -> (r: GlCommand)
        ensures
            r@ == self.disable_command(),
    {
        GlCommand::DisableVertexAttribArray { index: self.index }
    }
}

} // verus!
