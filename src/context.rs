use vstd::prelude::*;

use std::collections::{HashMap, HashSet};

use crate::command::{CommandView, GlCommand, ARRAY_BUFFER};
use crate::objects::{copy_words, word_bytes};

verus! {

broadcast use vstd::std_specs::hash::group_hash_axioms;

/// How one vertex attribute slot reads the buffer it was described against.
#[derive(Clone, Copy, Debug, PartialEq, Eq, Structural)]
pub struct AttribLayout {
    pub size: i32,
    pub component_type: u32,
    pub normalized: u8,
    pub stride: i32,
    pub offset: usize,
    /// The array buffer bound when the slot was described (0: none).
    pub buffer: u32,
}

/// The driver state that the library's calls act on.
pub ghost struct ContextState {
    /// The active vertex array (0: none).
    pub vertex_array: u32,
    /// The buffer bound at each target; a target missing here has none.
    pub buffers: Map<u32, u32>,
    /// The active program (0: none).
    pub program: u32,
    /// The words stored in each buffer that has storage.
    pub storage: Map<u32, Seq<u32>>,
    /// The usage hint each buffer's storage was created with.
    pub usages: Map<u32, u32>,
    /// The layout of each described attribute slot.
    pub layouts: Map<u32, AttribLayout>,
    /// The attribute slots the pipeline reads.
    pub enabled: Set<u32>,
}

/// The buffer bound at `target` (0: none).
pub open spec fn bound_buffer(s: ContextState, target: u32) -> u32 {
    if s.buffers.contains_key(target) {
        s.buffers[target]
    } else {
        0
    }
}

/// The state after the driver carries out `c` in state `s`. An upload with
/// no buffer bound at its target, or whose size is not the byte length of
/// its words, changes nothing. Calls that create, compile, link or delete
/// shader objects, and uniform uploads, leave the tracked state alone.
pub open spec fn step(s: ContextState, c: CommandView) -> ContextState {
    match c {
        CommandView::BindVertexArray { id } => ContextState { vertex_array: id, ..s },
        CommandView::BindBuffer { target, id } => ContextState {
            buffers: s.buffers.insert(target, id),
            ..s
        },
        CommandView::BufferData { target, byte_size, words, usage } => {
            let id = bound_buffer(s, target);
            if id != 0 && byte_size as int == word_bytes(words.len()) {
                ContextState {
                    storage: s.storage.insert(id, words),
                    usages: s.usages.insert(id, usage),
                    ..s
                }
            } else {
                s
            }
        },
        CommandView::VertexAttribPointer {
            index,
            size,
            component_type,
            normalized,
            stride,
            offset,
        } => ContextState {
            layouts: s.layouts.insert(
                index,
                AttribLayout {
                    size,
                    component_type,
                    normalized,
                    stride,
                    offset,
                    buffer: bound_buffer(s, ARRAY_BUFFER),
                },
            ),
            ..s
        },
        CommandView::EnableVertexAttribArray { index } => ContextState {
            enabled: s.enabled.insert(index),
            ..s
        },
        CommandView::DisableVertexAttribArray { index } => ContextState {
            enabled: s.enabled.remove(index),
            ..s
        },
        CommandView::UseProgram { program } => ContextState { program, ..s },
        _ => s,
    }
}

/// A record of the driver's binding and storage state, kept up to date by
/// applying each call that is made to the driver. It answers what the driver
/// would report: which object is bound where, what a buffer holds, how each
/// attribute slot is laid out and whether it is enabled.
pub struct GlContext {
    vertex_array: u32,
    buffers: HashMap<u32, u32>,
    program: u32,
    storage: HashMap<u32, Vec<u32>>,
    usages: HashMap<u32, u32>,
    layouts: HashMap<u32, AttribLayout>,
    enabled: HashSet<u32>,
}

impl View for GlContext {
    type V = ContextState;

    closed spec fn view(&self) -> ContextState {
        ContextState {
            vertex_array: self.vertex_array,
            buffers: self.buffers@,
            program: self.program,
            storage: self.storage@.map_values(|v: Vec<u32>| v@),
            usages: self.usages@,
            layouts: self.layouts@,
            enabled: self.enabled@,
        }
    }
}

/// The state of a fresh context: nothing bound, stored, described or enabled.
pub open spec fn initial_state() -> ContextState {
    ContextState {
        vertex_array: 0,
        buffers: Map::empty(),
        program: 0,
        storage: Map::empty(),
        usages: Map::empty(),
        layouts: Map::empty(),
        enabled: Set::empty(),
    }
}

impl GlContext {
    /// A context in which nothing has happened yet.
    pub fn new() -> (r: GlContext)
        ensures
            r@ == initial_state(),
    {
        let r = GlContext {
            vertex_array: 0,
            buffers: HashMap::new(),
            program: 0,
            storage: HashMap::new(),
            usages: HashMap::new(),
            layouts: HashMap::new(),
            enabled: HashSet::new(),
        };
        assert(r@.storage == Map::<u32, Seq<u32>>::empty());
        r
    }

    /// Records that the driver carried out `c`.
    pub fn apply(&mut self, c: &GlCommand)
        ensures
            final(self)@ == step(old(self)@, c@),
    {
        match c {
            GlCommand::BindVertexArray { id } => {
                self.vertex_array = *id;
            },
            GlCommand::BindBuffer { target, id } => {
                self.buffers.insert(*target, *id);
            },
            GlCommand::BufferData { target, byte_size, words, usage } => {
                let id = self.bound_buffer(*target);
                if id != 0 && *byte_size >= 0 && words.len() <= (isize::MAX as usize) / 4
                    && *byte_size as usize == words.len() * 4 {
                    let copy = copy_words(words.as_slice());
                    let ghost old_storage = self.storage@;
                    self.storage.insert(id, copy);
                    self.usages.insert(id, *usage);
                    assert(self.storage@.map_values(|v: Vec<u32>| v@)
                        =~= old_storage.map_values(|v: Vec<u32>| v@).insert(id, words@));
                }
            },
            GlCommand::VertexAttribPointer {
                index,
                size,
                component_type,
                normalized,
                stride,
                offset,
            } => {
                let buffer = self.bound_buffer(ARRAY_BUFFER);
                let layout = AttribLayout {
                    size: *size,
                    component_type: *component_type,
                    normalized: *normalized,
                    stride: *stride,
                    offset: *offset,
                    buffer,
                };
                self.layouts.insert(*index, layout);
            },
            GlCommand::EnableVertexAttribArray { index } => {
                self.enabled.insert(*index);
            },
            GlCommand::DisableVertexAttribArray { index } => {
                self.enabled.remove(index);
            },
            GlCommand::UseProgram { program } => {
                self.program = *program;
            },
            _ => {},
        }
    }

    /// The active vertex array (0: none).
    pub fn bound_vertex_array(&self) -> (r: u32)
        ensures
            r == self@.vertex_array,
    {
        self.vertex_array
    }

    /// The buffer bound at `target` (0: none).
    pub fn bound_buffer(&self, target: u32) -> (r: u32)
        ensures
            r == bound_buffer(self@, target),
    {
        match self.buffers.get(&target) {
            Some(id) => *id,
            None => 0,
        }
    }

    /// The active program (0: none).
    pub fn current_program(&self) -> (r: u32)
        ensures
            r == self@.program,
    {
        self.program
    }

    /// What buffer `id` holds, read back word by word, if it has storage.
    pub fn buffer_contents(&self, id: u32) -> (r: Option<Vec<u32>>)
        ensures
            self@.storage.contains_key(id) ==> r is Some && r->Some_0@ == self@.storage[id],
            !self@.storage.contains_key(id) ==> r is None,
    {
        match self.storage.get(&id) {
            Some(words) => Some(copy_words(words.as_slice())),
            None => None,
        }
    }

    /// The usage hint that buffer `id`'s storage was created with, if any.
    pub fn buffer_usage(&self, id: u32) -> (r: Option<u32>)
        ensures
            self@.usages.contains_key(id) ==> r == Some(self@.usages[id]),
            !self@.usages.contains_key(id) ==> r is None,
    {
        match self.usages.get(&id) {
            Some(u) => Some(*u),
            None => None,
        }
    }

    /// How attribute slot `index` is laid out, if it was described.
    pub fn attrib_layout(&self, index: u32) -> (r: Option<AttribLayout>)
        ensures
            self@.layouts.contains_key(index) ==> r == Some(self@.layouts[index]),
            !self@.layouts.contains_key(index) ==> r is None,
    {
        match self.layouts.get(&index) {
            Some(l) => Some(*l),
            None => None,
        }
    }

    /// Whether the pipeline reads attribute slot `index`.
    pub fn is_attrib_enabled(&self, index: u32) -> (r: bool)
        ensures
            r == self@.enabled.contains(index),
    {
        self.enabled.contains(&index)
    }
}

} // verus!
