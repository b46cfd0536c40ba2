use vstd::prelude::*;

use crate::command::{CommandView, GlCommand, ShaderStage};

verus! {

/// Why a uniform could not be registered.
#[derive(Clone, Copy, Debug, PartialEq, Eq, Structural)]
pub enum UniformError {
    /// The linked program has no active uniform of that name: the driver
    /// reported a negative location.
    NotFound,
}

/// Whether no two entries of `entries` share a name.
pub open spec fn names_unique(entries: Seq<(String, i32)>) -> bool {
    forall|i: int, j: int|
        0 <= i < j < entries.len() ==> (#[trigger] entries[i]).0@ != (#[trigger] entries[j]).0@
}

/// The name-to-location map that a list of distinct entries stands for.
pub open spec fn entries_map(entries: Seq<(String, i32)>) -> Map<Seq<char>, i32>
    decreases entries.len(),
{
    if entries.len() == 0 {
        Map::empty()
    } else {
        let last = entries.last();
        entries_map(entries.drop_last()).insert(last.0@, last.1)
    }
}

/// A linked shader program and the locations of the uniforms registered on it.
pub struct ShaderProgram {
    program_handle: u32,
    uniform_ids: Vec<(String, i32)>,
}

proof fn lemma_entries_map_domain(entries: Seq<(String, i32)>, name: Seq<char>)
    ensures
        entries_map(entries).contains_key(name) <==> exists|i: int|
            0 <= i < entries.len() && (#[trigger] entries[i]).0@ == name,
    decreases entries.len(),
{
    if entries.len() > 0 {
        let prefix = entries.drop_last();
        lemma_entries_map_domain(prefix, name);
        if entries_map(prefix).contains_key(name) {
            let i = choose|i: int| 0 <= i < prefix.len() && (#[trigger] prefix[i]).0@ == name;
            assert(entries[i] == prefix[i]);
        }
        if exists|i: int| 0 <= i < entries.len() && (#[trigger] entries[i]).0@ == name {
            let i = choose|i: int| 0 <= i < entries.len() && (#[trigger] entries[i]).0@ == name;
            if i < entries.len() - 1 {
                assert(prefix[i] == entries[i]);
            }
        }
    }
}

proof fn lemma_entries_map_at(entries: Seq<(String, i32)>, i: int)
    requires
        names_unique(entries),
        0 <= i < entries.len(),
    ensures
        entries_map(entries).contains_key(entries[i].0@),
        entries_map(entries)[entries[i].0@] == entries[i].1,
    decreases entries.len(),
{
    let prefix = entries.drop_last();
    if i < entries.len() - 1 {
        assert(prefix[i] == entries[i]);
        assert(names_unique(prefix)) by {
            assert forall|a: int, b: int| 0 <= a < b < prefix.len() implies (#[trigger] prefix[a]).0@
                != (#[trigger] prefix[b]).0@ by {
                assert(prefix[a] == entries[a] && prefix[b] == entries[b]);
            }
        }
        lemma_entries_map_at(prefix, i);
        assert(entries[i].0@ != entries[entries.len() - 1].0@);
    }
}

proof fn lemma_entries_map_update(entries: Seq<(String, i32)>, i: int, entry: (String, i32))
    requires
        names_unique(entries),
        0 <= i < entries.len(),
        entries[i].0@ == entry.0@,
    ensures
        names_unique(entries.update(i, entry)),
        entries_map(entries.update(i, entry)) == entries_map(entries).insert(entry.0@, entry.1),
    decreases entries.len(),
{
    let updated = entries.update(i, entry);
    assert forall|a: int, b: int| 0 <= a < b < updated.len() implies (#[trigger] updated[a]).0@
        != (#[trigger] updated[b]).0@ by {
        assert(entries[a].0@ != entries[b].0@);
    }
    let prefix = entries.drop_last();
    assert(names_unique(prefix)) by {
        assert forall|a: int, b: int| 0 <= a < b < prefix.len() implies (#[trigger] prefix[a]).0@
            != (#[trigger] prefix[b]).0@ by {
            assert(prefix[a] == entries[a] && prefix[b] == entries[b]);
        }
    }
    if i == entries.len() - 1 {
        assert(updated.drop_last() == prefix);
    } else {
        lemma_entries_map_update(prefix, i, entry);
        assert(updated.drop_last() == prefix.update(i, entry));
        assert(entries.last().0@ != entry.0@);
    }
    assert(entries_map(updated) == entries_map(entries).insert(entry.0@, entry.1));
}

impl ShaderProgram {
    /// The registered uniforms: name to location.
    pub closed spec fn uniforms(self) -> Map<Seq<char>, i32> {
        entries_map(self.uniform_ids@)
    }

    /// The driver name of the program.
    pub closed spec fn handle(self) -> u32 {
        self.program_handle
    }

    pub closed spec fn well_formed(self) -> bool {
        names_unique(self.uniform_ids@)
    }

    pub open spec fn bind_command(self) -> CommandView {
        CommandView::UseProgram { program: self.handle() }
    }

    pub open spec fn unbind_command() -> CommandView {
        CommandView::UseProgram { program: 0 }
    }

    /// The single upload of a 4x4 column-major matrix (given as the bit
    /// patterns of its 16 floats) to the uniform registered as `name`.
    pub open spec fn matrix_command(self, name: Seq<char>, matrix: Seq<u32>) -> CommandView {
        CommandView::UniformMatrix4fv {
            location: self.uniforms()[name],
            count: 1,
            transpose: false,
            value: matrix,
        }
    }

    /// Wraps a linked program, with no uniforms registered.
    pub fn new(program_handle: u32) -> (r: ShaderProgram)
        ensures
            r.well_formed(),
            r.handle() == program_handle,
            r.uniforms() == Map::<Seq<char>, i32>::empty(),
    {
        ShaderProgram { program_handle, uniform_ids: Vec::new() }
    }

    /// The driver name of the program.
    pub fn program_handle(&self) -> (r: u32)
        ensures
            r == self.handle(),
    {
        self.program_handle
    }

    /// Makes this the active program.
    pub fn bind(&self) -> (r: GlCommand)
        ensures
            r@ == self.bind_command(),
    {
        GlCommand::UseProgram { program: self.program_handle }
    }

    /// Makes no program active (name 0), whichever program was.
    pub fn unbind() -> (r: GlCommand)
        ensures
            r@ == Self::unbind_command(),
    {
        GlCommand::UseProgram { program: 0 }
    }

    /// The location registered for `name`, if any.
    pub fn uniform_location(&self, name: &str) -> (r: Option<i32>)
        requires
            self.well_formed(),
        ensures
            r == (if self.uniforms().contains_key(name@) {
                Some(self.uniforms()[name@])
            } else {
                None::<i32>
            }),
    {
        let key = name.to_owned();
        match self.position_of(&key) {
            Some(i) => {
                proof {
                    lemma_entries_map_at(self.uniform_ids@, i as int);
                }
                Some(self.uniform_ids[i].1)
            },
            None => {
                proof {
                    lemma_entries_map_domain(self.uniform_ids@, name@);
                }
                None
            },
        }
    }

    fn position_of(&self, key: &String) -> (r: Option<usize>)
        ensures
            match r {
                Some(i) => i < self.uniform_ids@.len() && self.uniform_ids@[i as int].0@ == key@,
                None => forall|i: int|
                    0 <= i < self.uniform_ids@.len() ==> (#[trigger] self.uniform_ids@[i]).0@
                        != key@,
            },
    {
        let mut i: usize = 0;
        while i < self.uniform_ids.len()
            invariant
                i <= self.uniform_ids@.len(),
                forall|j: int| 0 <= j < i ==> (#[trigger] self.uniform_ids@[j]).0@ != key@,
            decreases self.uniform_ids@.len() - i,
        {
            if self.uniform_ids[i].0 == *key {
                return Some(i);
            }
            i = i + 1;
        }
        None
    }

    /// Registers `name` at the location that the driver reported for it in
    /// this program. A negative location means that the program has no such
    /// uniform: nothing is registered and `NotFound` comes back. Otherwise the
    /// entry for `name` is set, replacing any earlier one.
    pub fn create_uniform(&mut self, name: &str, location: i32) -> (r: Result<(), UniformError>)
        requires
            old(self).well_formed(),
        ensures
            final(self).well_formed(),
            final(self).handle() == old(self).handle(),
            location < 0 ==> r == Err::<(), UniformError>(UniformError::NotFound)
                && final(self).uniforms() == old(self).uniforms(),
            location >= 0 ==> r == Ok::<(), UniformError>(())
                && final(self).uniforms() == old(self).uniforms().insert(name@, location),
    {
        if location < 0 {
            return Err(UniformError::NotFound);
        }
        let key = name.to_owned();
        let ghost entries = self.uniform_ids@;
        match self.position_of(&key) {
            Some(i) => {
                proof {
                    lemma_entries_map_update(entries, i as int, (key, location));
                }
                self.uniform_ids.set(i, (key, location));
            },
            None => {
                self.uniform_ids.push((key, location));
                proof {
                    let pushed = self.uniform_ids@;
                    assert(pushed.drop_last() == entries);
                    assert forall|a: int, b: int|
                        0 <= a < b < pushed.len() implies (#[trigger] pushed[a]).0@
                        != (#[trigger] pushed[b]).0@ by {
                        if b < pushed.len() - 1 {
                            assert(pushed[a] == entries[a] && pushed[b] == entries[b]);
                        } else {
                            assert(pushed[a] == entries[a]);
                        }
                    }
                }
            },
        }
        Ok(())
    }

    /// Uploads a 4x4 matrix, given as the bit patterns of its 16 floats in
    /// column-major order, to the uniform registered as `name`.
    pub fn set_matrix4fv_uniform(&self, name: &str, matrix: [u32; 16]) -> (r: GlCommand)
        requires
            self.well_formed(),
            self.uniforms().contains_key(name@),
        ensures
            r@ == self.matrix_command(name@, matrix@),
    {
        let location = match self.uniform_location(name) {
            Some(l) => l,
            None => 0,
        };
        GlCommand::UniformMatrix4fv { location, count: 1, transpose: false, value: matrix }
    }
}

} // verus!
