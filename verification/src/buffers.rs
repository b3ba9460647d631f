//! The two cell buffers and the transition between them.
//!
//! At any moment one buffer holds the current field and the other is stale.
//! A transition reads the one and rewrites the other in full; it never
//! writes the buffer that it reads.

use crate::bindings::{config_of, BindingSet, BufferId, Role};
use crate::cells::{written_cells, CellField, MAX_FIELD_SIZE};
use crate::error::GridError;
use crate::rule::next_generation;
use crate::stages::Dispatch;
use vstd::prelude::*;

verus! {

/// Buffer A and buffer B: two fields of one size.
pub struct CellBuffers {
    a: CellField,
    b: CellField,
}

impl CellBuffers {
    /// Both fields are well formed and have the same side.
    #[verifier::type_invariant]
    pub closed spec fn wf(&self) -> bool {
        &&& self.a.wf()
        &&& self.b.wf()
        &&& self.a.size() == self.b.size()
    }

    /// The side of both fields.
    pub closed spec fn spec_size(&self) -> u32 {
        self.a.size()
    }

    /// The cells of a buffer, in row-major order.
    pub closed spec fn cells(&self, id: BufferId) -> Seq<bool> {
        match id {
            BufferId::A => self.a@,
            BufferId::B => self.b@,
        }
    }

    /// Both buffers of a well-formed pair have `size * size` cells.
    pub proof fn lemma_shape(&self, id: BufferId)
        requires
            self.wf(),
        ensures
            self.cells(id).len() == self.size() * self.size(),
            self.size() <= MAX_FIELD_SIZE,
    {
        self.a.lemma_shape();
        self.b.lemma_shape();
    }

    /// Buffers that start from `seed`: A holds the seed, B is all dead.
    pub fn new(seed: CellField) -> (buffers: CellBuffers)
        ensures
            buffers.wf(),
            buffers.size() == seed.size(),
            buffers.cells(BufferId::A) == seed@,
            buffers.cells(BufferId::B) == Seq::new(seed@.len(), |i: int| false),
    {
        proof {
            use_type_invariant(&seed);
        }
        let dead = seed.cleared();
        CellBuffers { a: seed, b: dead }
    }

    /// Buffers of side `size` with a random seed in A.
    pub fn seeded(size: u32) -> (made: Result<CellBuffers, GridError>)
        ensures
            match made {
                Ok(buffers) => {
                    &&& size <= MAX_FIELD_SIZE
                    &&& buffers.wf()
                    &&& buffers.size() == size
                    &&& buffers.cells(BufferId::B) == Seq::new(
                        (size * size) as nat,
                        |i: int| false,
                    )
                },
                Err(error) => size > MAX_FIELD_SIZE && error == GridError::TooLarge,
            },
    {
        match CellField::seeded(size) {
            Ok(seed) => {
                proof {
                    seed.lemma_shape();
                }
                Ok(CellBuffers::new(seed))
            },
            Err(error) => Err(error),
        }
    }

    #[verifier::when_used_as_spec(spec_size)]
    pub fn size(&self) -> (size: u32)
        ensures
            size == self.spec_size(),
    {
        self.a.size()
    }

    /// One of the two fields.
    pub fn field(&self, id: BufferId) -> (field: &CellField)
        ensures
            field.wf(),
            field.size() == self.size(),
            field@ == self.cells(id),
    {
        proof {
            use_type_invariant(self);
        }
        match id {
            BufferId::A => &self.a,
            BufferId::B => &self.b,
        }
    }

    /// Carries out a dispatch on the host. Every cell that an invocation of
    /// the dispatch reaches gets its next state, computed from the field
    /// that the dispatch's configuration reads, in the field that it writes;
    /// a cell that no invocation reaches keeps what the written field held.
    /// The field that is read is left as it is.
    pub fn execute(&mut self, bindings: &BindingSet, dispatch: Dispatch)
        ensures
            final(self).wf(),
            final(self).size() == old(self).size(),
            final(self).cells(config_of(dispatch.role).write) == written_cells(
                old(self).cells(config_of(dispatch.role).read),
                old(self).cells(config_of(dispatch.role).write),
                old(self).size() as int,
                dispatch,
            ),
            final(self).cells(config_of(dispatch.role).read) == old(self).cells(
                config_of(dispatch.role).read,
            ),
    {
        proof {
            use_type_invariant(&*self);
        }
        let config = bindings.config(dispatch.role);
        match config.read {
            BufferId::A => {
                let written = self.a.dispatched(&self.b, dispatch);
                self.b = written;
            },
            BufferId::B => {
                let written = self.b.dispatched(&self.a, dispatch);
                self.a = written;
            },
        }
    }

    /// Runs one transition under the configuration of `role`: the field to
    /// write becomes the generation after the field to read. The field to
    /// read is left as it is.
    pub fn transition(&mut self, bindings: &BindingSet, role: Role)
        ensures
            final(self).wf(),
            final(self).size() == old(self).size(),
            final(self).cells(config_of(role).write) == next_generation(
                old(self).cells(config_of(role).read),
                old(self).size() as int,
            ),
            final(self).cells(config_of(role).read) == old(self).cells(config_of(role).read),
    {
        proof {
            use_type_invariant(&*self);
        }
        let config = bindings.config(role);
        match config.read {
            BufferId::A => {
                let next = self.a.next();
                self.b = next;
            },
            BufferId::B => {
                let next = self.b.next();
                self.a = next;
            },
        }
    }
}

} // verus!
