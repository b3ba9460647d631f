//! The grid on the host: the controller together with two fields in memory,
//! every dispatch carried out at once.
//!
//! This is the grid as the device is meant to run it, without a device. It
//! follows the same order in every frame (update, then draw) and binds by
//! the same roles, so what it shows after a number of ticks is what the
//! device has to show.

use crate::bindings::{active_config, config_of, lemma_roles_alternate, BufferId};
use crate::buffers::CellBuffers;
use crate::cells::{lemma_full_dispatch_is_a_tick, CellField, MAX_FIELD_SIZE};
use crate::clock::{tick_due, TICK_THRESHOLD_NANOS};
use crate::error::GridError;
use crate::grid::{dispatch_at, draw_at, Grid};
use crate::rule::{generation, lemma_generation_len, next_generation};
use crate::stages::{workgroup_aligned, Dispatch, DrawCall};
use vstd::prelude::*;

verus! {

/// A controller, the two buffers it governs, and the seed they started from.
pub struct HostGrid {
    grid: Grid,
    buffers: CellBuffers,
    seed: Ghost<Seq<bool>>,
}

impl HostGrid {
    /// The field that the current step reads is the seed after as many ticks
    /// as were committed; the other field is one tick behind, or still all
    /// dead before the first tick.
    pub closed spec fn wf(&self) -> bool {
        &&& self.grid.wf()
        &&& self.buffers.wf()
        &&& self.grid.size() == self.buffers.size()
        &&& self.seed@.len() == self.grid.size() * self.grid.size()
        &&& self.buffers.cells(active_config(self.grid.step() as int).read) == generation(
            self.seed@,
            self.grid.size() as int,
            self.grid.step() as nat,
        )
        &&& self.buffers.cells(active_config(self.grid.step() as int).write) == (if self.grid.step()
            == 0 {
            Seq::new(self.seed@.len(), |i: int| false)
        } else {
            generation(self.seed@, self.grid.size() as int, (self.grid.step() - 1) as nat)
        })
    }

    /// The field before the first tick.
    pub closed spec fn seed(&self) -> Seq<bool> {
        self.seed@
    }

    /// The side of the field.
    pub closed spec fn size(&self) -> u32 {
        self.grid.size()
    }

    /// Ticks committed so far.
    pub closed spec fn step(&self) -> u64 {
        self.grid.step()
    }

    /// The clock's time debt, in nanoseconds.
    pub closed spec fn accumulator(&self) -> u64 {
        self.grid.accumulator()
    }

    /// The clock's threshold, in nanoseconds.
    pub closed spec fn threshold(&self) -> u64 {
        self.grid.threshold()
    }

    /// The cells of a buffer, in row-major order.
    pub closed spec fn cells(&self, id: BufferId) -> Seq<bool> {
        self.buffers.cells(id)
    }

    /// The cells that a draw at the current step shows: those of the buffer
    /// that the step's configuration reads.
    pub open spec fn visible_cells(&self) -> Seq<bool> {
        self.cells(active_config(self.step() as int).read)
    }

    /// A grid on the host that starts from `seed`, or the refusal of a seed
    /// whose side workgroups cannot tile.
    pub fn from_seed(seed: CellField) -> (made: Result<HostGrid, GridError>)
        ensures
            match made {
                Ok(host) => {
                    &&& workgroup_aligned(seed.size() as int)
                    &&& host.wf()
                    &&& host.seed() == seed@
                    &&& host.size() == seed.size()
                    &&& host.step() == 0
                    &&& host.accumulator() == 0
                    &&& host.threshold() == TICK_THRESHOLD_NANOS
                    &&& host.cells(BufferId::A) == seed@
                    &&& host.cells(BufferId::B) == Seq::new(seed@.len(), |i: int| false)
                },
                Err(error) => !workgroup_aligned(seed.size() as int) && error
                    == GridError::Misaligned,
            },
    {
        proof {
            use_type_invariant(&seed);
            seed.lemma_shape();
        }
        match Grid::new(seed.size()) {
            Ok(grid) => {
                let ghost cells = seed@;
                let buffers = CellBuffers::new(seed);
                Ok(HostGrid { grid, buffers, seed: Ghost(cells) })
            },
            Err(error) => Err(error),
        }
    }

    /// A grid on the host of side `size` with a random seed.
    pub fn new(size: u32) -> (made: Result<HostGrid, GridError>)
        ensures
            match made {
                Ok(host) => {
                    &&& workgroup_aligned(size as int)
                    &&& size <= MAX_FIELD_SIZE
                    &&& host.wf()
                    &&& host.size() == size
                    &&& host.step() == 0
                    &&& host.accumulator() == 0
                    &&& host.threshold() == TICK_THRESHOLD_NANOS
                    &&& host.cells(BufferId::A) == host.seed()
                },
                Err(error) => {
                    &&& error == GridError::Misaligned <==> !workgroup_aligned(size as int)
                    &&& error == GridError::TooLarge <==> workgroup_aligned(size as int) && size
                        > MAX_FIELD_SIZE
                    &&& error != GridError::SeedMismatch
                },
            },
    {
        if size % 8 != 0 {
            return Err(GridError::Misaligned);
        }
        match CellField::seeded(size) {
            Ok(seed) => HostGrid::from_seed(seed),
            Err(error) => Err(error),
        }
    }

    /// The controller.
    pub fn grid(&self) -> (grid: &Grid)
        requires
            self.wf(),
        ensures
            grid.wf(),
            grid.size() == self.size(),
            grid.step() == self.step(),
            grid.accumulator() == self.accumulator(),
            grid.threshold() == self.threshold(),
    {
        &self.grid
    }

    /// The two buffers.
    pub fn buffers(&self) -> (buffers: &CellBuffers)
        requires
            self.wf(),
        ensures
            buffers.wf(),
            buffers.size() == self.size(),
            buffers.cells(BufferId::A) == self.cells(BufferId::A),
            buffers.cells(BufferId::B) == self.cells(BufferId::B),
    {
        &self.buffers
    }

    /// The field that a draw at the current step shows.
    pub fn visible(&self) -> (field: &CellField)
        requires
            self.wf(),
        ensures
            field.wf(),
            field.size() == self.size(),
            field@ == self.visible_cells(),
            field@ == generation(self.seed(), self.size() as int, self.step() as nat),
    {
        let config = self.grid.bindings().active(self.grid.step());
        self.buffers.field(config.read)
    }

    /// One frame that took `dt` nanoseconds: the update, the dispatch carried
    /// out if a tick fired, then the draw.
    ///
    /// Without a tick neither buffer changes. With a tick the buffer that
    /// was stale becomes the next generation and the roles swap, so the
    /// draw that is returned shows the field that this very frame wrote.
    pub fn frame(&mut self, dt: u64) -> (done: (Option<Dispatch>, DrawCall))
        requires
            old(self).wf(),
            old(self).step() < u64::MAX,
        ensures
            final(self).wf(),
            final(self).seed() == old(self).seed(),
            final(self).size() == old(self).size(),
            final(self).threshold() == old(self).threshold(),
            done.1 == draw_at(final(self).size() as int, final(self).step() as int),
            final(self).visible_cells() == generation(
                final(self).seed(),
                final(self).size() as int,
                final(self).step() as nat,
            ),
            match done.0 {
                Some(tick) => {
                    &&& tick_due(
                        old(self).accumulator() as int,
                        dt as int,
                        old(self).threshold() as int,
                    )
                    &&& tick == dispatch_at(old(self).size() as int, old(self).step() as int)
                    &&& final(self).step() == old(self).step() + 1
                    &&& final(self).accumulator() == 0
                    &&& final(self).cells(config_of(tick.role).read) == old(self).cells(
                        config_of(tick.role).read,
                    )
                    &&& final(self).visible_cells() == next_generation(
                        old(self).visible_cells(),
                        old(self).size() as int,
                    )
                    &&& config_of(done.1.role).read == config_of(tick.role).write
                },
                None => {
                    &&& !tick_due(
                        old(self).accumulator() as int,
                        dt as int,
                        old(self).threshold() as int,
                    )
                    &&& final(self).step() == old(self).step()
                    &&& final(self).accumulator() == old(self).accumulator() + dt
                    &&& final(self).cells(BufferId::A) == old(self).cells(BufferId::A)
                    &&& final(self).cells(BufferId::B) == old(self).cells(BufferId::B)
                    &&& final(self).visible_cells() == old(self).visible_cells()
                },
            },
    {
        let ghost before = self.grid.step() as int;
        let (dispatch, draw) = self.grid.frame(dt);
        match dispatch {
            Some(tick) => {
                proof {
                    self.grid.lemma_shape();
                    self.grid.lemma_tick_tiles(before);
                    self.buffers.lemma_shape(config_of(tick.role).read);
                    lemma_full_dispatch_is_a_tick(
                        self.buffers.cells(config_of(tick.role).read),
                        self.buffers.cells(config_of(tick.role).write),
                        self.grid.size() as int,
                        tick,
                    );
                }
                self.buffers.execute(self.grid.bindings(), tick);
                proof {
                    lemma_roles_alternate(before);
                }
            },
            None => {},
        }
        (dispatch, draw)
    }
}

/// Two grids that started from the same seed and committed the same number
/// of ticks show the same field, whatever frames led each of them there.
pub proof fn lemma_same_seed_same_field(one: HostGrid, other: HostGrid)
    requires
        one.wf(),
        other.wf(),
        one.size() == other.size(),
        one.seed() == other.seed(),
        one.step() == other.step(),
    ensures
        one.visible_cells() == other.visible_cells(),
        one.cells(BufferId::A) == other.cells(BufferId::A),
        one.cells(BufferId::B) == other.cells(BufferId::B),
{
}

/// What the grid shows after its ticks is what computing the generations
/// one after another gives: reading and writing by turns loses nothing. The
/// buffer that is not shown is one tick behind, or still all dead before
/// the first tick.
pub proof fn lemma_buffers_follow_the_seed(host: HostGrid)
    requires
        host.wf(),
    ensures
        host.visible_cells() == generation(host.seed(), host.size() as int, host.step() as nat),
        host.visible_cells().len() == host.size() * host.size(),
        host.step() == 0 ==> host.visible_cells() == host.seed() && host.cells(
            active_config(0).write,
        ) == Seq::new(host.seed().len(), |i: int| false),
        host.step() > 0 ==> host.cells(active_config(host.step() as int).write) == generation(
            host.seed(),
            host.size() as int,
            (host.step() - 1) as nat,
        ),
{
    lemma_generation_len(host.seed(), host.size() as int, host.step() as nat);
}

} // verus!
