//! The per-frame controller of the grid.
//!
//! A frame has two halves. `update` advances the clock and, when a tick is
//! due, asks for one transition dispatch against the configuration of the
//! current step, then counts the step. `draw` asks for one draw against the
//! configuration of the step as it then stands. A frame that follows this
//! order draws the field that the latest tick wrote.

use crate::bindings::{config_of, role_of, BindingSet, Role};
use crate::cells::MAX_FIELD_SIZE;
use crate::clock::{tick_due, SimulationClock, TICK_THRESHOLD_NANOS};
use crate::error::GridError;
use crate::mesh::QUAD_INDEX_COUNT;
use crate::stages::{
    tiles, workgroup_aligned, workgroup_count, workgroups, Dispatch, DrawCall,
};
use vstd::prelude::*;

verus! {

/// The side of the standard grid.
pub const GRID_SIZE: u32 = 512;

/// The dispatch of the tick that takes a field of side `size` from `step` to
/// the next step.
pub open spec fn dispatch_at(size: int, step: int) -> Dispatch {
    Dispatch {
        role: role_of(step),
        groups_x: workgroups(size) as u32,
        groups_y: workgroups(size) as u32,
        groups_z: 1,
    }
}

/// The draw of a field of side `size` at `step`.
pub open spec fn draw_at(size: int, step: int) -> DrawCall {
    DrawCall {
        role: role_of(step),
        index_count: QUAD_INDEX_COUNT,
        instance_count: (size * size) as u32,
    }
}

/// The controller's state: the side of the field, the clock and the number
/// of ticks committed so far.
pub struct Grid {
    size: u32,
    clock: SimulationClock,
    step: u64,
    bindings: BindingSet,
}

impl Grid {
    /// The side is a whole number of workgroups and within the limit of a
    /// field, and the clock and the bindings are well formed.
    #[verifier::type_invariant]
    pub closed spec fn wf(&self) -> bool {
        &&& workgroup_aligned(self.size as int)
        &&& self.size <= MAX_FIELD_SIZE
        &&& self.clock.wf()
        &&& self.bindings.wf()
    }

    /// The side of the field.
    pub closed spec fn spec_size(&self) -> u32 {
        self.size
    }

    /// Ticks committed so far.
    pub closed spec fn spec_step(&self) -> u64 {
        self.step
    }

    /// The clock's time debt, in nanoseconds.
    pub closed spec fn accumulator(&self) -> u64 {
        self.clock.accumulator()
    }

    /// The clock's threshold, in nanoseconds.
    pub closed spec fn threshold(&self) -> u64 {
        self.clock.threshold()
    }

    /// A well-formed grid is tiled by workgroups and within the size limit.
    pub proof fn lemma_shape(&self)
        requires
            self.wf(),
        ensures
            workgroup_aligned(self.size() as int),
            self.size() <= MAX_FIELD_SIZE,
            self.accumulator() <= self.threshold(),
    {
        self.clock.lemma_debt_bounded();
    }

    /// The dispatch of every tick of a well-formed grid tiles the field.
    pub proof fn lemma_tick_tiles(&self, step: int)
        requires
            self.wf(),
        ensures
            tiles(dispatch_at(self.size() as int, step), self.size() as int),
    {
    }

    /// A grid of side `size` before its first frame.
    ///
    /// A side that is not a whole number of workgroups is refused, and so is
    /// a side beyond the limit of a field.
    pub fn new(size: u32) -> (made: Result<Grid, GridError>)
        ensures
            match made {
                Ok(grid) => {
                    &&& workgroup_aligned(size as int)
                    &&& size <= MAX_FIELD_SIZE
                    &&& grid.wf()
                    &&& grid.size() == size
                    &&& grid.step() == 0
                    &&& grid.accumulator() == 0
                    &&& grid.threshold() == TICK_THRESHOLD_NANOS
                },
                Err(error) => {
                    &&& error == GridError::Misaligned <==> !workgroup_aligned(size as int)
                    &&& error == GridError::TooLarge <==> workgroup_aligned(size as int) && size
                        > MAX_FIELD_SIZE
                    &&& error != GridError::SeedMismatch
                },
            },
    {
        match workgroup_count(size) {
            Err(error) => Err(error),
            Ok(_) => {
                if size > MAX_FIELD_SIZE {
                    Err(GridError::TooLarge)
                } else {
                    Ok(
                        Grid {
                            size,
                            clock: SimulationClock::new(),
                            step: 0,
                            bindings: BindingSet::new(),
                        },
                    )
                }
            },
        }
    }

    #[verifier::when_used_as_spec(spec_size)]
    pub fn size(&self) -> (size: u32)
        ensures
            size == self.spec_size(),
    {
        self.size
    }

    #[verifier::when_used_as_spec(spec_step)]
    pub fn step(&self) -> (step: u64)
        ensures
            step == self.spec_step(),
    {
        self.step
    }

    /// The clock that gates the ticks.
    pub fn clock(&self) -> (clock: &SimulationClock)
        ensures
            clock.wf(),
            clock.accumulator() == self.accumulator(),
            clock.threshold() == self.threshold(),
    {
        proof {
            use_type_invariant(self);
        }
        &self.clock
    }

    /// The two binding configurations.
    pub fn bindings(&self) -> (bindings: &BindingSet)
        ensures
            bindings.wf(),
    {
        proof {
            use_type_invariant(self);
        }
        &self.bindings
    }

    /// The role of the current step.
    pub fn role(&self) -> (role: Role)
        ensures
            role == role_of(self.step() as int),
    {
        Role::of(self.step)
    }

    /// The first half of a frame that took `dt` nanoseconds.
    ///
    /// When the clock fires, the result is the dispatch of one tick, bound
    /// to the configuration of the step before the tick, and the step is
    /// counted. When it does not fire there is nothing to dispatch and the
    /// step stays.
    pub fn update(&mut self, dt: u64) -> (dispatch: Option<Dispatch>)
        requires
            old(self).step() < u64::MAX,
        ensures
            final(self).wf(),
            final(self).size() == old(self).size(),
            final(self).threshold() == old(self).threshold(),
            match dispatch {
                Some(tick) => {
                    &&& tick_due(
                        old(self).accumulator() as int,
                        dt as int,
                        old(self).threshold() as int,
                    )
                    &&& tick == dispatch_at(old(self).size() as int, old(self).step() as int)
                    &&& final(self).step() == old(self).step() + 1
                    &&& final(self).accumulator() == 0
                },
                None => {
                    &&& !tick_due(
                        old(self).accumulator() as int,
                        dt as int,
                        old(self).threshold() as int,
                    )
                    &&& final(self).step() == old(self).step()
                    &&& final(self).accumulator() == old(self).accumulator() + dt
                },
            },
    {
        proof {
            use_type_invariant(&*self);
        }
        if self.clock.advance(dt) {
            let groups = self.size / 8;
            let tick = Dispatch {
                role: Role::of(self.step),
                groups_x: groups,
                groups_y: groups,
                groups_z: 1,
            };
            self.step = self.step + 1;
            Some(tick)
        } else {
            None
        }
    }

    /// One whole frame that took `dt` nanoseconds: the update first, then
    /// the draw. Both go into one command sequence in this order, so the
    /// device finishes the transition before the draw reads what it wrote.
    ///
    /// The draw binds the configuration of the step after the update: in a
    /// frame with a tick it reads the very buffer that the tick wrote.
    pub fn frame(&mut self, dt: u64) -> (commands: (Option<Dispatch>, DrawCall))
        requires
            old(self).step() < u64::MAX,
        ensures
            final(self).wf(),
            final(self).size() == old(self).size(),
            final(self).threshold() == old(self).threshold(),
            commands.1 == draw_at(final(self).size() as int, final(self).step() as int),
            match commands.0 {
                Some(tick) => {
                    &&& tick_due(
                        old(self).accumulator() as int,
                        dt as int,
                        old(self).threshold() as int,
                    )
                    &&& tick == dispatch_at(old(self).size() as int, old(self).step() as int)
                    &&& final(self).step() == old(self).step() + 1
                    &&& final(self).accumulator() == 0
                    &&& config_of(commands.1.role).read == config_of(tick.role).write
                },
                None => {
                    &&& !tick_due(
                        old(self).accumulator() as int,
                        dt as int,
                        old(self).threshold() as int,
                    )
                    &&& final(self).step() == old(self).step()
                    &&& final(self).accumulator() == old(self).accumulator() + dt
                    &&& commands.1 == draw_at(old(self).size() as int, old(self).step() as int)
                },
            },
    {
        let dispatch = self.update(dt);
        let draw = self.draw();
        (dispatch, draw)
    }

    /// The second half of a frame: one draw of the quad, an instance a cell,
    /// bound to the configuration of the current step. Drawing changes
    /// nothing.
    pub fn draw(&self) -> (call: DrawCall)
        ensures
            call == draw_at(self.size() as int, self.step() as int),
    {
        proof {
            use_type_invariant(self);
            assert(self.size * self.size <= 32767 * 32767) by (nonlinear_arith)
                requires
                    self.size <= 32767,
            ;
        }
        DrawCall {
            role: Role::of(self.step),
            index_count: QUAD_INDEX_COUNT,
            instance_count: self.size * self.size,
        }
    }
}

} // verus!
