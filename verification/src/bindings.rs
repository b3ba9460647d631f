//! Which buffer is read and which is written, by the parity of the step.
//!
//! Two cell buffers, A and B, take turns. A binding configuration names one
//! as the field to read and the other as the field to write; there are two
//! of them, mirror images, and the step's parity picks one. Nothing picks a
//! buffer by name: the parity is the only selector, so a configuration never
//! reads and writes the same buffer.

use vstd::prelude::*;

verus! {

/// One of the two cell buffers.
#[derive(Clone, Copy, Debug, PartialEq, Eq, Structural)]
pub enum BufferId {
    /// The buffer that holds the seed.
    A,
    /// The buffer that starts out all dead.
    B,
}

/// A buffer that the grid owns on the device.
#[derive(Clone, Copy, Debug, PartialEq, Eq, Structural)]
pub enum GpuBuffer {
    /// The corners of the quad.
    Vertex,
    /// The quad's triangles, as indices into the corners.
    Index,
    /// The grid's dimensions, shared by both configurations.
    Uniform,
    /// One of the two cell buffers.
    Cells(BufferId),
}

/// The parity of a step: the selector of the active configuration.
#[derive(Clone, Copy, Debug, PartialEq, Eq, Structural)]
pub enum Role {
    Even,
    Odd,
}

/// What a slot of the layout holds and how shaders may use it.
#[derive(Clone, Copy, Debug, PartialEq, Eq, Structural)]
pub enum SlotKind {
    Uniform,
    ReadOnlyStorage,
    ReadWriteStorage,
}

/// One slot of the layout that both configurations share.
#[derive(Clone, Copy, Debug, PartialEq, Eq, Structural)]
pub struct SlotLayout {
    pub binding: u32,
    pub kind: SlotKind,
    /// Whether the vertex stage sees the slot.
    pub vertex: bool,
    /// Whether the compute stage sees the slot.
    pub compute: bool,
}

/// A buffer bound to a slot.
#[derive(Clone, Copy, Debug, PartialEq, Eq, Structural)]
pub struct SlotBinding {
    pub binding: u32,
    pub buffer: GpuBuffer,
}

/// One binding configuration: the field that the transition and the draw
/// read, and the field that the transition writes.
#[derive(Clone, Copy, Debug, PartialEq, Eq, Structural)]
pub struct BindingConfig {
    pub read: BufferId,
    pub write: BufferId,
}

/// Slot of the grid's dimensions.
pub const UNIFORM_BINDING: u32 = 0;

/// Slot of the field that is read.
pub const READ_BINDING: u32 = 1;

/// Slot of the field that is written.
pub const WRITE_BINDING: u32 = 2;

/// The other buffer.
pub open spec fn other_buffer(id: BufferId) -> BufferId {
    match id {
        BufferId::A => BufferId::B,
        BufferId::B => BufferId::A,
    }
}

/// The role of a step: its parity.
pub open spec fn role_of(step: int) -> Role {
    if step % 2 == 0 {
        Role::Even
    } else {
        Role::Odd
    }
}

/// The configuration of a role: even steps read A and write B, odd steps
/// read B and write A.
pub open spec fn config_of(role: Role) -> BindingConfig {
    match role {
        Role::Even => BindingConfig { read: BufferId::A, write: BufferId::B },
        Role::Odd => BindingConfig { read: BufferId::B, write: BufferId::A },
    }
}

/// The configuration that is active at a step.
pub open spec fn active_config(step: int) -> BindingConfig {
    config_of(role_of(step))
}

impl BufferId {
    /// The other buffer.
    pub fn other(self) -> (id: BufferId)
        ensures
            id == other_buffer(self),
    {
        match self {
            BufferId::A => BufferId::B,
            BufferId::B => BufferId::A,
        }
    }
}

impl Role {
    /// The role of `step`.
    pub fn of(step: u64) -> (role: Role)
        ensures
            role == role_of(step as int),
    {
        if step % 2 == 0 {
            Role::Even
        } else {
            Role::Odd
        }
    }

    /// Position of the role's configuration among the two: 0 for even, 1 for
    /// odd.
    pub fn index(self) -> (index: usize)
        ensures
            index == (match self {
                Role::Even => 0usize,
                Role::Odd => 1usize,
            }),
    {
        match self {
            Role::Even => 0,
            Role::Odd => 1,
        }
    }
}

impl BindingConfig {
    /// The three bindings of this configuration, in slot order: the
    /// dimensions, the field to read, the field to write.
    pub fn entries(&self) -> (entries: [SlotBinding; 3])
        ensures
            entries[0] == (SlotBinding { binding: UNIFORM_BINDING, buffer: GpuBuffer::Uniform }),
            entries[1] == (SlotBinding {
                binding: READ_BINDING,
                buffer: GpuBuffer::Cells(self.read),
            }),
            entries[2] == (SlotBinding {
                binding: WRITE_BINDING,
                buffer: GpuBuffer::Cells(self.write),
            }),
    {
        [
            SlotBinding { binding: UNIFORM_BINDING, buffer: GpuBuffer::Uniform },
            SlotBinding { binding: READ_BINDING, buffer: GpuBuffer::Cells(self.read) },
            SlotBinding { binding: WRITE_BINDING, buffer: GpuBuffer::Cells(self.write) },
        ]
    }
}

/// The two binding configurations. They are fixed when the set is made.
pub struct BindingSet {
    configs: [BindingConfig; 2],
}

impl BindingSet {
    /// The first configuration is that of the even steps, the second that
    /// of the odd steps.
    #[verifier::type_invariant]
    pub closed spec fn wf(&self) -> bool {
        &&& self.configs[0] == config_of(Role::Even)
        &&& self.configs[1] == config_of(Role::Odd)
    }

    /// The two configurations, one the mirror image of the other.
    pub fn new() -> (set: BindingSet)
        ensures
            set.wf(),
    {
        BindingSet {
            configs: [
                BindingConfig { read: BufferId::A, write: BufferId::B },
                BindingConfig { read: BufferId::B, write: BufferId::A },
            ],
        }
    }

    /// The configuration of a role.
    pub fn config(&self, role: Role) -> (config: BindingConfig)
        ensures
            config == config_of(role),
    {
        proof {
            use_type_invariant(self);
        }
        self.configs[role.index()]
    }

    /// The configuration that is active at `step`.
    pub fn active(&self, step: u64) -> (config: BindingConfig)
        ensures
            config == active_config(step as int),
    {
        self.config(Role::of(step))
    }

    /// The layout that both configurations share. The dimensions and the
    /// field to read are visible to the vertex and the compute stage; the
    /// field to write is visible to the compute stage alone, and is the only
    /// slot that a shader may write.
    pub fn layout() -> (slots: [SlotLayout; 3])
        ensures
            slots[0] == (SlotLayout {
                binding: UNIFORM_BINDING,
                kind: SlotKind::Uniform,
                vertex: true,
                compute: true,
            }),
            slots[1] == (SlotLayout {
                binding: READ_BINDING,
                kind: SlotKind::ReadOnlyStorage,
                vertex: true,
                compute: true,
            }),
            slots[2] == (SlotLayout {
                binding: WRITE_BINDING,
                kind: SlotKind::ReadWriteStorage,
                vertex: false,
                compute: true,
            }),
    {
        [
            SlotLayout {
                binding: UNIFORM_BINDING,
                kind: SlotKind::Uniform,
                vertex: true,
                compute: true,
            },
            SlotLayout {
                binding: READ_BINDING,
                kind: SlotKind::ReadOnlyStorage,
                vertex: true,
                compute: true,
            },
            SlotLayout {
                binding: WRITE_BINDING,
                kind: SlotKind::ReadWriteStorage,
                vertex: false,
                compute: true,
            },
        ]
    }
}

/// The order in which the grid's buffers are released when it is torn down:
/// the mesh first, then the dimensions, then the two fields.
pub fn release_order() -> (order: [GpuBuffer; 5])
    ensures
        order[0] == GpuBuffer::Vertex,
        order[1] == GpuBuffer::Index,
        order[2] == GpuBuffer::Uniform,
        order[3] == GpuBuffer::Cells(BufferId::A),
        order[4] == GpuBuffer::Cells(BufferId::B),
{
    [
        GpuBuffer::Vertex,
        GpuBuffer::Index,
        GpuBuffer::Uniform,
        GpuBuffer::Cells(BufferId::A),
        GpuBuffer::Cells(BufferId::B),
    ]
}

/// No configuration reads the buffer that it writes.
pub proof fn lemma_no_aliasing(step: int)
    ensures
        active_config(step).read != active_config(step).write,
        active_config(step).write == other_buffer(active_config(step).read),
{
}

/// The roles alternate: each step swaps the buffer that is read with the
/// buffer that is written.
pub proof fn lemma_roles_alternate(step: int)
    ensures
        role_of(step + 1) != role_of(step),
        active_config(step + 1).read == active_config(step).write,
        active_config(step + 1).write == active_config(step).read,
{
}

/// The first step reads the seeded buffer, and every later step reads the
/// buffer that the step before it wrote.
pub proof fn lemma_read_follows_write(step: int)
    requires
        0 <= step,
    ensures
        step == 0 ==> active_config(step).read == BufferId::A,
        step > 0 ==> active_config(step).read == active_config(step - 1).write,
{
}

} // verus!
