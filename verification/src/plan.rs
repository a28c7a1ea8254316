//! What to create and record on each device for one dispatch.

use crate::store::VBufferHandle;
use crate::task::Binding;
use crate::vbuffer::Block;
use crate::workgroup::Workgroup;
use vstd::prelude::*;

verus! {

/// What a device-local buffer may be used for.
#[derive(Clone, Copy, Debug, PartialEq, Eq, Structural)]
pub struct BufferUse {
    /// A kernel may bind it as storage.
    pub storage: bool,
    /// It may be copied from on the device.
    pub copy_src: bool,
    /// It may be copied into on the device.
    pub copy_dst: bool,
    /// The host may map it for reading.
    pub map_read: bool,
}

impl BufferUse {
    /// The use of an input of a kernel.
    pub open spec fn spec_input() -> BufferUse {
        BufferUse { storage: true, copy_src: false, copy_dst: false, map_read: false }
    }

    /// The use of an output of a kernel, on a device that can or cannot map
    /// its own output memory.
    pub open spec fn spec_output(mappable: bool) -> BufferUse {
        BufferUse { storage: true, copy_src: true, copy_dst: false, map_read: mappable }
    }

    /// The use of a dedicated readback buffer.
    pub open spec fn spec_staging() -> BufferUse {
        BufferUse { storage: false, copy_src: false, copy_dst: true, map_read: true }
    }

    #[verifier::when_used_as_spec(spec_input)]
    pub fn input() -> (usage: BufferUse)
        ensures
            usage == BufferUse::input(),
    {
        BufferUse { storage: true, copy_src: false, copy_dst: false, map_read: false }
    }

    #[verifier::when_used_as_spec(spec_output)]
    pub fn output(mappable: bool) -> (usage: BufferUse)
        ensures
            usage == BufferUse::output(mappable),
    {
        BufferUse { storage: true, copy_src: true, copy_dst: false, map_read: mappable }
    }

    #[verifier::when_used_as_spec(spec_staging)]
    pub fn staging() -> (usage: BufferUse)
        ensures
            usage == BufferUse::staging(),
    {
        BufferUse { storage: false, copy_src: false, copy_dst: true, map_read: true }
    }
}

/// What a planned device-local buffer is to a specification.
pub struct PlannedBuffer {
    pub binding: u32,
    pub read_only: bool,
    pub usage: BufferUse,
    pub contents: Seq<u8>,
}

/// A device-local buffer to create for one binding of the kernel.
#[derive(Debug, PartialEq, Eq)]
pub struct BufferPlan {
    /// The slot number that the kernel knows the buffer by.
    pub binding: u32,
    /// Whether the kernel may only read it.
    pub read_only: bool,
    pub usage: BufferUse,
    /// The bytes that the buffer holds when the kernel starts.
    pub contents: Vec<u8>,
}

impl View for BufferPlan {
    type V = PlannedBuffer;

    open spec fn view(&self) -> PlannedBuffer {
        PlannedBuffer {
            binding: self.binding,
            read_only: self.read_only,
            usage: self.usage,
            contents: self.contents@,
        }
    }
}

/// Where the host reads one output of a device from.
#[derive(Clone, Copy, Debug, PartialEq, Eq, Structural)]
pub enum Readback {
    /// From the output buffer itself, which is buffer `buffer` of the plan.
    Output { buffer: usize },
    /// From a dedicated host-visible buffer of `size` bytes.
    Staging { size: u64 },
}

/// One step of the command sequence of a device.
#[derive(Clone, Copy, Debug, PartialEq, Eq, Structural)]
pub enum Command {
    /// Bind pipeline and bindings and dispatch the grid.
    Dispatch { x: u32, y: u32, z: u32 },
    /// Copy `size` bytes from buffer `source` of the plan into readback
    /// `readback` of the plan.
    CopyBack { source: usize, readback: usize, size: u64 },
}

/// What the plan of a device is to a specification.
pub struct PlannedDevice {
    pub buffers: Seq<PlannedBuffer>,
    pub readbacks: Seq<Readback>,
    pub commands: Seq<Command>,
}

/// Everything to create and record on one device for one dispatch.
#[derive(Debug, PartialEq, Eq)]
pub struct DevicePlan {
    /// The buffers of the binding group, in layout order.
    pub buffers: Vec<BufferPlan>,
    /// The readback of each output, in declaration order.
    pub readbacks: Vec<Readback>,
    /// The command sequence, in program order.
    pub commands: Vec<Command>,
}

impl View for DevicePlan {
    type V = PlannedDevice;

    open spec fn view(&self) -> PlannedDevice {
        PlannedDevice {
            buffers: self.buffers@.map_values(|buffer: BufferPlan| buffer@),
            readbacks: self.readbacks@,
            commands: self.commands@,
        }
    }
}

/// Whether every binding of `bindings` names a buffer of `buffers`.
pub open spec fn resolved(buffers: Map<VBufferHandle, Block>, bindings: Seq<Binding>) -> bool {
    forall|i: int| 0 <= i < bindings.len() ==> buffers.dom().contains((#[trigger] bindings[i]).1)
}

/// The buffer planned for `binding` on device `device` of `devices`.
pub open spec fn planned_buffer(
    buffers: Map<VBufferHandle, Block>,
    binding: Binding,
    read_only: bool,
    usage: BufferUse,
    device: int,
    devices: int,
) -> PlannedBuffer {
    PlannedBuffer {
        binding: binding.0,
        read_only,
        usage,
        contents: binding.2.share(buffers[binding.1].bytes, device, devices),
    }
}

/// The binding group of a device: the inputs, read-only, then the outputs,
/// read-write, each in declaration order.
pub open spec fn planned_buffers(
    buffers: Map<VBufferHandle, Block>,
    inputs: Seq<Binding>,
    outputs: Seq<Binding>,
    mappable: bool,
    device: int,
    devices: int,
) -> Seq<PlannedBuffer> {
    Seq::new(
        inputs.len() + outputs.len(),
        |j: int|
            if j < inputs.len() {
                planned_buffer(buffers, inputs[j], true, BufferUse::input(), device, devices)
            } else {
                planned_buffer(buffers, outputs[j - inputs.len()], false, BufferUse::output(mappable), device, devices)
            },
    )
}

/// The readback of output `k`: the output buffer itself on a device that can
/// map it, a dedicated buffer as large as the bound buffer elsewhere.
pub open spec fn planned_readback(
    buffers: Map<VBufferHandle, Block>,
    inputs: Seq<Binding>,
    outputs: Seq<Binding>,
    mappable: bool,
    k: int,
) -> Readback {
    if mappable {
        Readback::Output { buffer: (inputs.len() + k) as usize }
    } else {
        Readback::Staging { size: buffers[outputs[k].1].bytes.len() as u64 }
    }
}

/// The copy that brings output `k` into its dedicated readback buffer.
pub open spec fn planned_copy(
    buffers: Map<VBufferHandle, Block>,
    inputs: Seq<Binding>,
    outputs: Seq<Binding>,
    k: int,
) -> Command {
    Command::CopyBack {
        source: (inputs.len() + k) as usize,
        readback: k as usize,
        size: buffers[outputs[k].1].bytes.len() as u64,
    }
}

/// The command sequence of a device: the dispatch, then one copy per output
/// where the device cannot map its own output memory.
pub open spec fn planned_commands(
    buffers: Map<VBufferHandle, Block>,
    inputs: Seq<Binding>,
    outputs: Seq<Binding>,
    mappable: bool,
    size: (u32, u32, u32),
) -> Seq<Command> {
    seq![Command::Dispatch { x: size.0, y: size.1, z: size.2 }] + Seq::new(
        if mappable { 0 } else { outputs.len() },
        |k: int| planned_copy(buffers, inputs, outputs, k),
    )
}

/// The plan of device `device` of `devices`.
pub open spec fn planned_device(
    buffers: Map<VBufferHandle, Block>,
    inputs: Seq<Binding>,
    outputs: Seq<Binding>,
    size: (u32, u32, u32),
    mappable: bool,
    device: int,
    devices: int,
) -> PlannedDevice {
    PlannedDevice {
        buffers: planned_buffers(buffers, inputs, outputs, mappable, device, devices),
        readbacks: Seq::new(outputs.len(), |k: int| planned_readback(buffers, inputs, outputs, mappable, k)),
        commands: planned_commands(buffers, inputs, outputs, mappable, size),
    }
}

/// Whether every binding of `bindings` names a buffer of `workgroup`.
pub(crate) fn resolves(workgroup: &Workgroup, bindings: &Vec<Binding>) -> (all: bool)
    ensures
        all == resolved(workgroup.buffers(), bindings@),
{
    let mut i: usize = 0;
    while i < bindings.len()
        invariant
            i <= bindings@.len(),
            forall|j: int| 0 <= j < i ==> workgroup.buffers().dom().contains((#[trigger] bindings@[j]).1),
        decreases bindings@.len() - i,
    {
        if workgroup.vbuffer(bindings[i].1).is_none() {
            return false;
        }
        i += 1;
    }
    true
}

impl DevicePlan {
    /// Plans device `device` of the `devices` of `workgroup`.
    pub(crate) fn for_device(
        workgroup: &Workgroup,
        inputs: &Vec<Binding>,
        outputs: &Vec<Binding>,
        size: (u32, u32, u32),
        mappable: bool,
        device: usize,
        devices: usize,
    ) -> (plan: DevicePlan)
        requires
            resolved(workgroup.buffers(), inputs@),
            resolved(workgroup.buffers(), outputs@),
        ensures
            plan@ == planned_device(workgroup.buffers(), inputs@, outputs@, size, mappable, device as int, devices as int),
    {
        let ghost held = workgroup.buffers();
        let mut buffers: Vec<BufferPlan> = Vec::new();
        let mut readbacks: Vec<Readback> = Vec::new();
        let mut commands: Vec<Command> = Vec::new();
        commands.push(Command::Dispatch { x: size.0, y: size.1, z: size.2 });

        let mut i: usize = 0;
        while i < inputs.len()
            invariant
                held == workgroup.buffers(),
                resolved(held, inputs@),
                i <= inputs@.len(),
                buffers@.len() == i,
                forall|j: int| 0 <= j < i ==> (#[trigger] buffers@[j])@ == planned_buffer(
                    held, inputs@[j], true, BufferUse::input(), device as int, devices as int),
            decreases inputs@.len() - i,
        {
            let (id, handle, mode) = inputs[i];
            let vbuffer = workgroup.vbuffer(handle).unwrap();
            buffers.push(
                BufferPlan {
                    binding: id,
                    read_only: true,
                    usage: BufferUse::input(),
                    contents: mode.materialize(vbuffer.bytes(), device, devices),
                },
            );
            i += 1;
        }

        let mut k: usize = 0;
        while k < outputs.len()
            invariant
                held == workgroup.buffers(),
                resolved(held, outputs@),
                k <= outputs@.len(),
                buffers@.len() == inputs@.len() + k,
                forall|j: int| 0 <= j < inputs@.len() ==> (#[trigger] buffers@[j])@ == planned_buffer(
                    held, inputs@[j], true, BufferUse::input(), device as int, devices as int),
                forall|j: int| inputs@.len() <= j < inputs@.len() + k ==> (#[trigger] buffers@[j])@ == planned_buffer(
                    held, outputs@[j - inputs@.len()], false, BufferUse::output(mappable), device as int, devices as int),
                readbacks@.len() == k,
                forall|j: int| 0 <= j < k ==> #[trigger] readbacks@[j] == planned_readback(held, inputs@, outputs@, mappable, j),
                commands@.len() == 1 + (if mappable { 0 } else { k as int }),
                commands@[0] == (Command::Dispatch { x: size.0, y: size.1, z: size.2 }),
                forall|j: int| 1 <= j < commands@.len() ==> #[trigger] commands@[j] == planned_copy(held, inputs@, outputs@, j - 1),
            decreases outputs@.len() - k,
        {
            let (id, handle, mode) = outputs[k];
            let vbuffer = workgroup.vbuffer(handle).unwrap();
            let slot = buffers.len();
            buffers.push(
                BufferPlan {
                    binding: id,
                    read_only: false,
                    usage: BufferUse::output(mappable),
                    contents: mode.materialize(vbuffer.bytes(), device, devices),
                },
            );
            if mappable {
                readbacks.push(Readback::Output { buffer: slot });
            } else {
                let size = vbuffer.byte_len() as u64;
                readbacks.push(Readback::Staging { size });
                commands.push(Command::CopyBack { source: slot, readback: k, size });
            }
            k += 1;
        }

        let plan = DevicePlan { buffers, readbacks, commands };
        proof {
            let expected = planned_device(held, inputs@, outputs@, size, mappable, device as int, devices as int);
            assert(plan@.buffers =~= expected.buffers);
            assert(plan@.readbacks =~= expected.readbacks);
            assert(plan@.commands =~= expected.commands);
        }
        plan
    }
}

} // verus!
