//! Preparing one kernel dispatch for every device of a session, and
//! gathering what the devices hand back.

use crate::features::can_map_primary_buffers;
use crate::features::maps_primary_buffers;
use crate::plan::planned_device;
use crate::plan::resolved;
use crate::plan::resolves;
use crate::plan::DevicePlan;
use crate::store::VBufferHandle;
use crate::vbuffer::Block;
use crate::workgroup::delivered;
use crate::workgroup::Workgroup;
use vstd::prelude::*;
use vstd::slice::slice_to_vec;
use wgpu::ShaderModuleDescriptor;

verus! {

/// `wgpu::ShaderModuleDescriptor`: the source of a kernel and its label. The
/// library carries it along as inert data and never looks inside.
#[verifier::external_type_specification]
#[verifier::external_body]
pub struct ExShaderModuleDescriptor<'a>(ShaderModuleDescriptor<'a>);

/// How one logical buffer is laid out across the devices of a session.
#[derive(Clone, Copy, Debug, PartialEq, Eq, Structural)]
pub enum PartitionMode {
    /// The buffer is not split: every device receives all of it and computes
    /// over the whole range.
    Unmanaged,
}

impl PartitionMode {
    /// The part of `bytes` that device `device` of `devices` receives.
    pub open spec fn share(self, bytes: Seq<u8>, device: int, devices: int) -> Seq<u8> {
        match self {
            PartitionMode::Unmanaged => bytes,
        }
    }

    /// Copies out the part of `bytes` that device `device` of `devices`
    /// receives.
    pub fn materialize(self, bytes: &Vec<u8>, device: usize, devices: usize) -> (part: Vec<u8>)
        ensures
            part@ == self.share(bytes@, device as int, devices as int),
    {
        match self {
            PartitionMode::Unmanaged => slice_to_vec(bytes.as_slice()),
        }
    }
}

/// A binding of a kernel: the slot number that the kernel knows it by, the
/// buffer bound to it, and how that buffer is laid out across devices.
pub type Binding = (u32, VBufferHandle, PartitionMode);

/// A dispatch under construction.
pub struct TaskBuilder<'b> {
    pub workgroup: &'b mut Workgroup,
    pub shader: ShaderModuleDescriptor<'b>,
    pub kernel: Option<String>,
    pub size: Option<(u32, u32, u32)>,
    pub input_buffers: Vec<Binding>,
    pub output_buffers: Vec<Binding>,
}

impl<'b> TaskBuilder<'b> {
    /// Starts a dispatch of `shader` on `workgroup`, which stays borrowed
    /// until the dispatch has run or is dropped.
    pub fn new(workgroup: &'b mut Workgroup, shader: ShaderModuleDescriptor<'b>) -> (builder: TaskBuilder<'b>)
        ensures
            *builder.workgroup == *old(workgroup),
            *final(builder.workgroup) == *final(workgroup),
            builder.shader == shader,
            builder.kernel is None,
            builder.size is None,
            builder.input_buffers@.len() == 0,
            builder.output_buffers@.len() == 0,
    {
        TaskBuilder {
            workgroup,
            shader,
            kernel: None,
            size: None,
            input_buffers: Vec::new(),
            output_buffers: Vec::new(),
        }
    }

    /// Names the entry point of the kernel.
    pub fn with_kernel(self, id: &str) -> (builder: TaskBuilder<'b>)
        ensures
            builder.kernel matches Some(name) && name@ == id@,
            builder.workgroup == self.workgroup,
            builder.shader == self.shader,
            builder.size == self.size,
            builder.input_buffers == self.input_buffers,
            builder.output_buffers == self.output_buffers,
    {
        let mut builder = self;
        builder.kernel = Some(id.to_owned());
        builder
    }

    /// Sets the invocation grid. No dimension of a grid is zero.
    pub fn with_size(self, size: (u32, u32, u32)) -> (builder: TaskBuilder<'b>)
        requires
            size.0 > 0,
            size.1 > 0,
            size.2 > 0,
        ensures
            builder.size == Some(size),
            builder.workgroup == self.workgroup,
            builder.shader == self.shader,
            builder.kernel == self.kernel,
            builder.input_buffers == self.input_buffers,
            builder.output_buffers == self.output_buffers,
    {
        let mut builder = self;
        builder.size = Some(size);
        builder
    }

    /// Sets the invocation grid, one dimension at a time.
    pub fn with_workgroups(self, x: u32, y: u32, z: u32) -> (builder: TaskBuilder<'b>)
        requires
            x > 0,
            y > 0,
            z > 0,
        ensures
            builder.size == Some((x, y, z)),
            builder.workgroup == self.workgroup,
            builder.shader == self.shader,
            builder.kernel == self.kernel,
            builder.input_buffers == self.input_buffers,
            builder.output_buffers == self.output_buffers,
    {
        self.with_size((x, y, z))
    }

    /// Binds `handle` as the next read-only input of the kernel, under slot
    /// number `id`.
    pub fn with_input_buffer(self, id: u32, handle: VBufferHandle, partition_mode: PartitionMode) -> (builder: TaskBuilder<'b>)
        ensures
            builder.input_buffers@ == self.input_buffers@.push((id, handle, partition_mode)),
            builder.workgroup == self.workgroup,
            builder.shader == self.shader,
            builder.kernel == self.kernel,
            builder.size == self.size,
            builder.output_buffers == self.output_buffers,
    {
        let mut builder = self;
        builder.input_buffers.push((id, handle, partition_mode));
        builder
    }

    /// Binds `handle` as the next read-write output of the kernel, under slot
    /// number `id`.
    pub fn with_output_buffer(self, id: u32, handle: VBufferHandle, partition_mode: PartitionMode) -> (builder: TaskBuilder<'b>)
        ensures
            builder.output_buffers@ == self.output_buffers@.push((id, handle, partition_mode)),
            builder.workgroup == self.workgroup,
            builder.shader == self.shader,
            builder.kernel == self.kernel,
            builder.size == self.size,
            builder.input_buffers == self.input_buffers,
    {
        let mut builder = self;
        builder.output_buffers.push((id, handle, partition_mode));
        builder
    }

    /// Prepares the dispatch, as `Task::from_builder` does.
    pub fn build(self) -> (task: Option<Task<'b>>)
        ensures
            task is Some <==> buildable(
                old(self.workgroup).buffers(),
                self.kernel,
                self.size,
                self.input_buffers@,
                self.output_buffers@,
            ),
            task is None ==> *final(self.workgroup) == *old(self.workgroup),
            task matches Some(t) ==> {
                &&& *t.workgroup == *old(self.workgroup)
                &&& *final(t.workgroup) == *final(self.workgroup)
                &&& t.shader == self.shader
                &&& Some(t.kernel) == self.kernel
                &&& Some(t.size) == self.size
                &&& t.output_buffers == self.output_buffers
                &&& t.plans@.len() == old(self.workgroup).devices().len()
                &&& forall|d: int| 0 <= d < t.plans@.len() ==> (#[trigger] t.plans@[d])@ == planned_device(
                    old(self.workgroup).buffers(),
                    self.input_buffers@,
                    self.output_buffers@,
                    t.size,
                    maps_primary_buffers(old(self.workgroup).devices()[d].features),
                    d,
                    t.plans@.len() as int,
                )
            },
    {
        Task::from_builder(self)
    }
}

/// Whether a dispatch configured like this can be prepared: kernel and grid
/// are set, and every bound handle names a buffer of the session.
pub open spec fn buildable(
    buffers: Map<VBufferHandle, Block>,
    kernel: Option<String>,
    size: Option<(u32, u32, u32)>,
    inputs: Seq<Binding>,
    outputs: Seq<Binding>,
) -> bool {
    &&& kernel is Some
    &&& size is Some
    &&& resolved(buffers, inputs)
    &&& resolved(buffers, outputs)
}

/// One dispatch of a kernel, prepared for every device of a session.
pub struct Task<'t> {
    /// The session, borrowed until the dispatch has run.
    pub workgroup: &'t mut Workgroup,
    pub shader: ShaderModuleDescriptor<'t>,
    /// The entry point of the kernel.
    pub kernel: String,
    /// The invocation grid.
    pub size: (u32, u32, u32),
    /// The outputs in declaration order: where gathered bytes go.
    pub output_buffers: Vec<Binding>,
    /// The plan of each device, in dispatch order.
    pub plans: Vec<DevicePlan>,
}

impl<'t> Task<'t> {
    /// Prepares the dispatch that `builder` describes. There is no task
    /// where kernel or grid were never set or a bound handle names no buffer
    /// of the session; the session is then as it was.
    pub fn from_builder(builder: TaskBuilder<'t>) -> (task: Option<Task<'t>>)
        ensures
            task is Some <==> buildable(
                old(builder.workgroup).buffers(),
                builder.kernel,
                builder.size,
                builder.input_buffers@,
                builder.output_buffers@,
            ),
            task is None ==> *final(builder.workgroup) == *old(builder.workgroup),
            task matches Some(t) ==> {
                &&& *t.workgroup == *old(builder.workgroup)
                &&& *final(t.workgroup) == *final(builder.workgroup)
                &&& t.shader == builder.shader
                &&& Some(t.kernel) == builder.kernel
                &&& Some(t.size) == builder.size
                &&& t.output_buffers == builder.output_buffers
                &&& t.plans@.len() == old(builder.workgroup).devices().len()
                &&& forall|d: int| 0 <= d < t.plans@.len() ==> (#[trigger] t.plans@[d])@ == planned_device(
                    old(builder.workgroup).buffers(),
                    builder.input_buffers@,
                    builder.output_buffers@,
                    t.size,
                    maps_primary_buffers(old(builder.workgroup).devices()[d].features),
                    d,
                    t.plans@.len() as int,
                )
            },
    {
        let TaskBuilder { workgroup, shader, kernel, size, input_buffers, output_buffers } = builder;
        let kernel = match kernel {
            Some(kernel) => kernel,
            None => {
                return None;
            },
        };
        let size = match size {
            Some(size) => size,
            None => {
                return None;
            },
        };
        if !resolves(&*workgroup, &input_buffers) || !resolves(&*workgroup, &output_buffers) {
            return None;
        }
        let devices = workgroup.vdevices().len();
        let mut plans: Vec<DevicePlan> = Vec::new();
        let mut d: usize = 0;
        while d < devices
            invariant
                *workgroup == *old(builder.workgroup),
                devices == workgroup.devices().len(),
                resolved(workgroup.buffers(), input_buffers@),
                resolved(workgroup.buffers(), output_buffers@),
                d <= devices,
                plans@.len() == d,
                forall|e: int| 0 <= e < d ==> (#[trigger] plans@[e])@ == planned_device(
                    workgroup.buffers(),
                    input_buffers@,
                    output_buffers@,
                    size,
                    maps_primary_buffers(workgroup.devices()[e].features),
                    e,
                    devices as int,
                ),
            decreases devices - d,
        {
            let mappable = can_map_primary_buffers(workgroup.vdevices()[d].features);
            plans.push(DevicePlan::for_device(&*workgroup, &input_buffers, &output_buffers, size, mappable, d, devices));
            d += 1;
        }
        Some(Task { workgroup, shader, kernel, size, output_buffers, plans })
    }
}

/// One step of the host while a task runs.
#[derive(Clone, Copy, Debug, PartialEq, Eq, Structural)]
pub enum Step {
    /// Hand the command sequence of a device to its queue, without waiting.
    Submit { device: usize },
    /// Ask, without blocking, that a readback of a device be made visible to
    /// the host; completion is notified at some later time.
    RequestMap { device: usize, readback: usize },
    /// Block until a device is idle.
    WaitIdle { device: usize },
    /// Block until the notification for a readback has arrived.
    AwaitMap { device: usize, readback: usize },
    /// Read the host-visible bytes of a readback, then release the view and
    /// reclaim the mapping.
    Read { device: usize, readback: usize },
}

/// What the host does with each readback in one phase of a run.
#[derive(Clone, Copy, Debug, PartialEq, Eq, Structural)]
pub enum Phase {
    RequestMap,
    AwaitMap,
    Read,
}

impl Phase {
    /// The step of this phase for readback `readback` of device `device`.
    pub open spec fn spec_step(self, device: usize, readback: usize) -> Step {
        match self {
            Phase::RequestMap => Step::RequestMap { device, readback },
            Phase::AwaitMap => Step::AwaitMap { device, readback },
            Phase::Read => Step::Read { device, readback },
        }
    }

    #[verifier::when_used_as_spec(spec_step)]
    pub fn step(self, device: usize, readback: usize) -> (step: Step)
        ensures
            step == self.step(device, readback),
    {
        match self {
            Phase::RequestMap => Step::RequestMap { device, readback },
            Phase::AwaitMap => Step::AwaitMap { device, readback },
            Phase::Read => Step::Read { device, readback },
        }
    }
}

/// The step taken once for each device, in dispatch order.
pub open spec fn each_device(devices: nat, wait: bool) -> Seq<Step> {
    Seq::new(
        devices,
        |d: int|
            if wait {
                Step::WaitIdle { device: d as usize }
            } else {
                Step::Submit { device: d as usize }
            },
    )
}

/// The step taken once for each readback of device `device`, in order.
pub open spec fn each_readback_of(device: int, readbacks: nat, phase: Phase) -> Seq<Step> {
    Seq::new(readbacks, |r: int| phase.step(device as usize, r as usize))
}

/// The step taken once for each readback of the first `upto` devices, device
/// by device. `counts` holds the number of readbacks of each device.
pub open spec fn each_readback(counts: Seq<nat>, upto: nat, phase: Phase) -> Seq<Step>
    decreases upto,
{
    if upto == 0 {
        Seq::empty()
    } else {
        each_readback(counts, (upto - 1) as nat, phase) + each_readback_of(upto - 1, counts[upto - 1], phase)
    }
}

/// The steps of a run, up to the gather: all submissions; then all map
/// requests; then one idle wait per device, whether or not it seems to have
/// finished; only then the wait for each notification; and at last the
/// reading of each readback.
pub open spec fn run_schedule(counts: Seq<nat>) -> Seq<Step> {
    each_device(counts.len(), false) + each_readback(counts, counts.len(), Phase::RequestMap) + each_device(
        counts.len(),
        true,
    ) + each_readback(counts, counts.len(), Phase::AwaitMap) + each_readback(counts, counts.len(), Phase::Read)
}

/// The number of readbacks of each plan.
pub open spec fn readback_counts(plans: Seq<DevicePlan>) -> Seq<nat> {
    Seq::new(plans.len(), |d: int| plans[d].readbacks@.len())
}

/// The bytes handed back: for each device, for each of its readbacks.
pub open spec fn readback_bytes(readbacks: Seq<Vec<Vec<u8>>>) -> Seq<Seq<Seq<u8>>> {
    Seq::new(readbacks.len(), |d: int| Seq::new(readbacks[d]@.len(), |o: int| readbacks[d]@[o]@))
}

/// `buffers` after the first `upto` readbacks of one device were gathered:
/// readback `o` is written over the start of the buffer bound to output `o`.
/// A readback without an output is passed over.
pub open spec fn gathered_from_device(
    buffers: Map<VBufferHandle, Block>,
    outputs: Seq<Binding>,
    readback: Seq<Seq<u8>>,
    upto: nat,
) -> Map<VBufferHandle, Block>
    decreases upto,
{
    if upto == 0 {
        buffers
    } else {
        let before = gathered_from_device(buffers, outputs, readback, (upto - 1) as nat);
        if upto - 1 < outputs.len() {
            delivered(before, outputs[upto - 1].1, readback[upto - 1])
        } else {
            before
        }
    }
}

/// `buffers` after the readbacks of the first `upto` devices were gathered,
/// device by device.
pub open spec fn gathered(
    buffers: Map<VBufferHandle, Block>,
    outputs: Seq<Binding>,
    readbacks: Seq<Seq<Seq<u8>>>,
    upto: nat,
) -> Map<VBufferHandle, Block>
    decreases upto,
{
    if upto == 0 {
        buffers
    } else {
        gathered_from_device(
            gathered(buffers, outputs, readbacks, (upto - 1) as nat),
            outputs,
            readbacks[upto - 1],
            readbacks[upto - 1].len(),
        )
    }
}

/// The smaller of two counts.
pub open spec fn fewer(a: nat, b: nat) -> nat {
    if a <= b { a } else { b }
}

impl<'t> Task<'t> {
    /// The steps that bring the results of every device within reach of the
    /// host, in the order in which they are to be taken.
    pub fn schedule(&self) -> (steps: Vec<Step>)
        ensures
            steps@ == run_schedule(readback_counts(self.plans@)),
    {
        let devices = self.plans.len();
        let mut steps: Vec<Step> = Vec::new();

        let mut d: usize = 0;
        while d < devices
            invariant
                d <= devices,
                steps@ == each_device(d as nat, false),
            decreases devices - d,
        {
            steps.push(Step::Submit { device: d });
            d += 1;
            assert(steps@ =~= each_device(d as nat, false));
        }
        self.push_each_readback(&mut steps, Phase::RequestMap);

        let ghost requested = steps@;
        let mut d: usize = 0;
        while d < devices
            invariant
                d <= devices,
                steps@ == requested + each_device(d as nat, true),
            decreases devices - d,
        {
            steps.push(Step::WaitIdle { device: d });
            d += 1;
            assert(steps@ =~= requested + each_device(d as nat, true));
        }
        self.push_each_readback(&mut steps, Phase::AwaitMap);
        self.push_each_readback(&mut steps, Phase::Read);
        steps
    }

    /// Appends the step taken once for each readback of each device.
    fn push_each_readback(&self, steps: &mut Vec<Step>, phase: Phase)
        ensures
            final(steps)@ == old(steps)@ + each_readback(
                readback_counts(self.plans@),
                self.plans@.len(),
                phase,
            ),
    {
        let ghost counts = readback_counts(self.plans@);
        let devices = self.plans.len();
        let mut d: usize = 0;
        while d < devices
            invariant
                d <= devices,
                devices == self.plans@.len(),
                counts == readback_counts(self.plans@),
                steps@ == old(steps)@ + each_readback(counts, d as nat, phase),
            decreases devices - d,
        {
            let ghost before = steps@;
            let readbacks = self.plans[d].readbacks.len();
            let mut r: usize = 0;
            while r < readbacks
                invariant
                    r <= readbacks,
                    steps@ == before + each_readback_of(d as int, r as nat, phase),
                decreases readbacks - r,
            {
                steps.push(phase.step(d, r));
                r += 1;
                assert(steps@ =~= before + each_readback_of(d as int, r as nat, phase));
            }
            d += 1;
            assert(steps@ =~= old(steps)@ + each_readback(counts, d as nat, phase));
        }
    }

    /// Gathers what the devices handed back: `readbacks[d][o]` holds the
    /// bytes read from readback `o` of device `d`. Device by device and
    /// output by output, the bytes are written over the start of the buffer
    /// bound to the output, clamped to the shorter of the two. The borrow of
    /// the session ends here.
    pub fn run(self, readbacks: &Vec<Vec<Vec<u8>>>)
        ensures
            final(self.workgroup).devices() == old(self.workgroup).devices(),
            final(self.workgroup).buffers() == gathered(
                old(self.workgroup).buffers(),
                self.output_buffers@,
                readback_bytes(readbacks@),
                fewer(self.plans@.len(), readbacks@.len()),
            ),
    {
        let Task { workgroup, shader: _, kernel: _, size: _, output_buffers, plans } = self;
        let ghost start = workgroup.buffers();
        let ghost bytes = readback_bytes(readbacks@);
        let devices = if plans.len() < readbacks.len() { plans.len() } else { readbacks.len() };
        let mut d: usize = 0;
        while d < devices
            invariant
                d <= devices,
                devices <= readbacks@.len(),
                bytes == readback_bytes(readbacks@),
                workgroup.devices() == old(self.workgroup).devices(),
                workgroup.buffers() == gathered(start, output_buffers@, bytes, d as nat),
            decreases devices - d,
        {
            let ghost before = workgroup.buffers();
            let handed = &readbacks[d];
            let mut o: usize = 0;
            while o < handed.len()
                invariant
                    o <= handed@.len(),
                    d < readbacks@.len(),
                    *handed == readbacks@[d as int],
                    bytes == readback_bytes(readbacks@),
                    workgroup.devices() == old(self.workgroup).devices(),
                    workgroup.buffers() == gathered_from_device(before, output_buffers@, bytes[d as int], o as nat),
                decreases handed@.len() - o,
            {
                if o < output_buffers.len() {
                    let (_, handle, mode) = output_buffers[o];
                    match mode {
                        PartitionMode::Unmanaged => {
                            workgroup.write_vbuffer(handle, handed[o].as_slice());
                        },
                    }
                }
                o += 1;
            }
            d += 1;
        }
    }
}

} // verus!
