//! What holds of a session across several operations.

use crate::plan::planned_device;
use crate::store::VBufferHandle;
use crate::task::buildable;
use crate::task::each_device;
use crate::task::each_readback;
use crate::task::gathered;
use crate::task::gathered_from_device;
use crate::task::run_schedule;
use crate::task::Binding;
use crate::task::PartitionMode;
use crate::task::Phase;
use crate::task::Step;
use crate::vbuffer::overlay;
use crate::vbuffer::Block;
use crate::vdevice::backend_rank;
use crate::vdevice::outranks;
use crate::vdevice::same_chip;
use crate::vdevice::survives;
use crate::vdevice::Adapter;
use crate::workgroup::after_take;
use crate::workgroup::delivered;
use crate::workgroup::taken;
use std::any::TypeId;
use vstd::prelude::*;

verus! {

/// The last of the first `upto` outputs that is bound to `handle`, or -1
/// where none of them is.
pub open spec fn last_bound(outputs: Seq<Binding>, handle: VBufferHandle, upto: nat) -> int
    decreases upto,
{
    if upto == 0 {
        -1
    } else if outputs[upto - 1].1 == handle {
        upto - 1
    } else {
        last_bound(outputs, handle, (upto - 1) as nat)
    }
}

/// Whether every output names a buffer of `buffers` and `results` holds, for
/// each output, as many bytes as that buffer.
pub open spec fn fills(buffers: Map<VBufferHandle, Block>, outputs: Seq<Binding>, results: Seq<Seq<u8>>) -> bool {
    &&& results.len() == outputs.len()
    &&& forall|o: int|
        0 <= o < outputs.len() ==> buffers.dom().contains((#[trigger] outputs[o]).1) && results[o].len()
            == buffers[outputs[o].1].bytes.len()
}

/// `buffers` with every bound buffer holding the result of the last of the
/// first `upto` outputs bound to it.
pub open spec fn filled(
    buffers: Map<VBufferHandle, Block>,
    outputs: Seq<Binding>,
    results: Seq<Seq<u8>>,
    upto: nat,
) -> Map<VBufferHandle, Block> {
    Map::new(
        |handle: VBufferHandle| buffers.dom().contains(handle),
        |handle: VBufferHandle|
            if last_bound(outputs, handle, upto) >= 0 {
                Block { bytes: results[last_bound(outputs, handle, upto)], ..buffers[handle] }
            } else {
                buffers[handle]
            },
    )
}

proof fn lemma_last_bound(outputs: Seq<Binding>, handle: VBufferHandle, upto: nat)
    requires
        upto <= outputs.len(),
    ensures
        -1 <= last_bound(outputs, handle, upto) < upto,
        last_bound(outputs, handle, upto) >= 0 ==> outputs[last_bound(outputs, handle, upto)].1 == handle,
        forall|o: int| last_bound(outputs, handle, upto) < o < upto ==> (#[trigger] outputs[o]).1 != handle,
    decreases upto,
{
    if upto > 0 {
        lemma_last_bound(outputs, handle, (upto - 1) as nat);
    }
}

/// Gathering from one device whose readbacks are as long as the buffers
/// they go to leaves each bound buffer with the result of the last output
/// bound to it.
proof fn lemma_gathered_from_device(
    buffers: Map<VBufferHandle, Block>,
    outputs: Seq<Binding>,
    results: Seq<Seq<u8>>,
    upto: nat,
)
    requires
        fills(buffers, outputs, results),
        upto <= outputs.len(),
    ensures
        gathered_from_device(buffers, outputs, results, upto) == filled(buffers, outputs, results, upto),
    decreases upto,
{
    if upto == 0 {
        assert(filled(buffers, outputs, results, 0) =~= buffers);
    } else {
        let o = (upto - 1) as nat;
        lemma_gathered_from_device(buffers, outputs, results, o);
        let before = filled(buffers, outputs, results, o);
        let handle = outputs[o as int].1;
        assert(buffers.dom().contains(handle));
        lemma_last_bound(outputs, handle, o);
        assert(before[handle].bytes.len() == results[o as int].len());
        assert(overlay(before[handle].bytes, results[o as int]) =~= results[o as int]);
        assert(delivered(before, handle, results[o as int]) =~= filled(buffers, outputs, results, upto));
    }
}

/// Gathering the same results a second time changes nothing.
proof fn lemma_filled_twice(buffers: Map<VBufferHandle, Block>, outputs: Seq<Binding>, results: Seq<Seq<u8>>)
    requires
        fills(buffers, outputs, results),
    ensures
        fills(filled(buffers, outputs, results, outputs.len()), outputs, results),
        filled(filled(buffers, outputs, results, outputs.len()), outputs, results, outputs.len()) == filled(
            buffers,
            outputs,
            results,
            outputs.len(),
        ),
{
    let once = filled(buffers, outputs, results, outputs.len());
    assert forall|o: int| 0 <= o < outputs.len() implies once.dom().contains((#[trigger] outputs[o]).1)
        && results[o].len() == once[outputs[o].1].bytes.len() by {
        lemma_last_bound(outputs, outputs[o].1, outputs.len());
    }
    assert(filled(once, outputs, results, outputs.len()) =~= once);
}

/// Replication: when each of one or more devices hands back, for every
/// output, the same result, as long as the buffer bound to the output, then
/// after the gather the buffers are what a single device would have left,
/// however many devices there were: each bound buffer holds the result of
/// the last output bound to it and keeps its tag and layout, and every other
/// buffer is untouched.
pub proof fn lemma_replicated_gather(
    buffers: Map<VBufferHandle, Block>,
    outputs: Seq<Binding>,
    results: Seq<Seq<u8>>,
    readbacks: Seq<Seq<Seq<u8>>>,
    devices: nat,
)
    requires
        1 <= devices <= readbacks.len(),
        fills(buffers, outputs, results),
        forall|d: int| 0 <= d < devices ==> #[trigger] readbacks[d] == results,
    ensures
        gathered(buffers, outputs, readbacks, devices) == filled(buffers, outputs, results, outputs.len()),
        gathered(buffers, outputs, readbacks, devices) == gathered(buffers, outputs, readbacks, 1),
    decreases devices,
{
    if devices == 1 {
        assert(gathered(buffers, outputs, readbacks, 0) == buffers);
        assert(readbacks[0] == results);
        lemma_gathered_from_device(buffers, outputs, results, outputs.len());
    } else {
        lemma_replicated_gather(buffers, outputs, results, readbacks, (devices - 1) as nat);
        let once = filled(buffers, outputs, results, outputs.len());
        assert(readbacks[devices - 1] == results);
        lemma_filled_twice(buffers, outputs, results);
        lemma_gathered_from_device(once, outputs, results, outputs.len());
    }
}

/// Replication, for one output: under the conditions of
/// `lemma_replicated_gather`, the buffer bound to output `k` ends up holding
/// exactly the result for `k`, provided no later output is bound to the same
/// buffer.
pub proof fn lemma_replicated_output(
    buffers: Map<VBufferHandle, Block>,
    outputs: Seq<Binding>,
    results: Seq<Seq<u8>>,
    readbacks: Seq<Seq<Seq<u8>>>,
    devices: nat,
    k: int,
)
    requires
        1 <= devices <= readbacks.len(),
        fills(buffers, outputs, results),
        forall|d: int| 0 <= d < devices ==> #[trigger] readbacks[d] == results,
        0 <= k < outputs.len(),
        forall|o: int| k < o < outputs.len() ==> (#[trigger] outputs[o]).1 != outputs[k].1,
    ensures
        gathered(buffers, outputs, readbacks, devices).dom() == buffers.dom(),
        gathered(buffers, outputs, readbacks, devices)[outputs[k].1] == (Block {
            bytes: results[k],
            ..buffers[outputs[k].1]
        }),
{
    lemma_replicated_gather(buffers, outputs, results, readbacks, devices);
    lemma_last_bound(outputs, outputs[k].1, outputs.len());
    assert(filled(buffers, outputs, results, outputs.len()).dom() =~= buffers.dom());
}

/// Without devices nothing is scheduled and the gather leaves every buffer
/// as it was.
pub proof fn lemma_no_devices(buffers: Map<VBufferHandle, Block>, outputs: Seq<Binding>, readbacks: Seq<Seq<Seq<u8>>>)
    ensures
        run_schedule(Seq::<nat>::empty()) == Seq::<Step>::empty(),
        gathered(buffers, outputs, readbacks, 0) == buffers,
{
    assert(run_schedule(Seq::<nat>::empty()) =~= Seq::<Step>::empty());
}

/// A handle is stale once its buffer was taken: a second take, with whatever
/// type, hands out nothing and changes nothing; a dispatch that binds the
/// handle cannot be prepared; and bytes gathered for it go nowhere.
pub proof fn lemma_taken_handle_is_stale(
    buffers: Map<VBufferHandle, Block>,
    handle: VBufferHandle,
    expect: TypeId,
    again: TypeId,
    kernel: Option<String>,
    size: Option<(u32, u32, u32)>,
    inputs: Seq<Binding>,
    outputs: Seq<Binding>,
    bytes: Seq<u8>,
)
    requires
        taken(buffers, handle, expect) is Some,
    ensures
        taken(after_take(buffers, handle, expect), handle, again) is None,
        after_take(after_take(buffers, handle, expect), handle, again) == after_take(buffers, handle, expect),
        (exists|i: int| 0 <= i < inputs.len() && (#[trigger] inputs[i]).1 == handle) ==> !buildable(
            after_take(buffers, handle, expect),
            kernel,
            size,
            inputs,
            outputs,
        ),
        (exists|o: int| 0 <= o < outputs.len() && (#[trigger] outputs[o]).1 == handle) ==> !buildable(
            after_take(buffers, handle, expect),
            kernel,
            size,
            inputs,
            outputs,
        ),
        delivered(after_take(buffers, handle, expect), handle, bytes) == after_take(buffers, handle, expect),
{
}

/// A take that expects another type than the buffer was created with hands
/// out nothing and changes nothing.
pub proof fn lemma_take_checks_type(buffers: Map<VBufferHandle, Block>, handle: VBufferHandle, expect: TypeId)
    requires
        buffers.dom().contains(handle),
        buffers[handle].typeid != expect,
    ensures
        taken(buffers, handle, expect) is None,
        after_take(buffers, handle, expect) == buffers,
{
}

/// Round trip: a buffer is created from `data` and bound as the input of a
/// kernel that copies its input to its output; the output is bound to a
/// buffer `out` of the same length. Each of one or more devices hands back
/// what its plan gave it as the input. Taking the output then yields the
/// bytes of `data`, under the tag and layout of the output buffer.
pub proof fn lemma_round_trip(
    buffers: Map<VBufferHandle, Block>,
    data: Block,
    input: VBufferHandle,
    output: VBufferHandle,
    size: (u32, u32, u32),
    mappable: Seq<bool>,
    readbacks: Seq<Seq<Seq<u8>>>,
)
    requires
        !buffers.dom().contains(input),
        buffers.dom().contains(output),
        buffers[output].bytes.len() == data.bytes.len(),
        1 <= mappable.len() == readbacks.len(),
        forall|d: int|
            0 <= d < mappable.len() ==> #[trigger] readbacks[d] == seq![
                planned_device(
                    buffers.insert(input, data),
                    seq![(0u32, input, PartitionMode::Unmanaged)],
                    seq![(1u32, output, PartitionMode::Unmanaged)],
                    size,
                    mappable[d],
                    d,
                    mappable.len() as int,
                ).buffers[0].contents,
            ],
    ensures
        taken(
            gathered(
                buffers.insert(input, data),
                seq![(1u32, output, PartitionMode::Unmanaged)],
                readbacks,
                readbacks.len(),
            ),
            output,
            buffers[output].typeid,
        ) == Some(Block { bytes: data.bytes, ..buffers[output] }),
{
    let held = buffers.insert(input, data);
    let outputs = seq![(1u32, output, PartitionMode::Unmanaged)];
    let results = seq![data.bytes];
    assert forall|d: int| 0 <= d < readbacks.len() implies #[trigger] readbacks[d] == results by {
        assert(readbacks[d] =~= results);
    }
    lemma_replicated_output(held, outputs, results, readbacks, readbacks.len(), 0);
}

/// The stage of a run that a step belongs to: submission, map requests, idle
/// waits, notifications, reading.
pub open spec fn stage(step: Step) -> int {
    match step {
        Step::Submit { .. } => 0,
        Step::RequestMap { .. } => 1,
        Step::WaitIdle { .. } => 2,
        Step::AwaitMap { .. } => 3,
        Step::Read { .. } => 4,
    }
}

proof fn lemma_each_readback_stage(counts: Seq<nat>, upto: nat, phase: Phase, i: int)
    requires
        0 <= i < each_readback(counts, upto, phase).len(),
    ensures
        stage(each_readback(counts, upto, phase)[i]) == stage(phase.step(0, 0)),
    decreases upto,
{
    if upto > 0 {
        let earlier = each_readback(counts, (upto - 1) as nat, phase);
        if i < earlier.len() {
            lemma_each_readback_stage(counts, (upto - 1) as nat, phase, i);
        }
    }
}

/// The order of a run is fixed: its steps never go back to an earlier stage.
/// So every command sequence is submitted before any map request, every map
/// request is made before any device is waited for, every device is idle
/// before any notification is collected, and every notification has arrived
/// before any readback is read.
pub proof fn lemma_schedule_in_stages(counts: Seq<nat>, i: int, j: int)
    requires
        0 <= i <= j < run_schedule(counts).len(),
    ensures
        stage(run_schedule(counts)[i]) <= stage(run_schedule(counts)[j]),
{
    let submits = each_device(counts.len(), false);
    let requests = each_readback(counts, counts.len(), Phase::RequestMap);
    let waits = each_device(counts.len(), true);
    let awaits = each_readback(counts, counts.len(), Phase::AwaitMap);
    let reads = each_readback(counts, counts.len(), Phase::Read);
    let all = run_schedule(counts);
    assert forall|k: int| 0 <= k < all.len() implies stage(#[trigger] all[k]) == (if k < submits.len() {
        0int
    } else if k < submits.len() + requests.len() {
        1int
    } else if k < submits.len() + requests.len() + waits.len() {
        2int
    } else if k < submits.len() + requests.len() + waits.len() + awaits.len() {
        3int
    } else {
        4int
    }) by {
        if k < submits.len() {
        } else if k < submits.len() + requests.len() {
            lemma_each_readback_stage(counts, counts.len(), Phase::RequestMap, k - submits.len());
        } else if k < submits.len() + requests.len() + waits.len() {
        } else if k < submits.len() + requests.len() + waits.len() + awaits.len() {
            lemma_each_readback_stage(
                counts,
                counts.len(),
                Phase::AwaitMap,
                k - submits.len() - requests.len() - waits.len(),
            );
        } else {
            lemma_each_readback_stage(
                counts,
                counts.len(),
                Phase::Read,
                k - submits.len() - requests.len() - waits.len() - awaits.len(),
            );
        }
    }
}

/// Whether `after` holds the same buffers as `before`, each under its tag
/// and layout and with as many bytes as before.
pub open spec fn same_shape(before: Map<VBufferHandle, Block>, after: Map<VBufferHandle, Block>) -> bool {
    &&& after.dom() == before.dom()
    &&& forall|handle: VBufferHandle| #[trigger]
        before.dom().contains(handle) ==> {
            &&& after[handle].typeid == before[handle].typeid
            &&& after[handle].stride == before[handle].stride
            &&& after[handle].length == before[handle].length
            &&& after[handle].bytes.len() == before[handle].bytes.len()
        }
}

proof fn lemma_device_keeps_shape(
    buffers: Map<VBufferHandle, Block>,
    outputs: Seq<Binding>,
    readback: Seq<Seq<u8>>,
    upto: nat,
)
    ensures
        same_shape(buffers, gathered_from_device(buffers, outputs, readback, upto)),
    decreases upto,
{
    if upto > 0 {
        lemma_device_keeps_shape(buffers, outputs, readback, (upto - 1) as nat);
        assert(gathered_from_device(buffers, outputs, readback, upto).dom() =~= buffers.dom());
    }
}

/// Whatever the devices hand back, however long, a gather neither adds nor
/// removes a buffer, and leaves every buffer under its tag and layout and
/// with as many bytes as it had.
pub proof fn lemma_gather_keeps_shape(
    buffers: Map<VBufferHandle, Block>,
    outputs: Seq<Binding>,
    readbacks: Seq<Seq<Seq<u8>>>,
    devices: nat,
)
    ensures
        same_shape(buffers, gathered(buffers, outputs, readbacks, devices)),
    decreases devices,
{
    if devices > 0 {
        lemma_gather_keeps_shape(buffers, outputs, readbacks, (devices - 1) as nat);
        let before = gathered(buffers, outputs, readbacks, (devices - 1) as nat);
        lemma_device_keeps_shape(before, outputs, readbacks[devices - 1], readbacks[devices - 1].len());
    }
}

/// Of the adapters that stand for one chip, at most one is kept.
pub proof fn lemma_one_adapter_per_chip(adapters: Seq<Adapter>, i: int, j: int)
    requires
        survives(adapters, i),
        survives(adapters, j),
        same_chip(adapters[i], adapters[j]),
    ensures
        i == j,
{
    if i != j {
        if backend_rank(adapters[i].backend) < backend_rank(adapters[j].backend) || (backend_rank(
            adapters[i].backend,
        ) == backend_rank(adapters[j].backend) && i < j) {
            assert(outranks(adapters, i, j));
        } else {
            assert(outranks(adapters, j, i));
        }
    }
}

/// Every chip that can compute is kept: for each adapter that can compute,
/// an adapter for the same chip survives, and its backend is at least as
/// preferred.
pub proof fn lemma_every_chip_is_kept(adapters: Seq<Adapter>, i: int) -> (kept: int)
    requires
        0 <= i < adapters.len(),
        adapters[i].compute_shaders,
    ensures
        survives(adapters, kept),
        same_chip(adapters[kept], adapters[i]),
        backend_rank(adapters[kept].backend) <= backend_rank(adapters[i].backend),
    decreases backend_rank(adapters[i].backend) as int, i,
{
    if survives(adapters, i) {
        i
    } else {
        let j = choose|j: int| outranks(adapters, j, i);
        lemma_every_chip_is_kept(adapters, j)
    }
}

} // verus!
