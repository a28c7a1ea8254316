//! Discovery of the compute devices of the machine.

use crate::features::feature_flags;
use crate::features::mappable_primary_buffers;
use crate::features::negotiate;
use crate::features::negotiated;
use crate::features::MAPPABLE_PRIMARY_BUFFERS;
use vstd::prelude::*;
use wgpu::Features;

verus! {

/// The driver layer through which an adapter is reached.
#[derive(Clone, Copy, Debug, PartialEq, Eq, Structural)]
pub enum Backend {
    Noop,
    Vulkan,
    Metal,
    Dx12,
    Gl,
    BrowserWebGpu,
}

/// The class of hardware behind an adapter.
#[derive(Clone, Copy, Debug, PartialEq, Eq, Structural)]
pub enum DeviceType {
    Other,
    IntegratedGpu,
    DiscreteGpu,
    VirtualGpu,
    Cpu,
}

impl DeviceType {
    /// How much the class of a device counts for in its compute weight:
    /// discrete above integrated above virtual, which counts little more
    /// than a CPU.
    pub open spec fn spec_class_multiplier(self) -> u32 {
        match self {
            DeviceType::DiscreteGpu => 10,
            DeviceType::IntegratedGpu => 3,
            DeviceType::VirtualGpu => 2,
            DeviceType::Cpu => 1,
            DeviceType::Other => 1,
        }
    }

    #[verifier::when_used_as_spec(spec_class_multiplier)]
    pub fn class_multiplier(self) -> (multiplier: u32)
        ensures
            multiplier == self.class_multiplier(),
    {
        match self {
            DeviceType::DiscreteGpu => 10,
            DeviceType::IntegratedGpu => 3,
            DeviceType::VirtualGpu => 2,
            DeviceType::Cpu => 1,
            DeviceType::Other => 1,
        }
    }

    /// Whether the memory of a device of this class adds to its compute
    /// weight. That of a CPU does not.
    pub fn scales_with_memory(self) -> (scales: bool)
        ensures
            scales == (self != DeviceType::Cpu),
    {
        match self {
            DeviceType::Cpu => false,
            _ => true,
        }
    }
}

/// What discovery reports of one adapter, before a device is opened on it.
#[derive(Debug)]
pub struct Adapter {
    pub name: String,
    pub vendor: u32,
    pub device: u32,
    pub device_type: DeviceType,
    pub backend: Backend,
    /// Whether the adapter can dispatch compute work at all.
    pub compute_shaders: bool,
    /// The optional capabilities that the adapter offers.
    pub features: Features,
    pub max_compute_invocations_per_workgroup: u32,
    pub max_buffer_size: u64,
}

/// One opened device of a session.
#[derive(Debug)]
pub struct VDevice {
    pub label: String,
    pub adapter: Adapter,
    /// The optional capabilities that the device was opened with.
    pub features: Features,
}

/// The limits to open a device with.
#[derive(Clone, Copy, Debug, PartialEq, Eq, Structural)]
pub enum RequestedLimits {
    /// The limits that every adapter is expected to meet.
    DownlevelDefaults,
    /// The limits that the adapter itself reports.
    Adapter,
}

/// A device to open: on which adapter, under which label, and with which
/// capabilities and limits.
#[derive(Debug)]
pub struct DeviceRequest {
    /// The position of the adapter among those that discovery reported.
    pub adapter: usize,
    pub label: String,
    pub required_features: Features,
    pub required_limits: RequestedLimits,
}

/// The decimal digit `d`.
pub open spec fn digit(d: nat) -> char {
    (48 + d) as char
}

/// `n` in decimal, without leading zeros.
pub open spec fn decimal(n: nat) -> Seq<char>
    decreases n,
{
    if n < 10 {
        seq![digit(n)]
    } else {
        decimal(n / 10).push(digit(n % 10))
    }
}

/// The words that every device label starts with.
pub open spec fn label_prefix() -> Seq<char> {
    seq!['W', 'I', 'S', 'C', ' ', 'V', 'D', 'e', 'v', 'i', 'c', 'e', ' ']
}

/// The label of a device whose adapter reports the device id `device`.
pub open spec fn device_label(device: u32) -> Seq<char> {
    label_prefix() + decimal(device as nat)
}

/// `String::from_iter` over a slice of characters: the string made of them,
/// in order.
#[verifier::external_body]
fn string_of(chars: &[char]) -> (text: String)
    ensures
        text@ == chars@,
{
    String::from_iter(chars)
}

/// Writes the label of a device whose adapter reports the device id
/// `device`.
pub fn label_for(device: u32) -> (label: String)
    ensures
        label@ == device_label(device),
{
    let mut low_first: Vec<char> = Vec::new();
    let mut rest: u32 = device;
    while rest >= 10
        invariant
            decimal(device as nat) == decimal(rest as nat) + low_first@.reverse(),
        decreases rest,
    {
        let ghost before = low_first@;
        let low: u8 = (rest % 10) as u8;
        low_first.push((48 + low) as char);
        assert(low_first@.reverse() =~= seq![digit((rest % 10) as nat)] + before.reverse());
        assert(decimal(rest as nat) + before.reverse() =~= decimal((rest / 10) as nat) + low_first@.reverse());
        rest = rest / 10;
    }
    let mut chars: Vec<char> = vec!['W', 'I', 'S', 'C', ' ', 'V', 'D', 'e', 'v', 'i', 'c', 'e', ' '];
    assert(chars@ =~= label_prefix());
    chars.push((48 + (rest as u8)) as char);
    let mut left: usize = low_first.len();
    while left > 0
        invariant
            left <= low_first@.len(),
            chars@ == label_prefix() + decimal(rest as nat) + low_first@.reverse().subrange(
                0,
                low_first@.len() - left,
            ),
        decreases left,
    {
        left -= 1;
        chars.push(low_first[left]);
        assert(chars@ =~= label_prefix() + decimal(rest as nat) + low_first@.reverse().subrange(
            0,
            low_first@.len() - left,
        ));
    }
    assert(chars@ =~= device_label(device));
    string_of(chars.as_slice())
}

/// The place of a backend in the order of preference among adapters for the
/// same chip. The lowest rank is preferred.
pub open spec fn spec_backend_rank(backend: Backend) -> u8 {
    match backend {
        Backend::Vulkan => 0,
        Backend::Dx12 => 1,
        Backend::Metal => 2,
        Backend::Gl => 4,
        _ => 5,
    }
}

#[verifier::when_used_as_spec(spec_backend_rank)]
pub fn backend_rank(backend: Backend) -> (rank: u8)
    ensures
        rank == backend_rank(backend),
{
    match backend {
        Backend::Vulkan => 0,
        Backend::Dx12 => 1,
        Backend::Metal => 2,
        Backend::Gl => 4,
        _ => 5,
    }
}

/// Whether two adapters stand for the same physical chip.
pub open spec fn same_chip(a: Adapter, b: Adapter) -> bool {
    a.vendor == b.vendor && a.device == b.device
}

/// Whether adapter `j` takes the place of adapter `i`: it can compute, it is
/// the same chip, and its backend is preferred, or equally preferred and
/// reported earlier.
pub open spec fn outranks(adapters: Seq<Adapter>, j: int, i: int) -> bool {
    &&& 0 <= j < adapters.len()
    &&& adapters[j].compute_shaders
    &&& same_chip(adapters[j], adapters[i])
    &&& (backend_rank(adapters[j].backend) < backend_rank(adapters[i].backend) || (backend_rank(
        adapters[j].backend,
    ) == backend_rank(adapters[i].backend) && j < i))
}

/// Whether adapter `i` is the one kept for its chip: it can compute and no
/// other adapter takes its place.
pub open spec fn survives(adapters: Seq<Adapter>, i: int) -> bool {
    &&& 0 <= i < adapters.len()
    &&& adapters[i].compute_shaders
    &&& forall|j: int| !outranks(adapters, j, i)
}

/// Whether `requests` asks for adapter `i`.
pub open spec fn asks_for(requests: Seq<DeviceRequest>, i: int) -> bool {
    exists|k: int| 0 <= k < requests.len() && #[trigger] requests[k].adapter == i
}

/// Decides whether some adapter takes the place of adapter `i`.
fn outranked(adapters: &Vec<Adapter>, i: usize) -> (some: bool)
    requires
        i < adapters@.len(),
    ensures
        some == exists|j: int| outranks(adapters@, j, i as int),
{
    let mine = backend_rank(adapters[i].backend);
    let mut j: usize = 0;
    while j < adapters.len()
        invariant
            i < adapters@.len(),
            j <= adapters@.len(),
            mine == backend_rank(adapters@[i as int].backend),
            forall|e: int| 0 <= e < j ==> !outranks(adapters@, e, i as int),
        decreases adapters@.len() - j,
    {
        let theirs = backend_rank(adapters[j].backend);
        if adapters[j].compute_shaders && adapters[j].vendor == adapters[i].vendor && adapters[j].device
            == adapters[i].device && (theirs < mine || (theirs == mine && j < i)) {
            assert(outranks(adapters@, j as int, i as int));
            return true;
        }
        j += 1;
    }
    false
}

impl VDevice {
    /// The device opened on `adapter` with the capabilities `features`.
    pub fn opened(adapter: &Adapter, features: Features) -> (device: VDevice)
        ensures
            device.label@ == device_label(adapter.device),
            device.adapter == *adapter,
            device.features == features,
    {
        VDevice {
            label: label_for(adapter.device),
            adapter: Adapter {
                name: adapter.name.clone(),
                vendor: adapter.vendor,
                device: adapter.device,
                device_type: adapter.device_type,
                backend: adapter.backend,
                compute_shaders: adapter.compute_shaders,
                features: adapter.features,
                max_compute_invocations_per_workgroup: adapter.max_compute_invocations_per_workgroup,
                max_buffer_size: adapter.max_buffer_size,
            },
            features,
        }
    }

    /// What to ask of the single adapter that the runtime prefers: nothing
    /// where it cannot compute; else a device with those of the `requested`
    /// capabilities that it offers and all of the `required` ones, under the
    /// limits that every adapter meets.
    pub fn best_with_features(adapter: &Adapter, requested: Features, required: Features) -> (request: Option<DeviceRequest>)
        ensures
            request is Some <==> adapter.compute_shaders,
            request matches Some(r) ==> {
                &&& r.adapter == 0
                &&& r.label@ == device_label(adapter.device)
                &&& feature_flags(r.required_features) == negotiated(adapter.features, requested, required)
                &&& r.required_limits == RequestedLimits::DownlevelDefaults
            },
    {
        if !adapter.compute_shaders {
            return None;
        }
        Some(
            DeviceRequest {
                adapter: 0,
                label: label_for(adapter.device),
                required_features: negotiate(adapter.features, requested, required),
                required_limits: RequestedLimits::DownlevelDefaults,
            },
        )
    }

    /// `best_with_features`, asking for mappable output memory where the
    /// adapter offers it and requiring nothing.
    pub fn best(adapter: &Adapter) -> (request: Option<DeviceRequest>)
        ensures
            request is Some <==> adapter.compute_shaders,
            request matches Some(r) ==> {
                &&& r.adapter == 0
                &&& r.label@ == device_label(adapter.device)
                &&& feature_flags(r.required_features) == feature_flags(adapter.features).intersect(
                    set![MAPPABLE_PRIMARY_BUFFERS as nat],
                )
                &&& r.required_limits == RequestedLimits::DownlevelDefaults
            },
    {
        let request = Self::best_with_features(adapter, mappable_primary_buffers(), Features::empty());
        proof {
            if request is Some {
                assert(feature_flags(request->0.required_features) =~= feature_flags(adapter.features).intersect(
                    set![MAPPABLE_PRIMARY_BUFFERS as nat],
                ));
            }
        }
        request
    }

    /// What to ask of the adapters that discovery reported. Adapters that
    /// cannot compute are dropped. Of the adapters that stand for one chip,
    /// one is kept: that with the preferred backend, the earliest among
    /// equals. Each adapter kept is asked, in the order of discovery, for a
    /// device with those of the `requested` capabilities that it offers and
    /// all of the `required` ones, under its own limits.
    pub fn all_with_features(adapters: &Vec<Adapter>, requested: Features, required: Features) -> (requests: Vec<DeviceRequest>)
        ensures
            forall|k: int| 0 <= k < requests@.len() ==> survives(adapters@, (#[trigger] requests@[k]).adapter as int),
            forall|i: int| survives(adapters@, i) ==> asks_for(requests@, i),
            forall|a: int, b: int| 0 <= a < b < requests@.len() ==> requests@[a].adapter < requests@[b].adapter,
            forall|k: int| 0 <= k < requests@.len() ==> {
                let r = #[trigger] requests@[k];
                &&& r.label@ == device_label(adapters@[r.adapter as int].device)
                &&& feature_flags(r.required_features) == negotiated(
                    adapters@[r.adapter as int].features,
                    requested,
                    required,
                )
                &&& r.required_limits == RequestedLimits::Adapter
            },
    {
        let mut requests: Vec<DeviceRequest> = Vec::new();
        let mut i: usize = 0;
        while i < adapters.len()
            invariant
                i <= adapters@.len(),
                forall|k: int| 0 <= k < requests@.len() ==> (#[trigger] requests@[k]).adapter < i,
                forall|k: int| 0 <= k < requests@.len() ==> survives(adapters@, (#[trigger] requests@[k]).adapter as int),
                forall|e: int| 0 <= e < i && survives(adapters@, e) ==> asks_for(requests@, e),
                forall|a: int, b: int| 0 <= a < b < requests@.len() ==> requests@[a].adapter < requests@[b].adapter,
                forall|k: int| 0 <= k < requests@.len() ==> {
                    let r = #[trigger] requests@[k];
                    &&& r.label@ == device_label(adapters@[r.adapter as int].device)
                    &&& feature_flags(r.required_features) == negotiated(
                        adapters@[r.adapter as int].features,
                        requested,
                        required,
                    )
                    &&& r.required_limits == RequestedLimits::Adapter
                },
            decreases adapters@.len() - i,
        {
            let ghost before = requests@;
            if adapters[i].compute_shaders && !outranked(adapters, i) {
                requests.push(
                    DeviceRequest {
                        adapter: i,
                        label: label_for(adapters[i].device),
                        required_features: negotiate(adapters[i].features, requested, required),
                        required_limits: RequestedLimits::Adapter,
                    },
                );
                assert(requests@[before.len() as int].adapter == i);
            }
            assert forall|e: int| 0 <= e < i + 1 && survives(adapters@, e) implies asks_for(requests@, e) by {
                if e < i {
                    let k = choose|k: int| 0 <= k < before.len() && #[trigger] before[k].adapter == e;
                    assert(requests@[k].adapter == e);
                } else {
                    assert(requests@[before.len() as int].adapter == e);
                }
            }
            i += 1;
        }
        requests
    }

    /// `all_with_features`, asking each adapter for mappable output memory
    /// where it offers it and requiring nothing.
    pub fn all(adapters: &Vec<Adapter>) -> (requests: Vec<DeviceRequest>)
        ensures
            forall|k: int| 0 <= k < requests@.len() ==> survives(adapters@, (#[trigger] requests@[k]).adapter as int),
            forall|i: int| survives(adapters@, i) ==> asks_for(requests@, i),
            forall|a: int, b: int| 0 <= a < b < requests@.len() ==> requests@[a].adapter < requests@[b].adapter,
            forall|k: int| 0 <= k < requests@.len() ==> {
                let r = #[trigger] requests@[k];
                &&& r.label@ == device_label(adapters@[r.adapter as int].device)
                &&& feature_flags(r.required_features) == feature_flags(
                    adapters@[r.adapter as int].features,
                ).intersect(set![MAPPABLE_PRIMARY_BUFFERS as nat])
                &&& r.required_limits == RequestedLimits::Adapter
            },
    {
        let requests = Self::all_with_features(adapters, mappable_primary_buffers(), Features::empty());
        assert forall|k: int| 0 <= k < requests@.len() implies feature_flags(
            (#[trigger] requests@[k]).required_features,
        ) == feature_flags(adapters@[requests@[k].adapter as int].features).intersect(
            set![MAPPABLE_PRIMARY_BUFFERS as nat],
        ) by {
            assert(feature_flags(requests@[k].required_features) =~= feature_flags(
                adapters@[requests@[k].adapter as int].features,
            ).intersect(set![MAPPABLE_PRIMARY_BUFFERS as nat]));
        }
        requests
    }
}

} // verus!
