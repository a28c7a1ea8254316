use std::any::TypeId;
use std::borrow::Cow;
use wisc::prelude::PartitionMode;
use wisc::prelude::TaskBuilder;
use wisc::prelude::VBuffer;
use wisc::prelude::VDevice;
use wisc::prelude::Workgroup;
use wisc::vdevice::Adapter;
use wisc::vdevice::Backend;
use wisc::vdevice::DeviceType;
use wisc::workgroup::VBufferHandle;
use wisc::Features;

const ARRAY_ADDITION: &str = "
@group(0) @binding(0) var<storage, read> a: array<u32>;
@group(0) @binding(1) var<storage, read> b: array<u32>;
@group(0) @binding(2) var<storage, read_write> r: array<u32>;

@compute @workgroup_size(256, 1, 1)
fn main(@builtin(global_invocation_id) id: vec3<u32>) {
    r[id.x] = a[id.x] + b[id.x];
}
";

fn to_bytes(words: &[u32]) -> Vec<u8> {
    words.iter().flat_map(|word| word.to_ne_bytes()).collect()
}

fn to_words(bytes: &[u8]) -> Vec<u32> {
    bytes
        .chunks_exact(4)
        .map(|chunk| u32::from_ne_bytes([chunk[0], chunk[1], chunk[2], chunk[3]]))
        .collect()
}

fn u32_buffer(words: Vec<u32>) -> VBuffer {
    VBuffer::new(TypeId::of::<u32>(), 4, words.len(), to_bytes(&words)).unwrap()
}

fn adapter(device: u32, device_type: DeviceType, features: Features) -> Adapter {
    Adapter {
        name: format!("adapter {}", device),
        vendor: 0x10de,
        device,
        device_type,
        backend: Backend::Vulkan,
        compute_shaders: true,
        features,
        max_compute_invocations_per_workgroup: 1024,
        max_buffer_size: 1 << 30,
    }
}

/// What a device does with the kernel above: the element-wise sum of the
/// first two buffers of its plan, handed back as the one readback.
fn add_arrays(plan: &wisc::plan::DevicePlan) -> Vec<Vec<u8>> {
    let a = to_words(&plan.buffers[0].contents);
    let b = to_words(&plan.buffers[1].contents);
    let sum: Vec<u32> = a.iter().zip(b.iter()).map(|(x, y)| x + y).collect();
    vec![to_bytes(&sum)]
}

#[test]
fn array_addition() {
    // The devices of the machine: one that maps its own output memory and
    // one that does not.
    let adapters = vec![
        adapter(1, DeviceType::DiscreteGpu, Features::MAPPABLE_PRIMARY_BUFFERS),
        adapter(2, DeviceType::IntegratedGpu, Features::empty()),
    ];
    let devices: Vec<VDevice> = VDevice::all(&adapters)
        .iter()
        .map(|request| VDevice::opened(&adapters[request.adapter], request.required_features))
        .collect();
    assert_eq!(devices.len(), 2);

    // Create a Workgroup out of our device(s).
    let mut workgroup = Workgroup::from_devices(devices);

    // Register our buffers with the runtime.
    // The runtime returns a handle to the virtual buffer.
    let ibuf1: VBufferHandle = workgroup.create_vbuffer(u32_buffer(vec![2u32; 1024]));
    let ibuf2: VBufferHandle = workgroup.create_vbuffer(u32_buffer(vec![3u32; 1024]));
    let obuf1: VBufferHandle = workgroup.create_vbuffer(u32_buffer(vec![0u32; 1024]));

    let shader = wgpu::ShaderModuleDescriptor {
        label: Some("./array_addition.wgsl"),
        source: wgpu::ShaderSource::Wgsl(Cow::Borrowed(ARRAY_ADDITION)),
    };

    // Define our task and input our buffers.
    let task = TaskBuilder::new(&mut workgroup, shader)
        .with_kernel("main")
        // The shader is defined with workgroup size (256, 1, 1), so 4 * 256 invocations is
        // enough to cover the length of our data (1024)
        .with_size((4, 1, 1))
        .with_input_buffer(0, ibuf1, PartitionMode::Unmanaged)
        .with_input_buffer(1, ibuf2, PartitionMode::Unmanaged)
        .with_output_buffer(2, obuf1, PartitionMode::Unmanaged)
        .build()
        .expect("Failed to build task");

    // Every device computes over the whole range.
    let readbacks: Vec<Vec<Vec<u8>>> = task.plans.iter().map(add_arrays).collect();
    assert_eq!(readbacks.len(), 2);

    // Gather what the devices handed back.
    task.run(&readbacks);

    // Take ownership of the buffer from the runtime.
    let obuf1: Vec<u32> = to_words(
        &workgroup
            .take_vbuffer(obuf1, TypeId::of::<u32>())
            .unwrap()
            .into_bytes(),
    );

    assert_eq!(obuf1, vec![5u32; 1024]);
}
