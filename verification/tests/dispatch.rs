use std::any::TypeId;
use std::borrow::Cow;
use wisc::plan::BufferPlan;
use wisc::plan::BufferUse;
use wisc::plan::Command;
use wisc::plan::DevicePlan;
use wisc::plan::Readback;
use wisc::prelude::PartitionMode;
use wisc::prelude::TaskBuilder;
use wisc::prelude::VBuffer;
use wisc::prelude::VBufferHandle;
use wisc::prelude::VDevice;
use wisc::prelude::Workgroup;
use wisc::task::Step;
use wisc::vdevice::Adapter;
use wisc::vdevice::Backend;
use wisc::vdevice::DeviceType;
use wisc::Features;

fn shader() -> wgpu::ShaderModuleDescriptor<'static> {
    wgpu::ShaderModuleDescriptor {
        label: None,
        source: wgpu::ShaderSource::Wgsl(Cow::Borrowed("@compute @workgroup_size(1) fn main() {}")),
    }
}

fn device(id: u32, features: Features) -> VDevice {
    let adapter = Adapter {
        name: format!("adapter {}", id),
        vendor: 1,
        device: id,
        device_type: DeviceType::IntegratedGpu,
        backend: Backend::Vulkan,
        compute_shaders: true,
        features,
        max_compute_invocations_per_workgroup: 256,
        max_buffer_size: 1 << 28,
    };
    VDevice::opened(&adapter, features)
}

fn plain(id: u32) -> VDevice {
    device(id, Features::empty())
}

fn mappable(id: u32) -> VDevice {
    device(id, Features::MAPPABLE_PRIMARY_BUFFERS)
}

fn bytes_buffer(bytes: &[u8]) -> VBuffer {
    VBuffer::new(TypeId::of::<u8>(), 1, bytes.len(), bytes.to_vec()).unwrap()
}

fn held(workgroup: &Workgroup, handle: VBufferHandle) -> Vec<u8> {
    workgroup.vbuffer(handle).unwrap().bytes().clone()
}

#[test]
fn a_task_needs_kernel_grid_and_live_handles() {
    let mut workgroup = Workgroup::from_devices(vec![plain(1)]);
    let input = workgroup.create_vbuffer(bytes_buffer(&[1, 2]));
    let output = workgroup.create_vbuffer(bytes_buffer(&[0, 0]));
    let gone = workgroup.create_vbuffer(bytes_buffer(&[3]));
    workgroup.take_vbuffer(gone, TypeId::of::<u8>()).unwrap();

    let no_kernel = TaskBuilder::new(&mut workgroup, shader())
        .with_size((1, 1, 1))
        .with_input_buffer(0, input, PartitionMode::Unmanaged)
        .with_output_buffer(1, output, PartitionMode::Unmanaged)
        .build();
    assert!(no_kernel.is_none());

    let no_grid = TaskBuilder::new(&mut workgroup, shader())
        .with_kernel("main")
        .with_input_buffer(0, input, PartitionMode::Unmanaged)
        .with_output_buffer(1, output, PartitionMode::Unmanaged)
        .build();
    assert!(no_grid.is_none());

    let stale_input = TaskBuilder::new(&mut workgroup, shader())
        .with_kernel("main")
        .with_size((1, 1, 1))
        .with_input_buffer(0, input, PartitionMode::Unmanaged)
        .with_input_buffer(1, gone, PartitionMode::Unmanaged)
        .with_output_buffer(2, output, PartitionMode::Unmanaged)
        .build();
    assert!(stale_input.is_none());

    let stale_output = TaskBuilder::new(&mut workgroup, shader())
        .with_kernel("main")
        .with_size((1, 1, 1))
        .with_input_buffer(0, input, PartitionMode::Unmanaged)
        .with_output_buffer(1, output, PartitionMode::Unmanaged)
        .with_output_buffer(2, gone, PartitionMode::Unmanaged)
        .build();
    assert!(stale_output.is_none());

    let complete = TaskBuilder::new(&mut workgroup, shader())
        .with_kernel("main")
        .with_size((1, 1, 1))
        .with_input_buffer(0, input, PartitionMode::Unmanaged)
        .with_output_buffer(1, output, PartitionMode::Unmanaged)
        .build();
    assert!(complete.is_some());
    drop(complete);

    let nothing_bound = TaskBuilder::new(&mut workgroup, shader())
        .with_kernel("main")
        .with_workgroups(1, 2, 3)
        .build();
    assert!(nothing_bound.is_some());
    drop(nothing_bound);

    assert_eq!(held(&workgroup, input), vec![1, 2]);
    assert_eq!(held(&workgroup, output), vec![0, 0]);
}

#[test]
fn the_builder_records_what_it_is_given() {
    let mut workgroup = Workgroup::from_devices(Vec::new());
    let a = workgroup.create_vbuffer(bytes_buffer(&[1]));
    let b = workgroup.create_vbuffer(bytes_buffer(&[2]));
    let builder = TaskBuilder::new(&mut workgroup, shader());
    assert!(builder.kernel.is_none());
    assert!(builder.size.is_none());
    assert!(builder.input_buffers.is_empty());
    assert!(builder.output_buffers.is_empty());

    let builder = builder
        .with_kernel("first")
        .with_kernel("second")
        .with_size((4, 5, 6))
        .with_workgroups(7, 8, 9)
        .with_input_buffer(3, a, PartitionMode::Unmanaged)
        .with_input_buffer(1, b, PartitionMode::Unmanaged)
        .with_output_buffer(2, b, PartitionMode::Unmanaged);
    assert_eq!(builder.kernel.as_deref(), Some("second"));
    assert_eq!(builder.size, Some((7, 8, 9)));
    assert_eq!(
        builder.input_buffers,
        vec![(3, a, PartitionMode::Unmanaged), (1, b, PartitionMode::Unmanaged)]
    );
    assert_eq!(builder.output_buffers, vec![(2, b, PartitionMode::Unmanaged)]);

    let task = builder.build().unwrap();
    assert_eq!(task.kernel, "second");
    assert_eq!(task.size, (7, 8, 9));
    assert_eq!(task.output_buffers, vec![(2, b, PartitionMode::Unmanaged)]);
    assert!(task.plans.is_empty());
}

#[test]
fn a_device_without_mappable_memory_stages_every_output() {
    let mut workgroup = Workgroup::from_devices(vec![plain(1)]);
    let a = workgroup.create_vbuffer(bytes_buffer(&[1, 2, 3]));
    let b = workgroup.create_vbuffer(bytes_buffer(&[4, 5]));
    let r = workgroup.create_vbuffer(bytes_buffer(&[0, 0, 0, 0]));
    let s = workgroup.create_vbuffer(bytes_buffer(&[9]));

    let task = TaskBuilder::new(&mut workgroup, shader())
        .with_kernel("main")
        .with_size((2, 3, 4))
        .with_input_buffer(7, a, PartitionMode::Unmanaged)
        .with_input_buffer(5, b, PartitionMode::Unmanaged)
        .with_output_buffer(6, r, PartitionMode::Unmanaged)
        .with_output_buffer(0, s, PartitionMode::Unmanaged)
        .build()
        .unwrap();

    let input = BufferUse { storage: true, copy_src: false, copy_dst: false, map_read: false };
    let output = BufferUse { storage: true, copy_src: true, copy_dst: false, map_read: false };
    assert_eq!(BufferUse::input(), input);
    assert_eq!(BufferUse::output(false), output);
    assert_eq!(
        BufferUse::staging(),
        BufferUse { storage: false, copy_src: false, copy_dst: true, map_read: true }
    );
    assert_eq!(
        task.plans,
        vec![DevicePlan {
            buffers: vec![
                BufferPlan { binding: 7, read_only: true, usage: input, contents: vec![1, 2, 3] },
                BufferPlan { binding: 5, read_only: true, usage: input, contents: vec![4, 5] },
                BufferPlan { binding: 6, read_only: false, usage: output, contents: vec![0, 0, 0, 0] },
                BufferPlan { binding: 0, read_only: false, usage: output, contents: vec![9] },
            ],
            readbacks: vec![Readback::Staging { size: 4 }, Readback::Staging { size: 1 }],
            commands: vec![
                Command::Dispatch { x: 2, y: 3, z: 4 },
                Command::CopyBack { source: 2, readback: 0, size: 4 },
                Command::CopyBack { source: 3, readback: 1, size: 1 },
            ],
        }]
    );
}

#[test]
fn a_device_with_mappable_memory_reads_its_outputs_directly() {
    let mut workgroup = Workgroup::from_devices(vec![mappable(1), plain(2)]);
    let a = workgroup.create_vbuffer(bytes_buffer(&[1, 2, 3]));
    let r = workgroup.create_vbuffer(bytes_buffer(&[0, 0]));

    let task = TaskBuilder::new(&mut workgroup, shader())
        .with_kernel("main")
        .with_size((1, 1, 1))
        .with_input_buffer(0, a, PartitionMode::Unmanaged)
        .with_output_buffer(1, r, PartitionMode::Unmanaged)
        .build()
        .unwrap();

    assert_eq!(task.plans.len(), 2);
    let direct = &task.plans[0];
    assert_eq!(
        BufferUse::output(true),
        BufferUse { storage: true, copy_src: true, copy_dst: false, map_read: true }
    );
    assert_eq!(direct.buffers[0].usage, BufferUse::input());
    assert_eq!(direct.buffers[1].usage, BufferUse::output(true));
    assert_eq!(direct.readbacks, vec![Readback::Output { buffer: 1 }]);
    assert_eq!(direct.commands, vec![Command::Dispatch { x: 1, y: 1, z: 1 }]);

    let staged = &task.plans[1];
    assert_eq!(staged.buffers[1].usage, BufferUse::output(false));
    assert_eq!(staged.readbacks, vec![Readback::Staging { size: 2 }]);
    assert_eq!(
        staged.commands,
        vec![Command::Dispatch { x: 1, y: 1, z: 1 }, Command::CopyBack { source: 1, readback: 0, size: 2 }]
    );

    // Replication: every device is given the whole of every buffer.
    assert_eq!(direct.buffers[0].contents, vec![1, 2, 3]);
    assert_eq!(staged.buffers[0].contents, vec![1, 2, 3]);
    assert_eq!(direct.buffers[1].contents, vec![0, 0]);
    assert_eq!(staged.buffers[1].contents, vec![0, 0]);
    assert_eq!(PartitionMode::Unmanaged.materialize(&vec![1, 2, 3], 1, 2), vec![1, 2, 3]);
}

#[test]
fn the_steps_of_a_run_come_in_a_fixed_order() {
    let mut workgroup = Workgroup::from_devices(vec![plain(1), mappable(2)]);
    let a = workgroup.create_vbuffer(bytes_buffer(&[1]));
    let r = workgroup.create_vbuffer(bytes_buffer(&[0]));
    let s = workgroup.create_vbuffer(bytes_buffer(&[0]));

    let task = TaskBuilder::new(&mut workgroup, shader())
        .with_kernel("main")
        .with_size((1, 1, 1))
        .with_input_buffer(0, a, PartitionMode::Unmanaged)
        .with_output_buffer(1, r, PartitionMode::Unmanaged)
        .with_output_buffer(2, s, PartitionMode::Unmanaged)
        .build()
        .unwrap();

    assert_eq!(
        task.schedule(),
        vec![
            Step::Submit { device: 0 },
            Step::Submit { device: 1 },
            Step::RequestMap { device: 0, readback: 0 },
            Step::RequestMap { device: 0, readback: 1 },
            Step::RequestMap { device: 1, readback: 0 },
            Step::RequestMap { device: 1, readback: 1 },
            Step::WaitIdle { device: 0 },
            Step::WaitIdle { device: 1 },
            Step::AwaitMap { device: 0, readback: 0 },
            Step::AwaitMap { device: 0, readback: 1 },
            Step::AwaitMap { device: 1, readback: 0 },
            Step::AwaitMap { device: 1, readback: 1 },
            Step::Read { device: 0, readback: 0 },
            Step::Read { device: 0, readback: 1 },
            Step::Read { device: 1, readback: 0 },
            Step::Read { device: 1, readback: 1 },
        ]
    );
}

#[test]
fn a_task_without_outputs_only_submits_and_waits() {
    let mut workgroup = Workgroup::from_devices(vec![plain(1), plain(2)]);
    let a = workgroup.create_vbuffer(bytes_buffer(&[1]));
    let task = TaskBuilder::new(&mut workgroup, shader())
        .with_kernel("main")
        .with_size((1, 1, 1))
        .with_input_buffer(0, a, PartitionMode::Unmanaged)
        .build()
        .unwrap();
    assert_eq!(
        task.schedule(),
        vec![
            Step::Submit { device: 0 },
            Step::Submit { device: 1 },
            Step::WaitIdle { device: 0 },
            Step::WaitIdle { device: 1 },
        ]
    );
    task.run(&vec![Vec::new(), Vec::new()]);
    assert_eq!(held(&workgroup, a), vec![1]);
}

#[test]
fn without_devices_nothing_is_done() {
    let mut workgroup = Workgroup::from_devices(Vec::new());
    let a = workgroup.create_vbuffer(bytes_buffer(&[1, 2]));
    let r = workgroup.create_vbuffer(bytes_buffer(&[3, 4]));

    let task = TaskBuilder::new(&mut workgroup, shader())
        .with_kernel("main")
        .with_size((1, 1, 1))
        .with_input_buffer(0, a, PartitionMode::Unmanaged)
        .with_output_buffer(1, r, PartitionMode::Unmanaged)
        .build()
        .unwrap();
    assert!(task.plans.is_empty());
    assert_eq!(task.schedule(), Vec::<Step>::new());
    task.run(&Vec::new());
    assert_eq!(held(&workgroup, a), vec![1, 2]);
    assert_eq!(held(&workgroup, r), vec![3, 4]);

    // Bytes that no device of the session can have produced go nowhere.
    let task = TaskBuilder::new(&mut workgroup, shader())
        .with_kernel("main")
        .with_size((1, 1, 1))
        .with_output_buffer(1, r, PartitionMode::Unmanaged)
        .build()
        .unwrap();
    task.run(&vec![vec![vec![9, 9]]]);
    assert_eq!(held(&workgroup, r), vec![3, 4]);
    assert_eq!(workgroup.vbuffer_count(), 2);
}

#[test]
fn gathered_bytes_are_clamped() {
    let mut workgroup = Workgroup::from_devices(vec![plain(1)]);
    let short = workgroup.create_vbuffer(bytes_buffer(&[1, 2, 3, 4]));
    let long = workgroup.create_vbuffer(bytes_buffer(&[5, 6]));
    let exact = workgroup.create_vbuffer(bytes_buffer(&[7, 8, 9]));
    let untouched = workgroup.create_vbuffer(bytes_buffer(&[10, 11]));

    let task = TaskBuilder::new(&mut workgroup, shader())
        .with_kernel("main")
        .with_size((1, 1, 1))
        .with_output_buffer(0, short, PartitionMode::Unmanaged)
        .with_output_buffer(1, long, PartitionMode::Unmanaged)
        .with_output_buffer(2, exact, PartitionMode::Unmanaged)
        .build()
        .unwrap();
    task.run(&vec![vec![vec![20, 21], vec![30, 31, 32, 33], vec![40, 41, 42], vec![50, 51]]]);

    assert_eq!(held(&workgroup, short), vec![20, 21, 3, 4]);
    assert_eq!(held(&workgroup, long), vec![30, 31]);
    assert_eq!(held(&workgroup, exact), vec![40, 41, 42]);
    assert_eq!(held(&workgroup, untouched), vec![10, 11]);
    assert_eq!(workgroup.vbuffer(short).unwrap().length(), 4);
    assert_eq!(workgroup.vbuffer(long).unwrap().length(), 2);
}

#[test]
fn the_last_device_to_be_gathered_wins() {
    let mut workgroup = Workgroup::from_devices(vec![plain(1), plain(2), plain(3)]);
    let r = workgroup.create_vbuffer(bytes_buffer(&[0, 0, 0]));
    let task = TaskBuilder::new(&mut workgroup, shader())
        .with_kernel("main")
        .with_size((1, 1, 1))
        .with_output_buffer(0, r, PartitionMode::Unmanaged)
        .build()
        .unwrap();
    task.run(&vec![vec![vec![1, 1, 1]], vec![vec![2, 2, 2]], vec![vec![3, 3]]]);
    assert_eq!(held(&workgroup, r), vec![3, 3, 2]);
}

#[test]
fn the_last_output_bound_to_a_buffer_wins() {
    let mut workgroup = Workgroup::from_devices(vec![plain(1)]);
    let r = workgroup.create_vbuffer(bytes_buffer(&[0, 0]));
    let task = TaskBuilder::new(&mut workgroup, shader())
        .with_kernel("main")
        .with_size((1, 1, 1))
        .with_output_buffer(0, r, PartitionMode::Unmanaged)
        .with_output_buffer(1, r, PartitionMode::Unmanaged)
        .build()
        .unwrap();
    task.run(&vec![vec![vec![1, 1], vec![2, 2]]]);
    assert_eq!(held(&workgroup, r), vec![2, 2]);
}

fn doubled_by(devices: Vec<VDevice>, data: &[u8]) -> Vec<u8> {
    let count = devices.len();
    let mut workgroup = Workgroup::from_devices(devices);
    let input = workgroup.create_vbuffer(bytes_buffer(data));
    let output = workgroup.create_vbuffer(bytes_buffer(&vec![0; data.len()]));
    let task = TaskBuilder::new(&mut workgroup, shader())
        .with_kernel("main")
        .with_size((1, 1, 1))
        .with_input_buffer(0, input, PartitionMode::Unmanaged)
        .with_output_buffer(1, output, PartitionMode::Unmanaged)
        .build()
        .unwrap();
    assert_eq!(task.plans.len(), count);
    let readbacks: Vec<Vec<Vec<u8>>> = task
        .plans
        .iter()
        .map(|plan| vec![plan.buffers[0].contents.iter().map(|byte| byte.wrapping_mul(2)).collect()])
        .collect();
    task.run(&readbacks);
    assert_eq!(held(&workgroup, input), data.to_vec());
    workgroup.take_vbuffer(output, TypeId::of::<u8>()).unwrap().into_bytes()
}

#[test]
fn the_result_does_not_depend_on_the_number_of_devices() {
    let data = [1u8, 2, 3, 200, 0];
    let expected = vec![2u8, 4, 6, 144, 0];
    assert_eq!(doubled_by(vec![plain(1)], &data), expected);
    assert_eq!(doubled_by(vec![plain(1), mappable(2)], &data), expected);
    assert_eq!(doubled_by(vec![mappable(1), plain(2), plain(3), mappable(4)], &data), expected);
    assert_eq!(doubled_by(vec![plain(1)], &[]), Vec::<u8>::new());
}

#[test]
fn an_identity_kernel_round_trips() {
    let data: Vec<u8> = (0..=255).collect();
    let mut workgroup = Workgroup::from_devices(vec![plain(1), mappable(2)]);
    let tag = TypeId::of::<[u8; 4]>();
    let input = workgroup.create_vbuffer(VBuffer::new(tag, 4, 64, data.clone()).unwrap());
    let output = workgroup.create_vbuffer(VBuffer::new(tag, 4, 64, vec![0; 256]).unwrap());
    let task = TaskBuilder::new(&mut workgroup, shader())
        .with_kernel("main")
        .with_size((1, 1, 1))
        .with_input_buffer(0, input, PartitionMode::Unmanaged)
        .with_output_buffer(1, output, PartitionMode::Unmanaged)
        .build()
        .unwrap();
    let readbacks: Vec<Vec<Vec<u8>>> = task
        .plans
        .iter()
        .map(|plan| vec![plan.buffers[0].contents.clone()])
        .collect();
    task.run(&readbacks);

    let taken = workgroup.take_vbuffer(output, tag).unwrap();
    assert_eq!(taken.stride(), 4);
    assert_eq!(taken.length(), 64);
    assert_eq!(taken.typeid(), tag);
    assert_eq!(taken.into_bytes(), data);
}
