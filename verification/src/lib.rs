//! Dispatch of one compute kernel across every local compute device, with
//! host-owned buffers behind handles.
//!
//! The library decides; it does not drive hardware. It picks the adapters to
//! open, keeps the buffers of a session, plans what each device has to
//! create and record for a dispatch, orders the steps of a run, and gathers
//! the bytes that the devices hand back.

pub mod features;
pub mod laws;
pub mod plan;
pub mod prelude;
pub mod store;
pub mod task;
pub mod util;
pub mod vbuffer;
pub mod vdevice;
pub mod workgroup;

pub use wgpu::Features;
