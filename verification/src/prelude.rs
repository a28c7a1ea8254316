//! The names that most callers need.

pub use crate::task::PartitionMode;
pub use crate::task::Task;
pub use crate::task::TaskBuilder;
pub use crate::vbuffer::VBuffer;
pub use crate::vdevice::VDevice;
pub use crate::workgroup::VBufferHandle;
pub use crate::workgroup::Workgroup;
