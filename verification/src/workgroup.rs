//! A session: the devices it dispatches to and the buffers it owns.

use crate::store::store_contents;
use crate::store::store_get;
use crate::store::store_get_mut;
use crate::store::store_insert;
use crate::store::store_len;
use crate::store::store_new;
use crate::store::store_remove;
use crate::store::BufferStore;
use crate::store::STORE_CAPACITY;
pub use crate::store::VBufferHandle;
use crate::vbuffer::Block;
use crate::vbuffer::VBuffer;
use crate::vdevice::VDevice;
use std::any::TypeId;
use vstd::prelude::*;

verus! {

/// The owner of a device set and of the buffers registered with it.
pub struct Workgroup {
    vdevices: Vec<VDevice>,
    vbuffers: BufferStore,
}

/// What `take_vbuffer` hands out of `buffers`: the block under `handle`,
/// where there is one and it is tagged `expect`.
pub open spec fn taken(buffers: Map<VBufferHandle, Block>, handle: VBufferHandle, expect: TypeId) -> Option<Block> {
    if buffers.dom().contains(handle) && buffers[handle].typeid == expect {
        Some(buffers[handle])
    } else {
        None
    }
}

/// What `take_vbuffer` leaves of `buffers`.
pub open spec fn after_take(buffers: Map<VBufferHandle, Block>, handle: VBufferHandle, expect: TypeId) -> Map<VBufferHandle, Block> {
    if taken(buffers, handle, expect) is Some {
        buffers.remove(handle)
    } else {
        buffers
    }
}

/// `buffers` after `bytes` were written over the start of the block under
/// `handle`. A handle without a block changes nothing.
pub open spec fn delivered(buffers: Map<VBufferHandle, Block>, handle: VBufferHandle, bytes: Seq<u8>) -> Map<VBufferHandle, Block> {
    if buffers.dom().contains(handle) {
        buffers.insert(handle, buffers[handle].written(bytes))
    } else {
        buffers
    }
}

impl Workgroup {
    /// The devices of the session, in dispatch order.
    pub closed spec fn devices(&self) -> Seq<VDevice> {
        self.vdevices@
    }

    /// The buffers that the session owns, each under its handle.
    pub closed spec fn buffers(&self) -> Map<VBufferHandle, Block> {
        store_contents(self.vbuffers).map_values(|buffer: VBuffer| buffer@)
    }

    /// Starts a session on `devices`, in the order given, with no buffer.
    pub fn from_devices(devices: Vec<VDevice>) -> (session: Workgroup)
        ensures
            session.devices() == devices@,
            session.buffers() == Map::<VBufferHandle, Block>::empty(),
    {
        let session = Workgroup { vdevices: devices, vbuffers: store_new() };
        assert(session.buffers() =~= Map::<VBufferHandle, Block>::empty());
        session
    }

    /// The devices of the session, in dispatch order.
    pub fn vdevices(&self) -> (devices: &Vec<VDevice>)
        ensures
            devices@ == self.devices(),
    {
        &self.vdevices
    }

    /// The number of buffers that the session owns.
    pub fn vbuffer_count(&self) -> (count: usize)
        ensures
            count == self.buffers().len(),
    {
        let count = store_len(&self.vbuffers);
        proof {
            lemma_len_of_models(store_contents(self.vbuffers));
        }
        count
    }

    /// Registers `buffer` with the session, which takes ownership of it, and
    /// returns a fresh handle to it.
    pub fn create_vbuffer(&mut self, buffer: VBuffer) -> (handle: VBufferHandle)
        requires
            old(self).buffers().len() < STORE_CAPACITY,
        ensures
            !old(self).buffers().dom().contains(handle),
            final(self).buffers() == old(self).buffers().insert(handle, buffer@),
            final(self).devices() == old(self).devices(),
    {
        proof {
            lemma_len_of_models(store_contents(self.vbuffers));
        }
        let handle = store_insert(&mut self.vbuffers, buffer);
        assert(self.buffers() =~= old(self).buffers().insert(handle, buffer@));
        handle
    }

    /// Registers `buffer` as `create_vbuffer` does, unless the session is
    /// full: then the buffer comes back and nothing changes.
    pub fn try_create_vbuffer(&mut self, buffer: VBuffer) -> (outcome: Result<VBufferHandle, VBuffer>)
        ensures
            final(self).devices() == old(self).devices(),
            match outcome {
                Ok(handle) => {
                    &&& old(self).buffers().len() < STORE_CAPACITY
                    &&& !old(self).buffers().dom().contains(handle)
                    &&& final(self).buffers() == old(self).buffers().insert(handle, buffer@)
                },
                Err(returned) => {
                    &&& old(self).buffers().len() >= STORE_CAPACITY
                    &&& returned == buffer
                    &&& final(self).buffers() == old(self).buffers()
                },
            },
    {
        if self.vbuffer_count() < STORE_CAPACITY {
            Ok(self.create_vbuffer(buffer))
        } else {
            Err(buffer)
        }
    }

    /// The buffer behind `handle`, if the session owns one.
    pub fn vbuffer(&self, handle: VBufferHandle) -> (found: Option<&VBuffer>)
        ensures
            found is Some <==> self.buffers().dom().contains(handle),
            found matches Some(buffer) ==> buffer@ == self.buffers()[handle],
    {
        store_get(&self.vbuffers, handle)
    }

    /// Writes `bytes` over the start of the buffer behind `handle`, clamped
    /// to the shorter of the two. A stale handle is passed over.
    pub(crate) fn write_vbuffer(&mut self, handle: VBufferHandle, bytes: &[u8])
        ensures
            final(self).devices() == old(self).devices(),
            final(self).buffers() == delivered(old(self).buffers(), handle, bytes@),
    {
        match store_get_mut(&mut self.vbuffers, handle) {
            Some(slot) => {
                slot.write_clamped(bytes);
            },
            None => {},
        }
        assert(self.buffers() =~= delivered(old(self).buffers(), handle, bytes@));
    }

    /// Hands the buffer behind `handle` back to the caller, provided its
    /// records are of the type that `expect` stands for. On a stale handle or
    /// another type nothing is returned and the session is unchanged.
    pub fn take_vbuffer(&mut self, handle: VBufferHandle, expect: TypeId) -> (buffer: Option<VBuffer>)
        ensures
            final(self).devices() == old(self).devices(),
            final(self).buffers() == after_take(old(self).buffers(), handle, expect),
            buffer is Some <==> taken(old(self).buffers(), handle, expect) is Some,
            buffer matches Some(b) ==> Some(b@) == taken(old(self).buffers(), handle, expect),
    {
        let matches = match store_get(&self.vbuffers, handle) {
            Some(held) => held.holds(expect),
            None => false,
        };
        if matches {
            let buffer = store_remove(&mut self.vbuffers, handle);
            assert(self.buffers() =~= old(self).buffers().remove(handle));
            buffer
        } else {
            None
        }
    }
}

/// Taking the view of every value keeps the number of entries.
proof fn lemma_len_of_models(held: Map<VBufferHandle, VBuffer>)
    ensures
        held.map_values(|buffer: VBuffer| buffer@).len() == held.len(),
{
    assert(held.map_values(|buffer: VBuffer| buffer@).dom() =~= held.dom());
}

} // verus!
