//! The slot map that keeps the buffers of a session.
//!
//! The map itself is `slotmap::SlotMap`. This module names what it holds and
//! states, for each of its operations that the library calls, what the
//! operation does to that content.

use crate::vbuffer::VBuffer;
use slotmap::DefaultKey;
use slotmap::SlotMap;
use vstd::prelude::*;

verus! {

/// `slotmap::DefaultKey`: the key under which a slot map keeps a value.
#[verifier::external_type_specification]
#[verifier::external_body]
pub struct ExDefaultKey(DefaultKey);

/// An opaque, possibly stale reference to a buffer of a session. It never
/// implies ownership. The default handle refers to no buffer of any session.
#[derive(Clone, Copy, Debug, Default, PartialEq, Eq, PartialOrd, Ord, Hash)]
pub struct VBufferHandle {
    key: DefaultKey,
}

/// A `SlotMap` from handles to buffers.
#[verifier::external_body]
pub struct BufferStore {
    slots: SlotMap<DefaultKey, VBuffer>,
}

/// The buffers that a store holds, each under its handle.
pub uninterp spec fn store_contents(store: BufferStore) -> Map<VBufferHandle, VBuffer>;

/// The number of buffers that a store can hold at a time.
pub const STORE_CAPACITY: usize = 0xffff_fffe;

/// `SlotMap::new`: a map that holds nothing.
#[verifier::external_body]
pub(crate) fn store_new() -> (made: BufferStore)
    ensures
        store_contents(made).dom() == Set::<VBufferHandle>::empty(),
{
    BufferStore { slots: SlotMap::new() }
}

/// `SlotMap::len`: the number of values held.
#[verifier::external_body]
pub(crate) fn store_len(store: &BufferStore) -> (count: usize)
    ensures
        count == store_contents(*store).len(),
{
    store.slots.len()
}

/// `SlotMap::insert`: the value is added under a key that the map did not
/// hold; nothing else changes. The call panics on a full map, which the
/// precondition leaves out.
#[verifier::external_body]
pub(crate) fn store_insert(store: &mut BufferStore, buffer: VBuffer) -> (handle: VBufferHandle)
    requires
        store_contents(*old(store)).len() < STORE_CAPACITY,
    ensures
        !store_contents(*old(store)).dom().contains(handle),
        store_contents(*final(store)) == store_contents(*old(store)).insert(handle, buffer),
{
    VBufferHandle { key: store.slots.insert(buffer) }
}

/// `SlotMap::remove`: the value under the key leaves the map and is
/// returned; a key that the map does not hold changes nothing.
#[verifier::external_body]
pub(crate) fn store_remove(store: &mut BufferStore, handle: VBufferHandle) -> (taken: Option<VBuffer>)
    ensures
        store_contents(*final(store)) == store_contents(*old(store)).remove(handle),
        taken == (if store_contents(*old(store)).dom().contains(handle) {
            Some(store_contents(*old(store))[handle])
        } else {
            None
        }),
{
    store.slots.remove(handle.key)
}

/// `SlotMap::get`: the value under the key, if the map holds the key.
#[verifier::external_body]
pub(crate) fn store_get(store: &BufferStore, handle: VBufferHandle) -> (found: Option<&VBuffer>)
    ensures
        found == (if store_contents(*store).dom().contains(handle) {
            Some(&store_contents(*store)[handle])
        } else {
            None
        }),
{
    store.slots.get(handle.key)
}

/// `SlotMap::get_mut`: the value under the key, if the map holds the key.
/// When the borrow ends, the map holds what was left behind it and is
/// otherwise as before.
#[verifier::external_body]
pub(crate) fn store_get_mut(store: &mut BufferStore, handle: VBufferHandle) -> (found: Option<&mut VBuffer>)
    ensures
        match found {
            Some(slot) => store_contents(*old(store)).dom().contains(handle)
                && *slot == store_contents(*old(store))[handle]
                && store_contents(*final(store)) == store_contents(*old(store)).insert(handle, *final(slot)),
            None => !store_contents(*old(store)).dom().contains(handle)
                && store_contents(*final(store)) == store_contents(*old(store)),
        },
{
    store.slots.get_mut(handle.key)
}

} // verus!
