//! Host-owned, type-tagged blocks of fixed-layout records.

use std::any::TypeId;
use vstd::prelude::*;

verus! {

/// `std::any::TypeId`: the runtime tag of a type.
#[verifier::external_type_specification]
#[verifier::external_body]
pub struct ExTypeId(TypeId);

/// `TypeId`'s `==`: two tags are equal exactly when they stand for the same
/// type.
#[verifier::external_body]
pub(crate) fn same_type(left: TypeId, right: TypeId) -> (same: bool)
    ensures
        same == (left == right),
{
    left == right
}

/// What a buffer is to a specification: its tag, its layout and its bytes.
pub struct Block {
    pub typeid: TypeId,
    pub stride: nat,
    pub length: nat,
    pub bytes: Seq<u8>,
}

/// A contiguous block of `length` records of `stride` bytes each, tagged with
/// the type of the records. Every buffer holds exactly `stride * length`
/// bytes.
pub struct VBuffer {
    typeid: TypeId,
    stride: usize,
    length: usize,
    bytes: Vec<u8>,
}

/// `dst` with its first bytes replaced by those of `src`, as many as both
/// hold. The length of `dst` is kept.
pub open spec fn overlay(dst: Seq<u8>, src: Seq<u8>) -> Seq<u8> {
    Seq::new(dst.len(), |i: int| if i < src.len() { src[i] } else { dst[i] })
}

impl Block {
    /// This block after `src` was written over its start.
    pub open spec fn written(self, src: Seq<u8>) -> Block {
        Block { bytes: overlay(self.bytes, src), ..self }
    }
}

impl View for VBuffer {
    type V = Block;

    closed spec fn view(&self) -> Block {
        Block {
            typeid: self.typeid,
            stride: self.stride as nat,
            length: self.length as nat,
            bytes: self.bytes@,
        }
    }
}

impl VBuffer {
    #[verifier::type_invariant]
    spec fn layout(&self) -> bool {
        self.stride * self.length == self.bytes@.len()
    }

    /// Tags `bytes` as `length` records of `stride` bytes and of type
    /// `typeid`. The description is refused when it does not account for
    /// every byte.
    pub fn new(typeid: TypeId, stride: usize, length: usize, bytes: Vec<u8>) -> (made: Option<VBuffer>)
        ensures
            made is Some <==> stride * length == bytes@.len(),
            made matches Some(buffer) ==> buffer@ == (Block {
                typeid,
                stride: stride as nat,
                length: length as nat,
                bytes: bytes@,
            }),
    {
        let held = bytes.len();
        match stride.checked_mul(length) {
            Some(total) => {
                if total == held {
                    Some(VBuffer { typeid, stride, length, bytes })
                } else {
                    None
                }
            },
            None => None,
        }
    }

    /// The tag recorded at creation.
    pub fn typeid(&self) -> (tag: TypeId)
        ensures
            tag == self@.typeid,
    {
        self.typeid
    }

    /// The size of one record in bytes.
    pub fn stride(&self) -> (stride: usize)
        ensures
            stride == self@.stride,
    {
        self.stride
    }

    /// The number of records.
    pub fn length(&self) -> (length: usize)
        ensures
            length == self@.length,
    {
        self.length
    }

    /// The number of bytes that the records take.
    pub fn byte_len(&self) -> (total: usize)
        ensures
            total == self@.bytes.len(),
            total == self@.stride * self@.length,
    {
        proof {
            use_type_invariant(self);
        }
        self.bytes.len()
    }

    /// The raw bytes of the records.
    pub fn bytes(&self) -> (bytes: &Vec<u8>)
        ensures
            bytes@ == self@.bytes,
    {
        &self.bytes
    }

    /// Gives up the buffer for its raw bytes.
    pub fn into_bytes(self) -> (bytes: Vec<u8>)
        ensures
            bytes@ == self@.bytes,
    {
        self.bytes
    }

    /// Whether the records are of the type that `expect` stands for.
    pub fn holds(&self, expect: TypeId) -> (matches: bool)
        ensures
            matches == (self@.typeid == expect),
    {
        same_type(self.typeid, expect)
    }

    /// Copies the bytes of `src` over the start of the buffer, clamped to the
    /// shorter of the two. Tag and layout are untouched.
    pub fn write_clamped(&mut self, src: &[u8])
        ensures
            final(self)@ == old(self)@.written(src@),
    {
        proof {
            use_type_invariant(&*self);
        }
        let mut i: usize = 0;
        let copy_len: usize = if src.len() < self.bytes.len() { src.len() } else { self.bytes.len() };
        while i < copy_len
            invariant
                self.stride * self.length == self.bytes@.len(),
                i <= copy_len,
                copy_len <= src@.len(),
                copy_len <= self.bytes@.len(),
                self.bytes@.len() == old(self).bytes@.len(),
                self.typeid == old(self).typeid,
                self.stride == old(self).stride,
                self.length == old(self).length,
                forall|k: int| 0 <= k < i ==> self.bytes@[k] == src@[k],
                forall|k: int| i <= k < self.bytes@.len() ==> self.bytes@[k] == old(self).bytes@[k],
            decreases copy_len - i,
        {
            self.bytes[i] = src[i];
            i += 1;
        }
        assert(self.bytes@ =~= overlay(old(self)@.bytes, src@));
    }
}

} // verus!
