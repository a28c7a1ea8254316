//! A bounds-checked cursor for writing into caller-owned bytes.

use vstd::prelude::*;

verus! {

/// The error of a write that the view has no room for.
#[derive(Clone, Copy, Debug, PartialEq, Eq, Structural)]
pub struct CapacityExceeded;

/// A cursor over a mutable byte view. Writes land one after another, from
/// the start of the view, and never past its end.
pub struct SlicePointerWriter<'a> {
    pub target: &'a mut [u8],
    pub head: usize,
}

impl<'a> SlicePointerWriter<'a> {
    /// A cursor at the start of `slice`.
    pub fn from_slice(slice: &'a mut [u8]) -> (writer: SlicePointerWriter<'a>)
        ensures
            writer.head == 0,
            writer.target@ == old(slice)@,
            final(writer.target)@ == final(slice)@,
    {
        SlicePointerWriter { target: slice, head: 0 }
    }

    /// Writes `slice` at the cursor and moves the cursor past it. Where the
    /// view has no room for all of `slice`, nothing is written and the
    /// capacity error is returned.
    pub fn write(&mut self, slice: &[u8]) -> (outcome: Result<(), CapacityExceeded>)
        ensures
            final(final(self).target)@ == final(old(self).target)@,
            outcome is Ok <==> old(self).head + slice@.len() <= old(self).target@.len(),
            outcome is Ok ==> final(self).head == old(self).head + slice@.len(),
            outcome is Ok ==> final(self).target@ == old(self).target@.subrange(0, old(self).head as int)
                + slice@ + old(self).target@.subrange(
                old(self).head + slice@.len(),
                old(self).target@.len() as int,
            ),
            outcome is Err ==> final(self).head == old(self).head,
            outcome is Err ==> final(self).target@ == old(self).target@,
    {
        if self.head > self.target.len() || slice.len() > self.target.len() - self.head {
            return Err(CapacityExceeded);
        }
        let mut i: usize = 0;
        while i < slice.len()
            invariant
                i <= slice@.len(),
                self.head == old(self).head,
                self.head + slice@.len() <= self.target@.len(),
                self.target@.len() == old(self).target@.len(),
                self.target@.len() <= usize::MAX,
                final(self.target)@ == final(old(self).target)@,
                forall|k: int| 0 <= k < self.head ==> self.target@[k] == old(self).target@[k],
                forall|k: int| 0 <= k < i ==> self.target@[self.head + k] == slice@[k],
                forall|k: int| self.head + i <= k < self.target@.len() ==> self.target@[k] == old(self).target@[k],
            decreases slice@.len() - i,
        {
            self.target[self.head + i] = slice[i];
            i += 1;
        }
        self.head = self.head + slice.len();
        assert(self.target@ =~= old(self).target@.subrange(0, old(self).head as int) + slice@ + old(
            self,
        ).target@.subrange(old(self).head + slice@.len(), old(self).target@.len() as int));
        Ok(())
    }
}

} // verus!
