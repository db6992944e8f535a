//! An in-memory backing store with the shape of a raw block device.
//!
//! The write pipeline and the read-back verifier run against this model:
//! a fixed capacity, strictly sequential access from offset 0, a no-space
//! condition when a write passes the end, and an end-of-device condition
//! when a read does.  The binary around the library drives the same logic
//! against a real device file instead.

use vstd::prelude::*;

verus! {

/// Outcome of writing one buffer to the store.
#[derive(Clone, Copy, Debug, PartialEq, Eq, Structural)]
pub enum WriteOutcome {
    /// The whole buffer fit and was written.
    Written,
    /// Capacity was exhausted: only a prefix, possibly empty, fit.  On a
    /// raw device this is the "no space left" condition, the expected
    /// terminus of the write phase.
    NoSpace,
}

/// A fixed-capacity byte store with a sequential cursor.
pub struct BackingStore {
    data: Vec<u8>,
    cursor: usize,
}

impl BackingStore {
    /// The bytes the store holds; their number is the capacity.
    pub closed spec fn contents(self) -> Seq<u8> {
        self.data@
    }

    /// The capacity in bytes.
    pub open spec fn capacity(self) -> int {
        self.contents().len() as int
    }

    /// The position of the next sequential read or write.
    pub closed spec fn cursor_spec(self) -> int {
        self.cursor as int
    }

    /// The cursor never passes the end of the store.
    pub closed spec fn wf(self) -> bool {
        self.cursor <= self.data.len()
    }

    /// How many of `n` bytes offered at the cursor still fit.
    pub open spec fn fitting(self, n: int) -> int {
        if self.cursor_spec() + n <= self.capacity() {
            n
        } else {
            self.capacity() - self.cursor_spec()
        }
    }

    /// A store of `capacity` zeroed bytes, cursor at the start.
    pub fn new(capacity: usize) -> (r: Self)
        ensures
            r.wf(),
            r.capacity() == capacity,
            r.cursor_spec() == 0,
            r.contents() == Seq::new(capacity as nat, |i: int| 0u8),
    {
        BackingStore { data: zeroed(capacity), cursor: 0 }
    }

    /// A store holding the given bytes, cursor at the start.
    pub fn from_vec(data: Vec<u8>) -> (r: Self)
        ensures
            r.wf(),
            r.contents() == data@,
            r.cursor_spec() == 0,
    {
        BackingStore { data, cursor: 0 }
    }

    /// Moves the cursor back to offset 0, as reopening the device does.
    pub fn seek_start(&mut self)
        ensures
            final(self).wf(),
            final(self).contents() == old(self).contents(),
            final(self).cursor_spec() == 0,
    {
        self.cursor = 0;
    }

    /// Writes as much of `buf` at the cursor as the capacity admits.
    /// Reports `Written` exactly when the whole buffer fit; `NoSpace` is the
    /// capacity-exhaustion terminus, after which the store is full.
    pub fn write_all(&mut self, buf: &Vec<u8>) -> (r: WriteOutcome)
        requires
            old(self).wf(),
        ensures
            final(self).wf(),
            final(self).capacity() == old(self).capacity(),
            r == WriteOutcome::Written <==> old(self).cursor_spec() + buf.len() <= old(
                self,
            ).capacity(),
            final(self).cursor_spec() == old(self).cursor_spec() + old(self).fitting(
                buf.len() as int,
            ),
            final(self).contents() == old(self).contents().take(old(self).cursor_spec())
                + buf@.take(old(self).fitting(buf.len() as int)) + old(self).contents().skip(
                old(self).cursor_spec() + old(self).fitting(buf.len() as int),
            ),
    {
        let room = self.data.len() - self.cursor;
        let w = if buf.len() <= room {
            buf.len()
        } else {
            room
        };
        let cursor = self.cursor;
        copy_prefix(&mut self.data, cursor, buf, w);
        self.cursor = self.cursor + w;
        if w == buf.len() && buf.len() <= room {
            WriteOutcome::Written
        } else {
            WriteOutcome::NoSpace
        }
    }

    /// Reads exactly `n` bytes at the cursor, or reports end-of-device,
    /// leaving the cursor in place, when fewer than `n` bytes remain.
    pub fn read_exact(&mut self, n: usize) -> (r: Option<Vec<u8>>)
        requires
            old(self).wf(),
        ensures
            final(self).wf(),
            final(self).contents() == old(self).contents(),
            old(self).cursor_spec() + n <= old(self).capacity() ==> {
                &&& r matches Some(b) && b@ == old(self).contents().subrange(
                    old(self).cursor_spec(),
                    old(self).cursor_spec() + n,
                )
                &&& final(self).cursor_spec() == old(self).cursor_spec() + n
            },
            old(self).cursor_spec() + n > old(self).capacity() ==> {
                &&& r is None
                &&& final(self).cursor_spec() == old(self).cursor_spec()
            },
    {
        if n > self.data.len() - self.cursor {
            return None;
        }
        let mut out: Vec<u8> = Vec::new();
        let mut j: usize = 0;
        while j < n
            invariant
                j <= n,
                self.cursor + n <= self.data.len(),
                out@ =~= self.data@.subrange(self.cursor as int, self.cursor as int + j as int),
            decreases n - j,
        {
            out.push(self.data[self.cursor + j]);
            j = j + 1;
        }
        self.cursor = self.cursor + n;
        Some(out)
    }

    /// The capacity in bytes.
    pub fn capacity_bytes(&self) -> (r: usize)
        ensures
            r == self.capacity(),
    {
        self.data.len()
    }

    /// The byte at `index`, without touching the cursor.
    pub fn get_byte(&self, index: usize) -> (r: u8)
        requires
            index < self.capacity(),
        ensures
            r == self.contents()[index as int],
    {
        self.data[index]
    }

    /// Overwrites the byte at `index`, leaving the cursor alone: the fault
    /// injection a corruption test performs on the medium.
    pub fn set_byte(&mut self, index: usize, value: u8)
        requires
            old(self).wf(),
            index < old(self).capacity(),
        ensures
            final(self).wf(),
            final(self).cursor_spec() == old(self).cursor_spec(),
            final(self).contents() == old(self).contents().update(index as int, value),
    {
        self.data.set(index, value);
    }
}

/// A fresh buffer of `n` zeroed bytes.
pub(crate) fn zeroed(n: usize) -> (r: Vec<u8>)
    ensures
        r@ == Seq::new(n as nat, |i: int| 0u8),
{
    let mut data: Vec<u8> = Vec::new();
    while data.len() < n
        invariant
            data.len() <= n,
            forall|i: int| 0 <= i < data.len() ==> data@[i] == 0u8,
        decreases n - data.len(),
    {
        data.push(0u8);
    }
    proof {
        assert(data@ =~= Seq::new(n as nat, |i: int| 0u8));
    }
    data
}

/// Copies the first `n` bytes of `src` into `dst` starting at `off`.
fn copy_prefix(dst: &mut Vec<u8>, off: usize, src: &Vec<u8>, n: usize)
    requires
        n <= src.len(),
        off + n <= old(dst).len(),
    ensures
        final(dst).len() == old(dst).len(),
        final(dst)@ == old(dst)@.take(off as int) + src@.take(n as int) + old(dst)@.skip(
            off as int + n as int,
        ),
{
    let mut j: usize = 0;
    while j < n
        invariant
            j <= n,
            n <= src.len(),
            off + n <= old(dst).len(),
            dst.len() == old(dst).len(),
            dst@ == old(dst)@.take(off as int) + src@.take(j as int) + old(dst)@.skip(
                off as int + j as int,
            ),
        decreases n - j,
    {
        dst.set(off + j, src[j]);
        proof {
            assert(dst@ =~= old(dst)@.take(off as int) + src@.take(j as int + 1) + old(dst)@.skip(
                off as int + j as int + 1,
            ));
        }
        j = j + 1;
    }
}

} // verus!
