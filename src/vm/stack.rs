//! The memory region of the virtual machine: a fixed-size byte buffer with
//! checked, unaligned typed access.
use vstd::prelude::*;

use super::Fault;
use super::metadata::{Pod, pod_width};
use super::pod::{Value, value_of_bytes};

verus! {

/// Whether a value of type `pod` at `offset` lies inside a region of `len` bytes.
pub open spec fn fits(len: int, offset: int, pod: Pod) -> bool {
    0 <= offset && offset + pod_width(pod) <= len
}

/// Reading a value of type `pod` at `offset` from `mem`.
pub open spec fn read_spec(mem: Seq<u8>, offset: int, pod: Pod) -> Result<Value, Fault> {
    if fits(mem.len() as int, offset, pod) {
        Ok(value_of_bytes(pod, mem.subrange(offset, offset + pod_width(pod))))
    } else {
        Err(Fault::MemoryFault)
    }
}

/// Writing the encoding of `v` at `offset` into `mem`.
pub open spec fn write_spec(mem: Seq<u8>, offset: int, v: Value) -> Result<Seq<u8>, Fault> {
    let w = pod_width(v.spec_pod());
    if fits(mem.len() as int, offset, v.spec_pod()) {
        Ok(mem.subrange(0, offset) + v.spec_bytes() + mem.subrange(offset + w, mem.len() as int))
    } else {
        Err(Fault::MemoryFault)
    }
}

/// A fixed-size, zero-initialised byte buffer.
#[derive(Debug)]
pub(crate) struct Stack {
    pub(crate) bytes: Vec<u8>,
}

impl Stack {
    pub(crate) open spec fn view(&self) -> Seq<u8> {
        self.bytes@
    }

    /// A region of `size` zero bytes.
    pub(crate) fn new(size: usize) -> (r: Self)
        ensures
            r@ == Seq::new(size as nat, |i: int| 0u8),
    {
        let bytes = vec![0u8; size];
        assert(bytes@ =~= Seq::new(size as nat, |i: int| 0u8));
        Stack { bytes }
    }

    /// Reads a value of type `pod` at `offset`.
    pub(crate) fn read_at(&self, pod: Pod, offset: usize) -> (r: Result<Value, Fault>)
        ensures
            r == read_spec(self@, offset as int, pod),
    {
        let w = pod.width();
        let len = self.bytes.len();
        if offset > len || w > len - offset {
            return Err(Fault::MemoryFault);
        }
        let s = vstd::slice::slice_subrange(self.bytes.as_slice(), offset, offset + w);
        Ok(Value::from_bytes(pod, s))
    }

    /// Writes the encoding of `v` at `offset`; on a fault the region is unchanged.
    pub(crate) fn write_at(&mut self, offset: usize, v: Value) -> (r: Result<(), Fault>)
        ensures
            match write_spec(old(self)@, offset as int, v) {
                Ok(m) => r is Ok && final(self)@ == m,
                Err(e) => r == Err::<(), Fault>(e) && final(self)@ == old(self)@,
            },
    {
        let w = v.pod().width();
        let len = self.bytes.len();
        if offset > len || w > len - offset {
            return Err(Fault::MemoryFault);
        }
        let enc = v.to_bytes();
        let ghost old_mem = self@;
        let mut i: usize = 0;
        while i < w
            invariant
                w == enc@.len(),
                offset + w <= len,
                len == old_mem.len(),
                i <= w,
                self@ == old_mem.subrange(0, offset as int) + enc@.subrange(0, i as int)
                    + old_mem.subrange(offset + i, len as int),
            decreases w - i,
        {
            self.bytes.set(offset + i, enc[i]);
            i = i + 1;
            assert(self@ =~= old_mem.subrange(0, offset as int) + enc@.subrange(0, i as int)
                + old_mem.subrange(offset + i, len as int));
        }
        assert(enc@.subrange(0, w as int) =~= enc@);
        Ok(())
    }
}

} // verus!
