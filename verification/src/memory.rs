//! Memory: a plain append-only byte store with allocate and dereference but
//! no validate; an earlier, narrower cut of the same bump-allocator design as
//! `Region`, kept for callers that need nothing more.

use vstd::prelude::*;
use crate::region::window_in_bounds;
use crate::typing::{Reference, Value};

verus! {

/// An append-only byte buffer with allocate and dereference only.
pub struct Memory {
    raw: Vec<u8>,
}

impl View for Memory {
    type V = Seq<u8>;

    closed spec fn view(&self) -> Seq<u8> {
        self.raw@
    }
}

impl Memory {
    /// Number of bytes stored so far.
    pub fn len(&self) -> (n: usize)
        ensures
            n == self@.len(),
    {
        self.raw.len()
    }

    /// True when no byte has been allocated yet.
    pub fn is_empty(&self) -> (b: bool)
        ensures
            b == (self@.len() == 0),
    {
        self.raw.is_empty()
    }

    /// Appends the value's bytes and returns a reference to where they start.
    pub fn allocate(&mut self, cell: Value) -> (r: Reference)
        ensures
            final(self)@ == old(self)@ + cell.bytes@,
            r.address == old(self)@.len(),
            r.referenced == cell.typ,
    {
        let address = self.raw.len();
        let Value { typ, bytes } = cell;
        let mut bytes = bytes;
        self.raw.append(&mut bytes);
        Reference { referenced: typ, address }
    }

    /// Reads back the byte window the reference describes; `None` when the
    /// window reaches past the end of the buffer.
    pub fn dereference(&self, reference: Reference) -> (r: Option<Value>)
        ensures
            r is Some <==> window_in_bounds(self@, reference.address, reference.referenced.size),
            r matches Some(v) ==> {
                &&& v.typ == reference.referenced
                &&& v.bytes@ == self@.subrange(
                    reference.address as int,
                    reference.address + reference.referenced.size,
                )
                &&& v.wf()
            },
    {
        let start = reference.address;
        let size = reference.referenced.size;
        let n = self.raw.len();
        if start > n || size > n - start {
            return None;
        }
        let mut out: Vec<u8> = Vec::new();
        let mut i: usize = 0;
        while i < size
            invariant
                i <= size,
                start + size <= n,
                n == self.raw@.len(),
                out@ =~= self.raw@.subrange(start as int, start + i),
            decreases size - i,
        {
            out.push(self.raw[start + i]);
            proof {
                assert(out@ =~= self.raw@.subrange(start as int, start + i + 1));
            }
            i += 1;
        }
        Some(Value { typ: reference.referenced, bytes: out })
    }
}

impl Default for Memory {
    /// A fresh, empty store.
    fn default() -> (m: Memory)
        ensures
            m@ == Seq::<u8>::empty(),
    {
        Memory { raw: Vec::new() }
    }
}

impl Clone for Memory {
    fn clone(&self) -> (m: Self)
        ensures
            m@ == self@,
    {
        Memory { raw: vstd::slice::slice_to_vec(self.raw.as_slice()) }
    }
}

} // verus!
