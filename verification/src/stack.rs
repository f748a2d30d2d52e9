//! Stack: a LIFO vector of regions, one per call frame; the engine for
//! frame-local storage. Unlike heap generations, frame levels are positional
//! and are reused after a pop, an accepted weakness of this scheme.

use vstd::prelude::*;
use vstd::string::StringExecFns;
use crate::codec::{be_bytes_of, be_value_of, encode_tagged_address, push_be_bytes, read_be_bytes};
use crate::region::Region;
use crate::typing::{Reference, TypeDescriptor, Value};

verus! {

/// The printed name of a stack reference type: `$&` then the name of the
/// referenced type. The level is omitted because it is call-depth-relative,
/// not a stable identity.
pub open spec fn stack_reference_typename(inner: Seq<char>) -> Seq<char> {
    seq!['$', '&'] + inner
}

/// The type descriptor of stack reference values: a fixed 16-byte wire size
/// (8-byte big-endian level, then 8-byte big-endian address).
pub struct StackReferenceType {
    pub referenced: TypeDescriptor,
}

impl StackReferenceType {
    pub fn new(referenced: TypeDescriptor) -> (t: StackReferenceType)
        ensures
            t.referenced == referenced,
    {
        StackReferenceType { referenced }
    }

    /// The wire size of a stored stack reference: always 16 bytes.
    pub fn size(&self) -> (n: usize)
        ensures
            n == 16,
    {
        16
    }

    /// The printed name, `$&{referenced}`.
    pub fn typename(&self) -> (s: String)
        ensures
            s@ == stack_reference_typename(self.referenced.name@),
    {
        let mut s = String::from_str("$&");
        s.append(self.referenced.name.as_str());
        proof {
            reveal_strlit("$&");
            assert(s@ =~= stack_reference_typename(self.referenced.name@));
        }
        s
    }

    /// Decodes a stored stack reference from its 16-byte encoding: the first
    /// 8 bytes are the big-endian level, the last 8 the big-endian address of
    /// the referenced value, whose type this descriptor already knows.
    pub fn construct_from_raw(&self, raw: &[u8]) -> (r: StackReference)
        requires
            raw@.len() == 16,
        ensures
            r.level == be_value_of(raw@.subrange(0, 8)) as usize,
            r.reference.address == be_value_of(raw@.subrange(8, 16)) as usize,
            r.reference.referenced.size == self.referenced.size,
            r.reference.referenced.name@ == self.referenced.name@,
    {
        let level = read_be_bytes(vstd::slice::slice_subrange(raw, 0, 8)) as usize;
        let address = read_be_bytes(vstd::slice::slice_subrange(raw, 8, 16)) as usize;
        StackReference {
            level,
            reference: Reference { referenced: self.referenced.clone(), address },
        }
    }
}

impl Clone for StackReferenceType {
    fn clone(&self) -> (t: Self)
        ensures
            t.referenced.size == self.referenced.size,
            t.referenced.name@ == self.referenced.name@,
    {
        StackReferenceType { referenced: self.referenced.clone() }
    }
}

/// A value's location in the stack: the depth of the frame that received it
/// when it was allocated, and the reference into that frame's region.
pub struct StackReference {
    pub level: usize,
    pub reference: Reference,
}

impl StackReference {
    pub fn new(level: usize, reference: Reference) -> (r: StackReference)
        ensures
            r.level == level,
            r.reference == reference,
    {
        StackReference { level, reference }
    }

    /// The inner (type, address) pair.
    pub fn reference(&self) -> (r: &Reference)
        ensures
            *r == self.reference,
    {
        &self.reference
    }

    /// The level (frame depth) this reference points into.
    pub fn level(&self) -> (l: usize)
        ensures
            l == self.level,
    {
        self.level
    }

    /// The type of this reference seen as a storable value.
    pub fn data_type(&self) -> (t: StackReferenceType)
        ensures
            t.referenced.size == self.reference.referenced.size,
            t.referenced.name@ == self.reference.referenced.name@,
    {
        StackReferenceType { referenced: self.reference.referenced.clone() }
    }

    /// The 16-byte encoding: 8 bytes big-endian level, then 8 bytes
    /// big-endian inner address.
    pub fn raw(&self) -> (r: Vec<u8>)
        ensures
            r@ == encode_tagged_address(self.level as u64, self.reference.address as u64),
            r@.len() == 16,
    {
        let mut out: Vec<u8> = Vec::new();
        push_be_bytes(&mut out, self.level as u64);
        push_be_bytes(&mut out, self.reference.address as u64);
        proof {
            assert(out@ =~= be_bytes_of(self.level as u64) + be_bytes_of(
                self.reference.address as u64,
            ));
        }
        out
    }

    /// In-place overwrite from a 16-byte encoding, keeping the referenced
    /// type, which is not recoverable from the bytes alone.
    pub fn set(&mut self, raw: &[u8])
        requires
            raw@.len() == 16,
        ensures
            final(self).level == be_value_of(raw@.subrange(0, 8)) as usize,
            final(self).reference.address == be_value_of(raw@.subrange(8, 16)) as usize,
            final(self).reference.referenced == old(self).reference.referenced,
    {
        self.level = read_be_bytes(vstd::slice::slice_subrange(raw, 0, 8)) as usize;
        self.reference.address = read_be_bytes(vstd::slice::slice_subrange(raw, 8, 16)) as usize;
    }

    /// This reference as an ordinary storable value: its descriptor reports
    /// size 16 and the `$&{referenced}` name, and its bytes are the 16-byte
    /// encoding.
    pub fn to_value(self) -> (v: Value)
        ensures
            v.typ.size == 16,
            v.typ.name@ == stack_reference_typename(self.reference.referenced.name@),
            v.bytes@ == encode_tagged_address(self.level as u64, self.reference.address as u64),
            v.wf(),
    {
        let name = self.data_type().typename();
        let bytes = self.raw();
        Value { typ: TypeDescriptor { size: 16, name }, bytes }
    }
}

impl Clone for StackReference {
    fn clone(&self) -> (r: Self)
        ensures
            r.level == self.level,
            r.reference.address == self.reference.address,
            r.reference.referenced.size == self.reference.referenced.size,
            r.reference.referenced.name@ == self.reference.referenced.name@,
    {
        StackReference { level: self.level, reference: self.reference.clone() }
    }
}

/// An ordered sequence of frame regions with stack discipline: `push` enters
/// a call frame, `pop` exits the most recent one.
pub struct Stack {
    raw: Vec<Region>,
}

impl Stack {
    /// The frames' contents, bottom first.
    pub closed spec fn frames(&self) -> Seq<Seq<u8>> {
        self.raw@.map_values(|region: Region| region@)
    }

    /// What `validate` checks: the level names an existing frame. Levels are
    /// positional, so a later push to the same depth makes a stale reference
    /// appear valid again.
    pub open spec fn spec_validate(&self, reference: StackReference) -> bool {
        reference.level < self.frames().len()
    }

    /// A fresh stack with no frames.
    pub fn new() -> (s: Stack)
        ensures
            s.frames().len() == 0,
    {
        Stack { raw: Vec::new() }
    }

    /// The number of frames currently pushed.
    pub fn depth(&self) -> (d: usize)
        ensures
            d == self.frames().len(),
    {
        self.raw.len()
    }

    /// Enters a call frame: the caller-supplied region becomes the top frame.
    pub fn push(&mut self, region: Region)
        ensures
            final(self).frames() == old(self).frames().push(region@),
    {
        self.raw.push(region);
        proof {
            assert(self.frames() =~= old(self).frames().push(region@));
        }
    }

    /// Exits the most recent frame, handing its region back to the caller;
    /// `None` when no frame is left.
    pub fn pop(&mut self) -> (r: Option<Region>)
        ensures
            old(self).frames().len() == 0 ==> r is None && final(self).frames() == old(
                self,
            ).frames(),
            old(self).frames().len() > 0 ==> {
                &&& r matches Some(region) && region@ == old(self).frames().last()
                &&& final(self).frames() == old(self).frames().drop_last()
            },
    {
        let r = self.raw.pop();
        proof {
            if old(self).frames().len() > 0 {
                assert(self.frames() =~= old(self).frames().drop_last());
            } else {
                assert(self.frames() =~= old(self).frames());
            }
        }
        r
    }

    /// Allocates into the top frame and tags the resulting reference with
    /// that frame's depth: the number of frames below it, which is `depth - 1`
    /// counted from the bottom.
    pub fn allocate(&mut self, cell: Value) -> (r: StackReference)
        requires
            old(self).frames().len() > 0,
        ensures
            r.level == old(self).frames().len() - 1,
            r.reference.address == old(self).frames().last().len(),
            r.reference.referenced == cell.typ,
            final(self).frames() == old(self).frames().update(
                old(self).frames().len() - 1,
                old(self).frames().last() + cell.bytes@,
            ),
    {
        let mut current = match self.raw.pop() {
            Some(region) => region,
            None => vstd::pervasive::unreached(),
        };
        let level = self.raw.len();
        let reference = current.allocate(cell);
        self.raw.push(current);
        proof {
            assert(self.frames() =~= old(self).frames().update(
                old(self).frames().len() - 1,
                old(self).frames().last() + cell.bytes@,
            ));
        }
        StackReference { level, reference }
    }

    /// Reads back the value a stack reference points at: `None` when the
    /// level names no frame or the inner window is out of bounds; otherwise
    /// the freshly decoded value. A level made stale by a pop and covered
    /// again by a later push decodes whatever now occupies that position.
    pub fn dereference(&self, reference: StackReference) -> (r: Option<Value>)
        ensures
            reference.level >= self.frames().len() ==> r is None,
            r is Some <==> {
                &&& reference.level < self.frames().len()
                &&& reference.reference.address + reference.reference.referenced.size
                    <= self.frames()[reference.level as int].len()
            },
            r matches Some(v) ==> {
                &&& v.typ == reference.reference.referenced
                &&& v.bytes@ == self.frames()[reference.level as int].subrange(
                    reference.reference.address as int,
                    reference.reference.address + reference.reference.referenced.size,
                )
                &&& v.wf()
            },
    {
        if reference.level >= self.raw.len() {
            None
        } else {
            self.raw[reference.level].dereference(reference.reference)
        }
    }

    /// Depth check only: true exactly when the level names an existing frame.
    /// The in-region bounds are not checked here, unlike the heap's
    /// `validate`.
    pub fn validate(&self, reference: &StackReference) -> (b: bool)
        ensures
            b == self.spec_validate(*reference),
    {
        reference.level < self.raw.len()
    }
}

/// Stack scoping: allocating right after pushing a fresh frame yields a
/// reference whose level is the new depth minus one, and once the matching
/// pop has removed that frame the reference no longer validates.
pub proof fn lemma_stack_scoping(
    s0: Stack,
    s1: Stack,
    s2: Stack,
    s3: Stack,
    frame: Seq<u8>,
    reference: StackReference,
    cell_bytes: Seq<u8>,
)
    requires
        s1.frames() == s0.frames().push(frame),
        reference.level == s1.frames().len() - 1,
        s2.frames() == s1.frames().update(s1.frames().len() - 1, s1.frames().last() + cell_bytes),
        s3.frames() == s2.frames().drop_last(),
    ensures
        reference.level == s1.frames().len() - 1,
        s1.spec_validate(reference),
        !s3.spec_validate(reference),
{
}

} // verus!
