//! Heap: an append-only vector of generation-tagged regions with bulk drop
//! semantics. Generation indices are never reused, so a stale reference can
//! never alias a newer live region that happens to share its number.

use vstd::prelude::*;
use vstd::string::StringExecFns;
use crate::codec::{
    be_bytes_of,
    be_value_of,
    dec_chars,
    encode_tagged_address,
    format_decimal,
    push_be_bytes,
    read_be_bytes,
};
use crate::region::{DroppableRegion, Region};
use crate::typing::{Reference, TypeDescriptor, Value};

verus! {

/// The printed name of a heap reference type: `@`, the generation in decimal,
/// `&`, then the name of the referenced type.
pub open spec fn heap_reference_typename(generation: nat, inner: Seq<char>) -> Seq<char> {
    seq!['@'] + dec_chars(generation) + seq!['&'] + inner
}

/// The type descriptor of heap reference values: a fixed 16-byte wire size
/// (8-byte big-endian generation, then 8-byte big-endian address) and a name
/// that embeds the generation and the referenced type.
pub struct HeapReferenceType {
    pub generation: usize,
    pub referenced: TypeDescriptor,
}

impl HeapReferenceType {
    pub fn new(generation: usize, referenced: TypeDescriptor) -> (t: HeapReferenceType)
        ensures
            t.generation == generation,
            t.referenced == referenced,
    {
        HeapReferenceType { generation, referenced }
    }

    /// The wire size of a stored heap reference: always 16 bytes.
    pub fn size(&self) -> (n: usize)
        ensures
            n == 16,
    {
        16
    }

    /// The printed name, `@{generation}&{referenced}`.
    pub fn typename(&self) -> (s: String)
        ensures
            s@ == heap_reference_typename(self.generation as nat, self.referenced.name@),
    {
        let mut s = String::from_str("@");
        s.append(format_decimal(self.generation).as_str());
        s.append("&");
        s.append(self.referenced.name.as_str());
        proof {
            reveal_strlit("@");
            reveal_strlit("&");
            assert(s@ =~= heap_reference_typename(self.generation as nat, self.referenced.name@));
        }
        s
    }

    /// Decodes a stored heap reference from its 16-byte encoding: the first 8
    /// bytes are the big-endian generation, the last 8 the big-endian address
    /// of the referenced value, whose type this descriptor already knows.
    pub fn construct_from_raw(&self, raw: &[u8]) -> (r: HeapReference)
        requires
            raw@.len() == 16,
        ensures
            r.generation == be_value_of(raw@.subrange(0, 8)) as usize,
            r.reference.address == be_value_of(raw@.subrange(8, 16)) as usize,
            r.reference.referenced.size == self.referenced.size,
            r.reference.referenced.name@ == self.referenced.name@,
    {
        let generation = read_be_bytes(vstd::slice::slice_subrange(raw, 0, 8)) as usize;
        let address = read_be_bytes(vstd::slice::slice_subrange(raw, 8, 16)) as usize;
        HeapReference {
            generation,
            reference: Reference { referenced: self.referenced.clone(), address },
        }
    }
}

impl Clone for HeapReferenceType {
    fn clone(&self) -> (t: Self)
        ensures
            t.generation == self.generation,
            t.referenced.size == self.referenced.size,
            t.referenced.name@ == self.referenced.name@,
    {
        HeapReferenceType { generation: self.generation, referenced: self.referenced.clone() }
    }
}

/// A value's location in the heap: the generation it was allocated into and
/// the reference into that generation's region.
pub struct HeapReference {
    pub generation: usize,
    pub reference: Reference,
}

impl HeapReference {
    pub fn new(generation: usize, reference: Reference) -> (r: HeapReference)
        ensures
            r.generation == generation,
            r.reference == reference,
    {
        HeapReference { generation, reference }
    }

    /// The inner (type, address) pair.
    pub fn reference(&self) -> (r: &Reference)
        ensures
            *r == self.reference,
    {
        &self.reference
    }

    /// The generation this reference points into.
    pub fn generation(&self) -> (g: usize)
        ensures
            g == self.generation,
    {
        self.generation
    }

    /// The type of this reference seen as a storable value.
    pub fn data_type(&self) -> (t: HeapReferenceType)
        ensures
            t.generation == self.generation,
            t.referenced.size == self.reference.referenced.size,
            t.referenced.name@ == self.reference.referenced.name@,
    {
        HeapReferenceType {
            generation: self.generation,
            referenced: self.reference.referenced.clone(),
        }
    }

    /// The 16-byte encoding: 8 bytes big-endian generation, then 8 bytes
    /// big-endian inner address.
    pub fn raw(&self) -> (r: Vec<u8>)
        ensures
            r@ == encode_tagged_address(self.generation as u64, self.reference.address as u64),
            r@.len() == 16,
    {
        let mut out: Vec<u8> = Vec::new();
        push_be_bytes(&mut out, self.generation as u64);
        push_be_bytes(&mut out, self.reference.address as u64);
        proof {
            assert(out@ =~= be_bytes_of(self.generation as u64) + be_bytes_of(
                self.reference.address as u64,
            ));
        }
        out
    }

    /// In-place overwrite from a 16-byte encoding, keeping the referenced
    /// type, which is not recoverable from the bytes alone.
    pub fn set(&mut self, raw: &[u8])
        requires
            raw@.len() == 16,
        ensures
            final(self).generation == be_value_of(raw@.subrange(0, 8)) as usize,
            final(self).reference.address == be_value_of(raw@.subrange(8, 16)) as usize,
            final(self).reference.referenced == old(self).reference.referenced,
    {
        self.generation = read_be_bytes(vstd::slice::slice_subrange(raw, 0, 8)) as usize;
        self.reference.address = read_be_bytes(vstd::slice::slice_subrange(raw, 8, 16)) as usize;
    }

    /// This reference as an ordinary storable value: its descriptor reports
    /// size 16 and the `@{generation}&{referenced}` name, and its bytes are
    /// the 16-byte encoding.
    pub fn to_value(self) -> (v: Value)
        ensures
            v.typ.size == 16,
            v.typ.name@ == heap_reference_typename(
                self.generation as nat,
                self.reference.referenced.name@,
            ),
            v.bytes@ == encode_tagged_address(
                self.generation as u64,
                self.reference.address as u64,
            ),
            v.wf(),
    {
        let name = self.data_type().typename();
        let bytes = self.raw();
        Value { typ: TypeDescriptor { size: 16, name }, bytes }
    }
}

impl Clone for HeapReference {
    fn clone(&self) -> (r: Self)
        ensures
            r.generation == self.generation,
            r.reference.address == self.reference.address,
            r.reference.referenced.size == self.reference.referenced.size,
            r.reference.referenced.name@ == self.reference.referenced.name@,
    {
        HeapReference { generation: self.generation, reference: self.reference.clone() }
    }
}

/// An ordered sequence of generation slots, each alive or dropped, plus the
/// index new allocations target. Slots are only ever appended; a dropped slot
/// stays dropped forever, so a generation index names one region for the
/// lifetime of the program.
pub struct Heap {
    raw: Vec<DroppableRegion>,
    current: Option<usize>,
}

impl Heap {
    /// The slot table: `Some(bytes)` for an alive region's contents, `None`
    /// for a dropped slot.
    pub closed spec fn slots(&self) -> Seq<Option<Seq<u8>>> {
        self.raw@.map_values(
            |slot: DroppableRegion|
                match slot {
                    DroppableRegion::Alive(region) => Some(region@),
                    DroppableRegion::Dropped => None,
                },
        )
    }

    /// The generation new allocations target, if one has been opened.
    pub closed spec fn spec_current(&self) -> Option<usize> {
        self.current
    }

    /// The current pointer stays within the slot table, and is only unset
    /// while the table is empty.
    pub open spec fn wf(&self) -> bool {
        &&& (self.spec_current() matches Some(c) ==> c < self.slots().len())
        &&& (self.spec_current() is None ==> self.slots().len() == 0)
    }

    /// What `validate` checks: the generation exists, its slot is alive, and
    /// the inner reference passes the region's (strict) bounds check.
    pub open spec fn spec_validate(&self, reference: HeapReference) -> bool {
        &&& reference.generation < self.slots().len()
        &&& self.slots()[reference.generation as int] is Some
        &&& reference.reference.address + reference.reference.referenced.size < self.slots()[reference.generation as int]->0.len()
    }

    /// A fresh heap: no slots, no current generation.
    pub fn new() -> (h: Heap)
        ensures
            h.slots().len() == 0,
            h.spec_current() is None,
            h.wf(),
    {
        Heap { raw: Vec::new(), current: None }
    }

    /// The generation new allocations will go to, if one has been opened.
    pub fn current_generation(&self) -> (g: Option<usize>)
        ensures
            g == self.spec_current(),
    {
        self.current
    }

    /// Opens a brand-new generation: appends a fresh alive region at a
    /// never-before-used index, makes it current, and returns it for
    /// inspection. This is the only way to create a generation; dropped ones
    /// are never reopened.
    pub fn next_generation(&mut self) -> (r: &Region)
        requires
            old(self).wf(),
        ensures
            final(self).wf(),
            next_generation_relates(*old(self), *final(self)),
            r@ == Seq::<u8>::empty(),
    {
        self.current = match self.current {
            None => Some(0),
            Some(_) => Some(self.raw.len()),
        };
        self.raw.push(DroppableRegion::Alive(Region::default()));
        proof {
            assert(self.slots() =~= old(self).slots().push(Some(Seq::<u8>::empty())));
        }
        let idx = self.raw.len() - 1;
        match &self.raw[idx] {
            DroppableRegion::Alive(region) => region,
            DroppableRegion::Dropped => vstd::pervasive::unreached(),
        }
    }

    /// Overwrites slot `generation` with a tombstone, discarding its region
    /// and every value inside it in one step. The current pointer is not
    /// touched; a dropped generation stays dropped permanently.
    pub fn clear(&mut self, generation: usize)
        requires
            old(self).wf(),
            generation < old(self).slots().len(),
        ensures
            final(self).wf(),
            final(self).slots() == old(self).slots().update(generation as int, None::<Seq<u8>>),
            final(self).spec_current() == old(self).spec_current(),
    {
        self.raw.set(generation, DroppableRegion::Dropped);
        proof {
            assert(self.slots() =~= old(self).slots().update(generation as int, None::<Seq<u8>>));
        }
    }

    /// Whether slot `generation` still holds its region.
    pub fn is_alive(&self, generation: usize) -> (b: bool)
        requires
            generation < self.slots().len(),
        ensures
            b == (self.slots()[generation as int] is Some),
    {
        match &self.raw[generation] {
            DroppableRegion::Alive(_) => true,
            DroppableRegion::Dropped => false,
        }
    }

    /// Allocates into the current generation's region and tags the resulting
    /// reference with that generation. When no generation has been opened
    /// yet, generation 0 is opened lazily on this first use.
    pub fn allocate(&mut self, cell: Value) -> (r: HeapReference)
        requires
            old(self).wf(),
            old(self).spec_current() matches Some(c) ==> old(self).slots()[c as int] is Some,
        ensures
            final(self).wf(),
            r.reference.referenced == cell.typ,
            final(self).spec_current() is Some,
            r.generation == final(self).spec_current()->0,
            old(self).spec_current() is None ==> {
                &&& final(self).slots() == seq![Some(cell.bytes@)]
                &&& final(self).spec_current() == Some(0usize)
                &&& r.generation == 0
                &&& r.reference.address == 0
            },
            old(self).spec_current() matches Some(c) ==> {
                &&& final(self).slots() == old(self).slots().update(
                    c as int,
                    Some(old(self).slots()[c as int]->0 + cell.bytes@),
                )
                &&& final(self).spec_current() == old(self).spec_current()
                &&& r.generation == c
                &&& r.reference.address == old(self).slots()[c as int]->0.len()
            },
    {
        let current: usize = match self.current {
            Some(c) => c,
            None => {
                self.next_generation();
                0
            },
        };
        let ghost pre = *self;
        let reference = match &mut self.raw[current] {
            DroppableRegion::Alive(region) => region.allocate(cell),
            DroppableRegion::Dropped => vstd::pervasive::unreached(),
        };
        proof {
            assert(self.slots() =~= pre.slots().update(
                current as int,
                Some(pre.slots()[current as int]->0 + cell.bytes@),
            ));
            if old(self).spec_current() is None {
                assert(pre.slots() =~= seq![Some(Seq::<u8>::empty())]);
                assert(self.slots() =~= seq![Some(cell.bytes@)]);
            }
        }
        HeapReference { generation: current, reference }
    }

    /// Reads back the value a heap reference points at: `None` when the
    /// generation does not exist (unknown generations are an error result,
    /// never a panic), when its slot was dropped, or when the inner window is
    /// out of bounds; otherwise the freshly decoded value.
    pub fn dereference(&self, reference: HeapReference) -> (r: Option<Value>)
        ensures
            reference.generation >= self.slots().len() ==> r is None,
            r is Some <==> {
                &&& reference.generation < self.slots().len()
                &&& self.slots()[reference.generation as int] is Some
                &&& reference.reference.address + reference.reference.referenced.size <= self.slots()[reference.generation as int]->0.len()
            },
            r matches Some(v) ==> {
                &&& v.typ == reference.reference.referenced
                &&& v.bytes@ == self.slots()[reference.generation as int]->0.subrange(
                    reference.reference.address as int,
                    reference.reference.address + reference.reference.referenced.size,
                )
                &&& v.wf()
            },
    {
        if reference.generation >= self.raw.len() {
            return None;
        }
        match &self.raw[reference.generation] {
            DroppableRegion::Alive(region) => region.dereference(reference.reference),
            DroppableRegion::Dropped => None,
        }
    }

    /// A printable dump of the heap: the current pointer, then one line per
    /// slot with its number and state.
    pub fn describe(&self) -> (s: String)
        ensures
            s@ == heap_header(self.spec_current()) + slot_lines(
                self.slots(),
                self.slots().len() as int,
            ),
    {
        let mut s = String::from_str("Heap [");
        match self.current {
            None => s.append("None"),
            Some(g) => {
                s.append("Some(");
                s.append(format_decimal(g).as_str());
                s.append(")");
            },
        }
        s.append("]\n");
        proof {
            assert(s@ =~= heap_header(self.spec_current()) + slot_lines(self.slots(), 0));
        }
        let n = self.raw.len();
        let mut i: usize = 0;
        while i < n
            invariant
                i <= n,
                n == self.slots().len(),
                s@ == heap_header(self.spec_current()) + slot_lines(self.slots(), i as int),
            decreases n - i,
        {
            s.append("  - Region #");
            s.append(format_decimal(i).as_str());
            s.append(" : ");
            match &self.raw[i] {
                DroppableRegion::Alive(region) => {
                    s.append("Alive (&");
                    s.append(format_decimal(region.len()).as_str());
                    s.append(")\n");
                    proof {
                        assert(self.slots()[i as int] == Some(region@));
                    }
                },
                DroppableRegion::Dropped => {
                    s.append("Dropped\n");
                    proof {
                        assert(self.slots()[i as int] is None);
                    }
                },
            }
            proof {
                assert(s@ =~= heap_header(self.spec_current()) + slot_lines(
                    self.slots(),
                    i as int + 1,
                ));
            }
            i += 1;
        }
        s
    }

    /// Bounds-and-liveness check only: the generation exists, is alive, and
    /// the inner reference passes the region's strict bounds check.
    pub fn validate(&self, reference: &HeapReference) -> (b: bool)
        ensures
            b == self.spec_validate(*reference),
    {
        if reference.generation >= self.raw.len() {
            return false;
        }
        match &self.raw[reference.generation] {
            DroppableRegion::Alive(region) => region.validate(&reference.reference),
            DroppableRegion::Dropped => false,
        }
    }
}

/// The printed header of a heap dump: the current pointer in `Option` form.
pub open spec fn heap_header(current: Option<usize>) -> Seq<char> {
    "Heap ["@ + (match current {
        None => "None"@,
        Some(g) => "Some("@ + dec_chars(g as nat) + ")"@,
    }) + "]\n"@
}

/// The printed line for slot `index`: its number and whether it is alive
/// (with its byte count) or dropped.
pub open spec fn slot_line(index: nat, slot: Option<Seq<u8>>) -> Seq<char> {
    "  - Region #"@ + dec_chars(index) + " : "@ + (match slot {
        Some(bytes) => "Alive (&"@ + dec_chars(bytes.len()) + ")\n"@,
        None => "Dropped\n"@,
    })
}

/// The printed lines for the first `n` slots, in order.
pub open spec fn slot_lines(slots: Seq<Option<Seq<u8>>>, n: int) -> Seq<char>
    decreases n,
{
    if n <= 0 {
        Seq::empty()
    } else {
        slot_lines(slots, n - 1) + slot_line((n - 1) as nat, slots[n - 1])
    }
}

/// The state change `next_generation` makes: one fresh, empty, alive slot is
/// appended, and its index — the slot count before the call — becomes the
/// current generation.
pub open spec fn next_generation_relates(pre: Heap, post: Heap) -> bool {
    &&& post.slots() == pre.slots().push(Some(Seq::<u8>::empty()))
    &&& (post.spec_current() matches Some(c) && c == pre.slots().len())
}

/// Monotonic generations: `next_generation` hands out the slot count as the
/// new id, the slot count only ever grows, and no operation ever removes a
/// slot — so repeated calls yield strictly increasing, never-repeated ids,
/// starting at 0 on a fresh heap. `mid` stands for the heap after any
/// intervening operations, none of which shrinks the slot table.
pub proof fn lemma_generations_monotonic(h0: Heap, h1: Heap, mid: Heap, h2: Heap)
    requires
        next_generation_relates(h0, h1),
        mid.slots().len() >= h1.slots().len(),
        next_generation_relates(mid, h2),
    ensures
        h1.spec_current() is Some && h2.spec_current() is Some,
        h1.spec_current()->0 == h0.slots().len(),
        h2.spec_current()->0 > h1.spec_current()->0,
        h0.slots().len() == 0 ==> h1.spec_current()->0 == 0,
{
}

/// Bulk invalidation: after `clear(g)`, `validate` is false for every heap
/// reference tagged with generation `g`, even though `g` is still within the
/// slot table.
pub proof fn lemma_bulk_invalidation(pre: Heap, post: Heap, g: usize, reference: HeapReference)
    requires
        g < pre.slots().len(),
        post.slots() == pre.slots().update(g as int, None::<Seq<u8>>),
        reference.generation == g,
    ensures
        reference.generation < post.slots().len(),
        !post.spec_validate(reference),
{
}

} // verus!
