//! Region: an append-only byte buffer acting as a bump allocator; the unit of
//! physical storage. Also the label-indexed `Area` directory of independent
//! regions, and the `DroppableRegion` slot used by the generational heap.

use vstd::prelude::*;
use vstd::pervasive::VecAdditionalExecFns;
use crate::typing::{Reference, Value};

verus! {

/// An append-only byte buffer. Values are appended by `allocate` and read back
/// by `dereference`; nothing is ever freed or shrunk at this layer.
pub struct Region {
    raw: Vec<u8>,
}

impl View for Region {
    type V = Seq<u8>;

    closed spec fn view(&self) -> Seq<u8> {
        self.raw@
    }
}

/// Whether a window of `size` bytes at `address` can be read back from a
/// region holding `region` — the bound `dereference` checks.
pub open spec fn window_in_bounds(region: Seq<u8>, address: usize, size: usize) -> bool {
    address + size <= region.len()
}

impl Region {
    /// Number of bytes stored so far.
    pub fn len(&self) -> (n: usize)
        ensures
            n == self@.len(),
    {
        self.raw.len()
    }

    /// True when no byte has been allocated yet.
    pub fn is_empty(&self) -> (b: bool)
        ensures
            b == (self@.len() == 0),
    {
        self.raw.is_empty()
    }

    /// Appends the value's bytes and returns a reference to where they start:
    /// the type of the value, paired with its byte offset. No alignment, no
    /// gaps, no reuse of earlier space.
    pub fn allocate(&mut self, cell: Value) -> (r: Reference)
        ensures
            final(self)@ == old(self)@ + cell.bytes@,
            r.address == old(self)@.len(),
            r.referenced == cell.typ,
    {
        let address = self.raw.len();
        let Value { typ, bytes } = cell;
        let mut bytes = bytes;
        self.raw.append(&mut bytes);
        Reference { referenced: typ, address }
    }

    /// Reads back the byte window the reference describes, decoded as a
    /// freshly owned value of the referenced type; `None` when the window
    /// reaches past the end of the buffer (an out-of-bounds read is an error
    /// result, never a panic).
    pub fn dereference(&self, reference: Reference) -> (r: Option<Value>)
        ensures
            r is Some <==> window_in_bounds(self@, reference.address, reference.referenced.size),
            r matches Some(v) ==> {
                &&& v.typ == reference.referenced
                &&& v.bytes@ == self@.subrange(
                    reference.address as int,
                    reference.address + reference.referenced.size,
                )
                &&& v.wf()
            },
    {
        let start = reference.address;
        let size = reference.referenced.size;
        let n = self.raw.len();
        if start > n || size > n - start {
            return None;
        }
        let mut out: Vec<u8> = Vec::new();
        let mut i: usize = 0;
        while i < size
            invariant
                i <= size,
                start + size <= n,
                n == self.raw@.len(),
                out@ =~= self.raw@.subrange(start as int, start + i),
            decreases size - i,
        {
            out.push(self.raw[start + i]);
            proof {
                assert(out@ =~= self.raw@.subrange(start as int, start + i + 1));
            }
            i += 1;
        }
        Some(Value { typ: reference.referenced, bytes: out })
    }

    /// Bounds check only, no decode. The bound is deliberately strict
    /// less-than: a value occupying the exact tail of the buffer fails
    /// `validate` even though `dereference` succeeds for it.
    pub fn validate(&self, reference: &Reference) -> (b: bool)
        ensures
            b == (reference.address + reference.referenced.size < self@.len()),
    {
        let n = self.raw.len();
        reference.address < n && reference.referenced.size < n - reference.address
    }
}

impl Default for Region {
    /// A fresh, empty Region.
    fn default() -> (r: Region)
        ensures
            r@ == Seq::<u8>::empty(),
    {
        Region { raw: Vec::new() }
    }
}

impl Clone for Region {
    fn clone(&self) -> (r: Self)
        ensures
            r@ == self@,
    {
        Region { raw: vstd::slice::slice_to_vec(self.raw.as_slice()) }
    }
}

/// Round trip: a value's bytes appended to a region are read back exactly by
/// the reference that `allocate` returns. For an empty region the window
/// starts at offset zero and returns the whole buffer; together with
/// `allocate` and `dereference`'s contracts this yields a value with the same
/// type descriptor and the same raw bytes as the one stored.
pub proof fn lemma_allocate_dereference_round_trip(region: Seq<u8>, bytes: Seq<u8>)
    requires
        region.len() == 0,
        bytes.len() <= usize::MAX,
    ensures
        window_in_bounds(region + bytes, (region.len()) as usize, bytes.len() as usize),
        (region + bytes).subrange(region.len() as int, region.len() + bytes.len() as int) == bytes,
{
    assert((region + bytes).subrange(region.len() as int, region.len() + bytes.len() as int) =~= bytes);
}

/// A heap slot: a live region, or the tombstone left by a bulk drop.
pub enum DroppableRegion {
    Alive(Region),
    Dropped,
}

impl DroppableRegion {
    /// True while the slot still holds its region.
    pub fn is_alive(&self) -> (b: bool)
        ensures
            b == (self is Alive),
    {
        match self {
            DroppableRegion::Alive(_) => true,
            DroppableRegion::Dropped => false,
        }
    }
}

/// A named directory of regions: at most one region per label at a time, each
/// label's region independent of every other.
pub struct Area {
    regions: Vec<(String, Region)>,
}

impl Area {
    /// The labelled regions, in insertion order: each entry is a label and the
    /// bytes of the region filed under it.
    pub closed spec fn entries(&self) -> Seq<(Seq<char>, Seq<u8>)> {
        self.regions@.map_values(|p: (String, Region)| (p.0@, p.1@))
    }

    /// No label is filed twice.
    pub open spec fn wf(&self) -> bool {
        forall|i: int, j: int|
            0 <= i < j < self.entries().len() ==> (#[trigger] self.entries()[i]).0 != (
            #[trigger] self.entries()[j]).0
    }

    /// True when some region is filed under `label`.
    pub open spec fn has_label(&self, label: Seq<char>) -> bool {
        exists|i: int| 0 <= i < self.entries().len() && (#[trigger] self.entries()[i]).0 == label
    }

    /// An empty directory.
    pub fn empty() -> (a: Area)
        ensures
            a.entries().len() == 0,
            a.wf(),
    {
        Area { regions: Vec::new() }
    }

    /// The region filed under `label`, if any.
    pub fn get(&self, label: &String) -> (r: Option<&Region>)
        requires
            self.wf(),
        ensures
            r is Some <==> self.has_label(label@),
            r matches Some(region) ==> exists|i: int|
                0 <= i < self.entries().len() && #[trigger] self.entries()[i] == (label@, region@),
    {
        let n = self.regions.len();
        let mut i: usize = 0;
        while i < n
            invariant
                i <= n,
                n == self.entries().len(),
                self.wf(),
                forall|j: int| 0 <= j < i ==> (#[trigger] self.entries()[j]).0 != label@,
            decreases n - i,
        {
            if self.regions[i].0 == *label {
                let region = &self.regions[i].1;
                proof {
                    assert(self.entries()[i as int] == (label@, region@));
                }
                return Some(region);
            }
            i += 1;
        }
        None
    }

    /// Removes and returns the region filed under `label`, if any; the other
    /// labels keep their regions.
    pub fn take(&mut self, label: &String) -> (r: Option<Region>)
        requires
            old(self).wf(),
        ensures
            final(self).wf(),
            r is Some <==> old(self).has_label(label@),
            r matches Some(region) ==> exists|i: int|
                {
                    &&& 0 <= i < old(self).entries().len()
                    &&& #[trigger] old(self).entries()[i] == (label@, region@)
                    &&& final(self).entries() == old(self).entries().remove(i)
                },
            r is None ==> final(self).entries() == old(self).entries(),
            !final(self).has_label(label@),
    {
        let n = self.regions.len();
        let mut i: usize = 0;
        while i < n
            invariant
                i <= n,
                n == self.entries().len(),
                self.wf(),
                *self == *old(self),
                forall|j: int| 0 <= j < i ==> (#[trigger] self.entries()[j]).0 != label@,
            decreases n - i,
        {
            if self.regions[i].0 == *label {
                let (_, region) = self.regions.remove(i);
                proof {
                    assert(old(self).entries()[i as int] == (label@, region@));
                    assert(self.entries() =~= old(self).entries().remove(i as int));
                    assert forall|j: int| 0 <= j < self.entries().len() implies (
                    #[trigger] self.entries()[j]).0 != label@ by {
                        if j < i {
                            assert(self.entries()[j] == old(self).entries()[j]);
                            assert((old(self).entries()[j]).0 != (old(self).entries()[i as int]).0);
                        } else {
                            assert(self.entries()[j] == old(self).entries()[j + 1]);
                            assert((old(self).entries()[i as int]).0 != (old(self).entries()[j
                                + 1]).0);
                        }
                    }
                }
                return Some(region);
            }
            i += 1;
        }
        None
    }

    /// Files `region` under `label`, displacing and returning the previous
    /// occupant if there was one; the other labels keep their regions.
    pub fn set(&mut self, label: &String, region: Region) -> (r: Option<Region>)
        requires
            old(self).wf(),
        ensures
            final(self).wf(),
            r is Some <==> old(self).has_label(label@),
            r matches Some(previous) ==> exists|i: int|
                {
                    &&& 0 <= i < old(self).entries().len()
                    &&& #[trigger] old(self).entries()[i] == (label@, previous@)
                    &&& final(self).entries() == old(self).entries().update(i, (label@, region@))
                },
            r is None ==> final(self).entries() == old(self).entries().push((label@, region@)),
            final(self).has_label(label@),
    {
        let ghost entry: (Seq<char>, Seq<u8>) = (label@, region@);
        let n = self.regions.len();
        let mut i: usize = 0;
        while i < n
            invariant
                i <= n,
                n == self.entries().len(),
                self.wf(),
                *self == *old(self),
                entry.0 == label@,
                region@ == entry.1,
                forall|j: int| 0 <= j < i ==> (#[trigger] self.entries()[j]).0 != label@,
            decreases n - i,
        {
            if self.regions[i].0 == *label {
                let mut pair = (label.clone(), region);
                let ghost new_pair = pair;
                self.regions.set_and_swap(i, &mut pair);
                let previous = pair.1;
                proof {
                    assert(self.regions@ == old(self).regions@.update(i as int, new_pair));
                    assert(old(self).entries()[i as int] == (label@, previous@));
                    assert forall|k: int| 0 <= k < self.entries().len() implies #[trigger] self.entries()[k]
                        == old(self).entries().update(i as int, entry)[k] by {
                        if k == i {
                            assert(self.entries()[k] == (new_pair.0@, new_pair.1@));
                            assert((new_pair.0@, new_pair.1@) =~~= entry);
                        } else {
                            assert(self.regions@[k] == old(self).regions@[k]);
                        }
                    }
                    assert(self.entries() =~= old(self).entries().update(i as int, entry));
                    assert((self.entries()[i as int]).0 == label@);
                    assert forall|a: int, b: int|
                        0 <= a < b < self.entries().len() implies (
                    #[trigger] self.entries()[a]).0 != (#[trigger] self.entries()[b]).0 by {
                        assert((self.entries()[a]).0 == (old(self).entries()[a]).0);
                        assert((self.entries()[b]).0 == (old(self).entries()[b]).0);
                    }
                }
                return Some(previous);
            }
            i += 1;
        }
        self.regions.push((label.clone(), region));
        proof {
            let n_old = old(self).entries().len();
            assert(self.entries() =~= old(self).entries().push(entry));
            assert((self.entries()[n_old as int]).0 == label@);
        }
        None
    }
}

} // verus!
