//! The capabilities this core consumes from the surrounding type system,
//! reduced to the data the allocators actually read: a type descriptor is an
//! allocation size and a type name, a value is a descriptor together with its
//! raw byte encoding, and a reference is a descriptor together with a byte
//! address into some region.

use vstd::prelude::*;
use vstd::string::StringExecFns;

verus! {

/// What this core reads of a type: its allocation size in bytes and its name.
/// Decoding a byte window into a value of the type needs nothing more here,
/// because a value is carried as its byte encoding.
pub struct TypeDescriptor {
    pub size: usize,
    pub name: String,
}

impl TypeDescriptor {
    pub fn new(size: usize, name: String) -> (t: TypeDescriptor)
        ensures
            t.size == size,
            t.name == name,
    {
        TypeDescriptor { size, name }
    }

    /// The allocation size of an element of this type.
    pub fn size(&self) -> (n: usize)
        ensures
            n == self.size,
    {
        self.size
    }

    /// The name of this type.
    pub fn typename(&self) -> (s: String)
        ensures
            s@ == self.name@,
    {
        self.name.clone()
    }
}

impl Clone for TypeDescriptor {
    fn clone(&self) -> (t: Self)
        ensures
            t.size == self.size,
            t.name@ == self.name@,
    {
        TypeDescriptor { size: self.size, name: self.name.clone() }
    }
}

/// A typed, serialized value: its type descriptor and its raw byte encoding.
/// It is well formed when the encoding has exactly the type's size.
pub struct Value {
    pub typ: TypeDescriptor,
    pub bytes: Vec<u8>,
}

impl Value {
    /// The encoding is as long as the type says an element of it is.
    pub open spec fn wf(&self) -> bool {
        self.bytes@.len() == self.typ.size
    }

    pub fn new(typ: TypeDescriptor, bytes: Vec<u8>) -> (v: Value)
        requires
            bytes@.len() == typ.size,
        ensures
            v.typ == typ,
            v.bytes == bytes,
            v.wf(),
    {
        Value { typ, bytes }
    }

    /// The type of this value.
    pub fn data_type(&self) -> (t: &TypeDescriptor)
        ensures
            *t == self.typ,
    {
        &self.typ
    }

    /// The raw byte encoding of this value.
    pub fn raw(&self) -> (r: &Vec<u8>)
        ensures
            r@ == self.bytes@,
    {
        &self.bytes
    }

    /// In-place overwrite from new bytes, preserving the declared type.
    pub fn set(&mut self, raw: &[u8])
        requires
            raw@.len() == old(self).typ.size,
        ensures
            final(self).typ == old(self).typ,
            final(self).bytes@ == raw@,
            final(self).wf(),
    {
        self.bytes = vstd::slice::slice_to_vec(raw);
    }
}

/// A self-describing location: the type of the value stored there and its byte
/// address inside some region. Which region is meant is supplied by the
/// wrapping heap or stack reference; a bare `Reference` carries no region
/// identity.
pub struct Reference {
    pub referenced: TypeDescriptor,
    pub address: usize,
}

/// The printed name of a reference type: `&` followed by the name of the
/// referenced type.
pub open spec fn reference_typename(inner: Seq<char>) -> Seq<char> {
    seq!['&'] + inner
}

impl Reference {
    pub fn new(referenced: TypeDescriptor, address: usize) -> (r: Reference)
        ensures
            r.referenced == referenced,
            r.address == address,
    {
        Reference { referenced, address }
    }

    /// The byte offset this reference points at.
    pub fn get_address(&self) -> (a: usize)
        ensures
            a == self.address,
    {
        self.address
    }

    /// The type of the value this reference points at.
    pub fn referenced(&self) -> (t: &TypeDescriptor)
        ensures
            *t == self.referenced,
    {
        &self.referenced
    }

    /// The type of the reference itself, seen as a storable value: 8 bytes
    /// wide, named `&` followed by the referenced type's name.
    pub fn data_type(&self) -> (t: TypeDescriptor)
        ensures
            t.size == 8,
            t.name@ == reference_typename(self.referenced.name@),
    {
        let name = String::from_str("&").concat(self.referenced.name.as_str());
        proof {
            reveal_strlit("&");
            assert(name@ =~= reference_typename(self.referenced.name@));
        }
        TypeDescriptor { size: 8, name }
    }
}

impl Clone for Reference {
    fn clone(&self) -> (r: Self)
        ensures
            r.address == self.address,
            r.referenced.size == self.referenced.size,
            r.referenced.name@ == self.referenced.name@,
    {
        Reference { referenced: self.referenced.clone(), address: self.address }
    }
}

} // verus!
