use roussillon_memory::heap::{HeapReference, HeapReferenceType};
use roussillon_memory::stack::{StackReference, StackReferenceType};
use roussillon_memory::typing::{Reference, TypeDescriptor};

fn quad_type() -> TypeDescriptor {
    TypeDescriptor::new(4, String::from("quad"))
}

#[test]
fn test_heap_reference_encoding_roundtrip() {
    let reference = HeapReference::new(3, Reference::new(quad_type(), 120));
    let raw = reference.raw();
    assert_eq!(raw.len(), 16);

    let descriptor = HeapReferenceType::new(3, quad_type());
    assert_eq!(descriptor.size(), 16);
    let decoded = descriptor.construct_from_raw(&raw);
    assert_eq!(decoded.generation(), 3);
    assert_eq!(decoded.reference().get_address(), 120);
    assert_eq!(decoded.reference().referenced().typename(), "quad");
}

#[test]
fn test_heap_reference_exact_layout() {
    // The one bit-exact format other components may depend on: 8 bytes
    // big-endian generation, then 8 bytes big-endian address.
    let reference = HeapReference::new(3, Reference::new(quad_type(), 120));
    let raw = reference.raw();
    assert_eq!(
        raw,
        vec![0, 0, 0, 0, 0, 0, 0, 3, 0, 0, 0, 0, 0, 0, 0, 120]
    );

    let wide = HeapReference::new(0x0102030405060708, Reference::new(quad_type(), 0x1122334455667788));
    assert_eq!(
        wide.raw(),
        vec![1, 2, 3, 4, 5, 6, 7, 8, 0x11, 0x22, 0x33, 0x44, 0x55, 0x66, 0x77, 0x88]
    );
}

#[test]
fn test_heap_reference_set() {
    let mut reference = HeapReference::new(1, Reference::new(quad_type(), 8));
    let replacement = HeapReference::new(9, Reference::new(quad_type(), 640));
    reference.set(&replacement.raw());
    assert_eq!(reference.generation(), 9);
    assert_eq!(reference.reference().get_address(), 640);
    // The inner type is not recoverable from the 16 raw bytes; it is kept.
    assert_eq!(reference.reference().referenced().typename(), "quad");
}

#[test]
fn test_heap_reference_typename() {
    let descriptor = HeapReferenceType::new(3, quad_type());
    assert_eq!(descriptor.typename(), "@3&quad");
    let descriptor = HeapReferenceType::new(1415, quad_type());
    assert_eq!(descriptor.typename(), "@1415&quad");
    let descriptor = HeapReferenceType::new(0, TypeDescriptor::new(8, String::from("integer")));
    assert_eq!(descriptor.typename(), "@0&integer");
}

#[test]
fn test_heap_reference_as_value() {
    let reference = HeapReference::new(3, Reference::new(quad_type(), 120));
    let value = reference.to_value();
    assert_eq!(value.data_type().size(), 16);
    assert_eq!(value.data_type().typename(), "@3&quad");
    assert_eq!(
        *value.raw(),
        vec![0, 0, 0, 0, 0, 0, 0, 3, 0, 0, 0, 0, 0, 0, 0, 120]
    );
}

#[test]
fn test_stack_reference_encoding_roundtrip() {
    let reference = StackReference::new(2, Reference::new(quad_type(), 24));
    let raw = reference.raw();
    assert_eq!(raw.len(), 16);
    assert_eq!(raw, vec![0, 0, 0, 0, 0, 0, 0, 2, 0, 0, 0, 0, 0, 0, 0, 24]);

    let descriptor = StackReferenceType::new(quad_type());
    assert_eq!(descriptor.size(), 16);
    let decoded = descriptor.construct_from_raw(&raw);
    assert_eq!(decoded.level(), 2);
    assert_eq!(decoded.reference().get_address(), 24);
    assert_eq!(decoded.reference().referenced().typename(), "quad");
}

#[test]
fn test_stack_reference_set_and_typename() {
    let descriptor = StackReferenceType::new(quad_type());
    assert_eq!(descriptor.typename(), "$&quad");

    let mut reference = StackReference::new(0, Reference::new(quad_type(), 4));
    let replacement = StackReference::new(7, Reference::new(quad_type(), 44));
    reference.set(&replacement.raw());
    assert_eq!(reference.level(), 7);
    assert_eq!(reference.reference().get_address(), 44);

    let value = StackReference::new(7, Reference::new(quad_type(), 44)).to_value();
    assert_eq!(value.data_type().typename(), "$&quad");
    assert_eq!(value.data_type().size(), 16);
}

#[test]
fn test_reference_typename() {
    let reference = Reference::new(quad_type(), 0);
    let t = reference.data_type();
    assert_eq!(t.typename(), "&quad");
    assert_eq!(t.size(), 8);
}
