use std::rc::Rc;

use roussillon_type_system::facade::create_struct;
use roussillon_type_system::identity::LabelBank;
use roussillon_type_system::types::concept::DataType;
use roussillon_type_system::types::primitive::Primitive;
use roussillon_type_system::types::typedef::Structure;
use roussillon_type_system::value::concept::{DataValue, ValueCell};
use roussillon_type_system::value::number::{Float, Integer};
use roussillon_type_system::value::record::Record;

use roussillon_memory::heap::{Heap, HeapReference};
use roussillon_memory::region::Region;
use roussillon_memory::stack::Stack;
use roussillon_memory::typing::{Reference, TypeDescriptor, Value};

fn to_value(cell: &ValueCell) -> Value {
    let borrowed = cell.borrow();
    let data_type = borrowed.data_type();
    Value::new(TypeDescriptor::new(data_type.size(), data_type.typename()), borrowed.raw())
}

fn test_type(r: &Reference, typename: &str) {
    assert_eq!(r.data_type().typename(), format!("&{}", typename));
}

fn test_cells(original_cell: &ValueCell, dereferenced: &Value) {
    let t1 = original_cell.borrow().data_type().typename();
    let raw1 = original_cell.borrow().raw();
    let t2 = dereferenced.data_type().typename();
    let raw2 = dereferenced.raw().clone();
    assert_eq!(t1, t2);
    assert_eq!(raw1, raw2);
}

fn test_struct() -> Rc<Structure> {
    create_struct(
        "MyStruct",
        LabelBank::from(&["field_a", "field_b", "field_c"]),
        &[
            Primitive::Integer.to_rc(),
            Primitive::Integer.to_rc(),
            Primitive::Float.to_rc(),
        ],
    )
}

fn test_object(structure: Rc<Structure>) -> ValueCell {
    Record::new(
        structure,
        &[
            Integer::new(40).to_cell(),
            Integer::new(96).to_cell(),
            Float::new(40.0).to_cell(),
        ],
    )
    .unwrap()
    .to_cell()
}

#[test]
fn test_heap() {
    let mut heap = Heap::new();
    assert_eq!(heap.current_generation(), None);

    heap.next_generation();
    assert_eq!(heap.current_generation(), Some(0));

    let my_struct = test_struct();

    let original_object = test_object(my_struct.clone());

    let reference = heap.allocate(to_value(&original_object));

    test_type(reference.reference(), "MyStruct");
    let dereferenced_object = heap.dereference(reference.clone()).unwrap();
    test_cells(&original_object, &dereferenced_object);

    heap.next_generation();
    assert_eq!(heap.current_generation().unwrap(), 1);

    heap.clear(0);
    assert!(!heap.validate(&reference));
}

#[test]
fn test_monotonic_generations() {
    let mut heap = Heap::new();
    assert_eq!(heap.current_generation(), None);
    heap.next_generation();
    assert_eq!(heap.current_generation(), Some(0));
    heap.next_generation();
    assert_eq!(heap.current_generation(), Some(1));
    heap.next_generation();
    assert_eq!(heap.current_generation(), Some(2));

    // Dropping an earlier generation does not move the current pointer, and
    // the next id is still fresh.
    heap.clear(1);
    assert_eq!(heap.current_generation(), Some(2));
    heap.next_generation();
    assert_eq!(heap.current_generation(), Some(3));
    assert!(heap.is_alive(3));
    assert!(!heap.is_alive(1));
}

#[test]
fn test_lazy_first_generation() {
    let mut heap = Heap::new();
    assert_eq!(heap.current_generation(), None);

    let t = TypeDescriptor::new(1, String::from("byte"));
    let reference = heap.allocate(Value::new(t, vec![7]));
    assert_eq!(heap.current_generation(), Some(0));
    assert_eq!(reference.generation(), 0);
    assert_eq!(reference.reference().get_address(), 0);
    let back = heap.dereference(reference).unwrap();
    assert_eq!(*back.raw(), vec![7]);
}

#[test]
fn test_unknown_generation_dereference_is_none() {
    let mut heap = Heap::new();
    heap.next_generation();
    let t = TypeDescriptor::new(1, String::from("byte"));
    let _ = heap.allocate(Value::new(t.clone(), vec![1]));

    let stray = HeapReference::new(5, Reference::new(t.clone(), 0));
    assert!(heap.dereference(stray).is_none());
    let stray = HeapReference::new(5, Reference::new(t, 0));
    assert!(!heap.validate(&stray));
}

#[test]
fn test_cleared_generation_dereference_is_none() {
    let mut heap = Heap::new();
    heap.next_generation();
    let t = TypeDescriptor::new(3, String::from("triple"));
    let reference = heap.allocate(Value::new(t, vec![1, 2, 3]));
    assert!(heap.dereference(reference.clone()).is_some());

    heap.clear(0);
    assert!(heap.is_alive(0) == false);
    assert!(heap.dereference(reference.clone()).is_none());
    assert!(!heap.validate(&reference));
}

#[test]
fn test_heap_describe() {
    let mut heap = Heap::new();
    assert_eq!(heap.describe(), "Heap [None]\n");

    heap.next_generation();
    let t = TypeDescriptor::new(3, String::from("triple"));
    let _ = heap.allocate(Value::new(t, vec![1, 2, 3]));
    heap.next_generation();
    assert_eq!(
        heap.describe(),
        "Heap [Some(1)]\n  - Region #0 : Alive (&3)\n  - Region #1 : Alive (&0)\n"
    );

    heap.clear(0);
    assert_eq!(
        heap.describe(),
        "Heap [Some(1)]\n  - Region #0 : Dropped\n  - Region #1 : Alive (&0)\n"
    );
}

#[test]
fn test_stack_scoping() {
    let mut stack = Stack::new();
    stack.push(Region::default());
    assert_eq!(stack.depth(), 1);

    let t = TypeDescriptor::new(2, String::from("pair"));
    let reference = stack.allocate(Value::new(t, vec![4, 5]));
    assert_eq!(reference.level(), 0);
    assert!(stack.validate(&reference));
    let back = stack.dereference(reference.clone()).unwrap();
    assert_eq!(*back.raw(), vec![4, 5]);

    let frame = stack.pop().unwrap();
    assert_eq!(frame.len(), 2);
    assert!(!stack.validate(&reference));
    assert!(stack.dereference(reference).is_none());
}

#[test]
fn test_stack_two_frames() {
    let mut stack = Stack::new();
    stack.push(Region::default());
    stack.push(Region::default());

    let t = TypeDescriptor::new(1, String::from("byte"));
    let reference = stack.allocate(Value::new(t, vec![9]));
    assert_eq!(reference.level(), 1);

    // Popping the top frame invalidates the reference; a later push to the
    // same depth makes it appear valid again — the accepted positional
    // weakness of stack levels.
    stack.pop().unwrap();
    assert!(!stack.validate(&reference));
    stack.push(Region::default());
    assert!(stack.validate(&reference));
    // The new frame at that depth is empty, so the decode now fails.
    assert!(stack.dereference(reference).is_none());
}

#[test]
fn test_stack_pop_empty_is_none() {
    let mut stack = Stack::new();
    assert!(stack.pop().is_none());
}
