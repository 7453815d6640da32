use std::cell::{Cell, RefCell};

use lib::call::{bind_arguments, call_arguments, ArgumentArray};
use lib::handles::{EMPTY_ARRAY_ID, FALSE_ID, NULL_ID, TRUE_ID, UNDEFINED_ID};
use lib::intern::{id_from_object_key, id_from_str, id_from_value, ids_from_values, Interner};
use lib::value::{AnyObject, Array, Function, ObjectKey, Symbol, Value};

#[test]
fn a_number_is_made_once() {
    let mut t = Interner::new();
    let calls = Cell::new(0usize);
    let put = |bits: u64| -> usize {
        calls.set(calls.get() + 1);
        assert_eq!(bits, 2.5f64.to_bits());
        100
    };
    assert_eq!(t.number_id(2.5f64.to_bits(), &put), 100);
    assert_eq!(t.number_id(2.5f64.to_bits(), &put), 100);
    assert_eq!(calls.get(), 1);
    assert_eq!(t.known_number(2.5f64.to_bits()), Some(100));
    assert_eq!(t.known_number(0), None);
}

#[test]
fn distinct_numbers_get_their_own_handles() {
    let mut t = Interner::new();
    let next = Cell::new(10usize);
    let put = |_bits: u64| -> usize {
        next.set(next.get() + 1);
        next.get()
    };
    let a = t.number_id(0.0f64.to_bits(), &put);
    let b = t.number_id((-0.0f64).to_bits(), &put);
    let c = t.number_id(0.0f64.to_bits(), &put);
    assert_eq!(a, 11);
    assert_eq!(b, 12);
    assert_eq!(c, 11);
}

#[test]
fn a_string_is_sent_as_utf16_once() {
    let mut t = Interner::new();
    let sent: RefCell<Vec<Vec<u16>>> = RefCell::new(Vec::new());
    let put = |units: Vec<u16>| -> usize {
        sent.borrow_mut().push(units);
        7
    };
    assert_eq!(t.string_id("é😀a", &put), 7);
    assert_eq!(t.string_id("é😀a", &put), 7);
    assert_eq!(sent.borrow().len(), 1);
    assert_eq!(sent.borrow()[0], vec![0x00E9u16, 0xD83D, 0xDE00, 0x0061]);
    assert_eq!(t.known_string("é😀a"), Some(7));
    assert_eq!(t.known_string("other"), None);
}

#[test]
fn id_from_str_interns_names() {
    let mut t = Interner::new();
    let next = Cell::new(0usize);
    let put = |_u: Vec<u16>| -> usize {
        next.set(next.get() + 1);
        next.get()
    };
    assert_eq!(id_from_str(&mut t, "writable", &put), 1);
    assert_eq!(id_from_str(&mut t, "enumerable", &put), 2);
    assert_eq!(id_from_str(&mut t, "writable", &put), 1);
    assert_eq!(id_from_str(&mut t, "", &put), 3);
}

#[test]
fn keys_and_values_map_to_handles() {
    let mut t = Interner::new();
    let put_number = |_b: u64| -> usize { 50 };
    let put_string = |_u: Vec<u16>| -> usize { 60 };
    let sym = Symbol::new(33, String::from("tag"), false);
    assert_eq!(id_from_object_key(&mut t, &ObjectKey::Symbol(sym.clone()), &put_string), 33);
    assert_eq!(id_from_object_key(&mut t, &ObjectKey::String(String::from("k")), &put_string), 60);
    assert_eq!(id_from_value(&mut t, &Value::Null, &put_number, &put_string), NULL_ID);
    assert_eq!(id_from_value(&mut t, &Value::Undefined, &put_number, &put_string), UNDEFINED_ID);
    assert_eq!(id_from_value(&mut t, &Value::Boolean(true), &put_number, &put_string), TRUE_ID);
    assert_eq!(id_from_value(&mut t, &Value::Boolean(false), &put_number, &put_string), FALSE_ID);
    assert_eq!(id_from_value(&mut t, &Value::Number(3.0f64.to_bits()), &put_number, &put_string), 50);
    assert_eq!(id_from_value(&mut t, &Value::String(String::from("k")), &put_number, &put_string), 60);
    assert_eq!(id_from_value(&mut t, &Value::Symbol(sym), &put_number, &put_string), 33);
    let f = Value::Object(AnyObject::Function(Function::from_handle(12)));
    assert_eq!(id_from_value(&mut t, &f, &put_number, &put_string), 12);
    assert_eq!(t.known_string("k"), Some(60));
    assert_eq!(t.known_number(3.0f64.to_bits()), Some(50));
}

#[test]
fn several_values_in_order() {
    let mut t = Interner::new();
    let next = Cell::new(100usize);
    let put_number = |_b: u64| -> usize {
        next.set(next.get() + 1);
        next.get()
    };
    let put_string = |_u: Vec<u16>| -> usize {
        next.set(next.get() + 1);
        next.get()
    };
    let a = Value::Number(1.0f64.to_bits());
    let b = Value::String(String::from("x"));
    let c = Value::Number(1.0f64.to_bits());
    let d = Value::Object(AnyObject::Array(Array::from_handle(9)));
    let ids = ids_from_values(&mut t, &[&a, &b, &c, &d], &put_number, &put_string);
    assert_eq!(ids, vec![101, 102, 101, 9]);
}

#[test]
fn call_arguments_use_the_empty_array_when_there_are_none() {
    let mut t = Interner::new();
    let put_number = |_b: u64| -> usize { 70 };
    let put_string = |_u: Vec<u16>| -> usize { 80 };
    match call_arguments(&mut t, &[], &put_number, &put_string) {
        ArgumentArray::Existing(h) => assert_eq!(h, EMPTY_ARRAY_ID),
        ArgumentArray::Fresh(_) => panic!("no array is built for no arguments"),
    }
    let a = Value::Boolean(true);
    let b = Value::String(String::from("s"));
    match call_arguments(&mut t, &[&a, &b], &put_number, &put_string) {
        ArgumentArray::Existing(_) => panic!("arguments need an array"),
        ArgumentArray::Fresh(w) => assert_eq!(w, vec![TRUE_ID as u32, 80]),
    }
}

#[test]
fn bind_puts_this_first() {
    let mut t = Interner::new();
    let put_number = |bits: u64| -> usize { if bits == 0 { 5 } else { 6 } };
    let put_string = |_u: Vec<u16>| -> usize { 90 };
    let this = Value::Undefined;
    let idx = Value::Number(0.0f64.to_bits());
    let words = bind_arguments(&mut t, &this, &[&idx], &put_number, &put_string);
    assert_eq!(words, vec![UNDEFINED_ID as u32, 5]);
    let words = bind_arguments(&mut t, &Value::Number(1.0f64.to_bits()), &[], &put_number, &put_string);
    assert_eq!(words, vec![6]);
}
