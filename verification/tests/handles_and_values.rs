use lib::cell::SyncUnsafeCell;
use lib::handles::{
    enumerability_descriptor, getter_descriptor, host_words, id_from_bool, setter_descriptor,
    truthy_bits, value_descriptor, writability_descriptor, DEFAULT_DATA_DESCRIPTOR_ID,
    DEFAULT_GETTER_DESCRIPTOR_ID, DEFAULT_SETTER_DESCRIPTOR_ID, EMPTY_GETTER_DESCRIPTOR_ID,
    EMPTY_SETTER_DESCRIPTOR_ID, EMPTY_VALUE_DESCRIPTOR_ID, ENUMERABLE_DESCRIPTOR_ID, FALSE_ID,
    TRUE_ID, UNDEFINED_ID, UNENUMERABLE_DESCRIPTOR_ID, UNWRITABLE_DESCRIPTOR_ID,
    WRITABLE_DESCRIPTOR_ID,
};
use lib::value::{accessor_id, call_result, AnyObject, Function, Object, PlainObject};

#[test]
fn cell_holds_and_replaces_its_value() {
    let mut c = SyncUnsafeCell::new(41u32);
    assert_eq!(*c.get(), 41);
    *c.get_mut() += 1;
    assert_eq!(*c.get(), 42);
    assert_eq!(c.into_inner(), 42);
}

#[test]
fn booleans_have_reserved_handles() {
    assert_eq!(id_from_bool(true), TRUE_ID);
    assert_eq!(id_from_bool(false), FALSE_ID);
}

#[test]
fn truthiness_of_host_numbers() {
    assert!(!truthy_bits(0.0f64.to_bits()));
    assert!(!truthy_bits((-0.0f64).to_bits()));
    assert!(truthy_bits(1.0f64.to_bits()));
    assert!(truthy_bits((-2.5f64).to_bits()));
    assert!(truthy_bits(f64::NAN.to_bits()));
    assert!(truthy_bits(f64::MIN_POSITIVE.to_bits()));
    assert!(truthy_bits(1));
}

#[test]
fn descriptor_templates_follow_the_key() {
    assert_eq!(value_descriptor(true), EMPTY_VALUE_DESCRIPTOR_ID);
    assert_eq!(value_descriptor(false), DEFAULT_DATA_DESCRIPTOR_ID);
    assert_eq!(getter_descriptor(true), EMPTY_GETTER_DESCRIPTOR_ID);
    assert_eq!(getter_descriptor(false), DEFAULT_GETTER_DESCRIPTOR_ID);
    assert_eq!(setter_descriptor(true), EMPTY_SETTER_DESCRIPTOR_ID);
    assert_eq!(setter_descriptor(false), DEFAULT_SETTER_DESCRIPTOR_ID);
    assert_eq!(writability_descriptor(true), WRITABLE_DESCRIPTOR_ID);
    assert_eq!(writability_descriptor(false), UNWRITABLE_DESCRIPTOR_ID);
    assert_eq!(enumerability_descriptor(true), ENUMERABLE_DESCRIPTOR_ID);
    assert_eq!(enumerability_descriptor(false), UNENUMERABLE_DESCRIPTOR_ID);
}

#[test]
fn host_words_keep_the_low_bits() {
    let ids: Vec<usize> = vec![0, 7, 999, u32::MAX as usize];
    assert_eq!(host_words(&ids), vec![0u32, 7, 999, u32::MAX]);
    if usize::BITS == 64 {
        let wide: Vec<usize> = vec![((1u64 << 32) + 5) as usize];
        assert_eq!(host_words(&wide), vec![5u32]);
    }
    assert_eq!(host_words(&Vec::new()), Vec::<u32>::new());
}

#[test]
fn accessor_slots_name_the_function_or_undefined() {
    let f = Function::from_handle(17);
    assert_eq!(accessor_id(Some(&f)), 17);
    assert_eq!(accessor_id(None), UNDEFINED_ID);
}

#[test]
fn call_results_point_past_the_record() {
    match call_result(40, 1.0f64.to_bits()) {
        Ok(h) => assert_eq!(h, 41),
        Err(_) => panic!("a truthy status is a return"),
    }
    match call_result(40, 0) {
        Ok(_) => panic!("a zero status is a throw"),
        Err(o) => assert_eq!(o.id(), 41),
    }
    match call_result(0, (-0.0f64).to_bits()) {
        Ok(_) => panic!("negative zero is falsy"),
        Err(o) => assert_eq!(o.id(), 1),
    }
}

#[test]
fn objects_report_their_handles() {
    assert_eq!(PlainObject::from_handle(5).id(), 5);
    assert_eq!(AnyObject::Function(Function::from_handle(6)).id(), 6);
    assert_eq!(AnyObject::Plain(PlainObject::from_handle(8)).id(), 8);
    assert_eq!(AnyObject::Array(lib::value::Array::from_handle(9)).id(), 9);
}
