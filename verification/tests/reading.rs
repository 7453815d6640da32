use lib::descriptor::{DescFailure, DescQuery, DescReply, DescStep, DescriptorReader};
use lib::intern::{id_from_value, Interner};
use lib::handles::{IS_ARRAY_ID, IS_NULL_ID, SYMBOL_KEY_FOR_ID, TYPEOF_ID};
use lib::reader::{HostQuery, HostReply, ReadFailure, ReadStep, ValueReader};
use lib::value::{AnyObject, Function, Object, PropertyDescriptor, Value};

fn units(s: &str) -> Vec<u16> {
    s.encode_utf16().collect()
}

/// Drives a read, answering each question from the list in turn, and checks
/// that the questions are the expected ones.
fn drive(id: usize, script: Vec<(HostQuery, HostReply)>) -> Result<Value, ReadFailure> {
    let mut reader = ValueReader::start(id);
    for (expected, reply) in script {
        let q = reader.query();
        assert_eq!(format!("{:?}", q), format!("{:?}", expected));
        match reader.resume(reply) {
            ReadStep::Ask(next) => reader = next,
            ReadStep::Done(v) => return Ok(v),
            ReadStep::Failed(f) => return Err(f),
        }
    }
    panic!("the read asked for more than was scripted");
}

fn typeof_steps(id: usize, ts: &str) -> Vec<(HostQuery, HostReply)> {
    vec![
        (HostQuery::Call1(TYPEOF_ID, id), HostReply::Handle(500)),
        (HostQuery::Text(500), HostReply::Text(units(ts))),
    ]
}

#[test]
fn reads_undefined_and_functions_from_typeof_alone() {
    assert!(matches!(drive(7, typeof_steps(7, "undefined")), Ok(Value::Undefined)));
    match drive(7, typeof_steps(7, "function")) {
        Ok(Value::Object(AnyObject::Function(f))) => assert_eq!(f.id(), 7),
        other => panic!("{:?}", other),
    }
}

#[test]
fn reads_null_arrays_and_plain_objects() {
    let mut s = typeof_steps(8, "object");
    s.push((HostQuery::Call1(IS_NULL_ID, 8), HostReply::Handle(501)));
    s.push((HostQuery::Number(501), HostReply::Number(1.0f64.to_bits())));
    assert!(matches!(drive(8, s), Ok(Value::Null)));

    let mut s = typeof_steps(8, "object");
    s.push((HostQuery::Call1(IS_NULL_ID, 8), HostReply::Handle(501)));
    s.push((HostQuery::Number(501), HostReply::Number(0)));
    s.push((HostQuery::Call1(IS_ARRAY_ID, 8), HostReply::Handle(502)));
    s.push((HostQuery::Number(502), HostReply::Number(1.0f64.to_bits())));
    match drive(8, s) {
        Ok(Value::Object(AnyObject::Array(a))) => assert_eq!(a.id(), 8),
        other => panic!("{:?}", other),
    }

    let mut s = typeof_steps(8, "object");
    s.push((HostQuery::Call1(IS_NULL_ID, 8), HostReply::Handle(501)));
    s.push((HostQuery::Number(501), HostReply::Number(0)));
    s.push((HostQuery::Call1(IS_ARRAY_ID, 8), HostReply::Handle(502)));
    s.push((HostQuery::Number(502), HostReply::Number((-0.0f64).to_bits())));
    match drive(8, s) {
        Ok(Value::Object(AnyObject::Plain(o))) => assert_eq!(o.id(), 8),
        other => panic!("{:?}", other),
    }
}

#[test]
fn reads_booleans_numbers_and_strings() {
    let mut s = typeof_steps(9, "boolean");
    s.push((HostQuery::Number(9), HostReply::Number(1.0f64.to_bits())));
    assert!(matches!(drive(9, s), Ok(Value::Boolean(true))));

    let mut s = typeof_steps(9, "boolean");
    s.push((HostQuery::Number(9), HostReply::Number(0)));
    assert!(matches!(drive(9, s), Ok(Value::Boolean(false))));

    let mut s = typeof_steps(9, "number");
    s.push((HostQuery::Number(9), HostReply::Number(6.25f64.to_bits())));
    match drive(9, s) {
        Ok(Value::Number(bits)) => assert_eq!(f64::from_bits(bits), 6.25),
        other => panic!("{:?}", other),
    }

    let mut s = typeof_steps(9, "string");
    s.push((HostQuery::Text(9), HostReply::Text(vec![0x68, 0xD83D, 0xDE00, 0xD800, 0x69])));
    match drive(9, s) {
        Ok(Value::String(t)) => assert_eq!(t, "h😀\u{FFFD}i"),
        other => panic!("{:?}", other),
    }
}

fn symbol_steps(key_type: &str) -> Vec<(HostQuery, HostReply)> {
    let mut s = typeof_steps(10, "symbol");
    s.push((HostQuery::Property(10, "description"), HostReply::Handle(600)));
    s.push((HostQuery::Text(600), HostReply::Text(units("tag"))));
    s.push((HostQuery::Call1(SYMBOL_KEY_FOR_ID, 10), HostReply::Handle(601)));
    s.push((HostQuery::Call1(TYPEOF_ID, 601), HostReply::Handle(602)));
    s.push((HostQuery::Text(602), HostReply::Text(units(key_type))));
    s
}

#[test]
fn reads_local_and_global_symbols() {
    match drive(10, symbol_steps("undefined")) {
        Ok(Value::Symbol(sym)) => {
            assert_eq!(sym.id(), 10);
            let shown = format!("{:?}", sym);
            assert!(shown.contains("\"tag\"") && shown.contains("global: false"));
        },
        other => panic!("{:?}", other),
    }
    match drive(10, symbol_steps("string")) {
        Ok(Value::Symbol(sym)) => assert!(format!("{:?}", sym).contains("global: true")),
        other => panic!("{:?}", other),
    }
    match drive(10, symbol_steps("number")) {
        Err(ReadFailure::UnexpectedKeyFor(10, t)) => assert_eq!(t, "number"),
        other => panic!("{:?}", other),
    }
}

#[test]
fn unknown_typeof_and_wrong_answers_fail() {
    match drive(11, typeof_steps(11, "bigint")) {
        Err(ReadFailure::UnexpectedType(11, t)) => assert_eq!(t, "bigint"),
        other => panic!("{:?}", other),
    }
    let s = vec![(HostQuery::Call1(TYPEOF_ID, 11), HostReply::Number(0))];
    assert!(matches!(drive(11, s), Err(ReadFailure::Mismatch)));
}

fn drive_descriptor(
    id: usize,
    script: Vec<(DescQuery, DescReply)>,
) -> Result<PropertyDescriptor, DescFailure> {
    let mut reader = DescriptorReader::start(id);
    for (expected, reply) in script {
        assert_eq!(format!("{:?}", reader.query()), format!("{:?}", expected));
        match reader.resume(reply) {
            DescStep::Ask(next) => reader = next,
            DescStep::Done(d) => return Ok(d),
            DescStep::Failed(f) => return Err(f),
        }
    }
    panic!("the read asked for more than was scripted");
}

#[test]
fn reads_data_descriptors() {
    let s = vec![
        (DescQuery::ValueOf(20, "writable"), DescReply::Value(Value::Boolean(true))),
        (DescQuery::ValueOf(20, "value"), DescReply::Value(Value::Number(4.0f64.to_bits()))),
        (DescQuery::FlagOf(20, "enumerable"), DescReply::Number(0)),
        (DescQuery::FlagOf(20, "configurable"), DescReply::Number(1.0f64.to_bits())),
    ];
    match drive_descriptor(20, s) {
        Ok(PropertyDescriptor::Data(d)) => {
            assert!(d.writable);
            assert!(!d.enumerable);
            assert!(d.configurable);
            assert!(matches!(d.value, Value::Number(b) if b == 4.0f64.to_bits()));
        },
        other => panic!("{:?}", other),
    }
}

#[test]
fn reads_accessor_descriptors() {
    let getter = Value::Object(AnyObject::Function(Function::from_handle(30)));
    let s = vec![
        (DescQuery::ValueOf(21, "writable"), DescReply::Value(Value::Undefined)),
        (DescQuery::ValueOf(21, "get"), DescReply::Value(getter)),
        (DescQuery::ValueOf(21, "set"), DescReply::Value(Value::Undefined)),
        (DescQuery::FlagOf(21, "enumerable"), DescReply::Number(1.0f64.to_bits())),
        (DescQuery::FlagOf(21, "configurable"), DescReply::Number(0)),
    ];
    match drive_descriptor(21, s) {
        Ok(PropertyDescriptor::Accessor(d)) => {
            assert_eq!(d.get.as_ref().map(|f| f.id()), Some(30));
            assert!(d.set.is_none());
            assert!(d.enumerable);
            assert!(!d.configurable);
        },
        other => panic!("{:?}", other),
    }
}

#[test]
fn odd_descriptor_fields_fail() {
    let s = vec![(DescQuery::ValueOf(22, "writable"), DescReply::Value(Value::Null))];
    assert!(matches!(drive_descriptor(22, s), Err(DescFailure::UnexpectedWritable(22, Value::Null))));
    let s = vec![
        (DescQuery::ValueOf(22, "writable"), DescReply::Value(Value::Undefined)),
        (DescQuery::ValueOf(22, "get"), DescReply::Value(Value::Boolean(true))),
    ];
    assert!(matches!(drive_descriptor(22, s), Err(DescFailure::UnexpectedGetter(22))));
    let s = vec![
        (DescQuery::ValueOf(22, "writable"), DescReply::Value(Value::Undefined)),
        (DescQuery::ValueOf(22, "get"), DescReply::Value(Value::Undefined)),
        (DescQuery::ValueOf(22, "set"), DescReply::Value(Value::Number(0))),
    ];
    assert!(matches!(drive_descriptor(22, s), Err(DescFailure::UnexpectedSetter(22))));
    let s = vec![(DescQuery::ValueOf(22, "writable"), DescReply::Number(0))];
    assert!(matches!(drive_descriptor(22, s), Err(DescFailure::Mismatch)));
}

#[test]
fn a_read_object_goes_back_as_its_handle() {
    let mut t = Interner::new();
    let never_number = |_b: u64| -> usize { panic!("no number is made") };
    let never_string = |_u: Vec<u16>| -> usize { panic!("no string is made") };
    let f = drive(42, typeof_steps(42, "function")).unwrap();
    assert_eq!(id_from_value(&mut t, &f, &never_number, &never_string), 42);
    let sym = drive(10, symbol_steps("string")).unwrap();
    assert_eq!(id_from_value(&mut t, &sym, &never_number, &never_string), 10);
    assert_eq!(t.known_string("tag"), None);
}
