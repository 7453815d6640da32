use std::cell::RefCell;

use lib::call::{array_words, call_arguments, ArgumentArray};
use lib::handles::TYPEOF_ID;
use lib::intern::{id_from_value, Interner};
use lib::reader::{HostQuery, HostReply, ReadStep, ValueReader};
use lib::value::{AnyObject, Array, Value};

/// A toy host: handles below 1000 are the `typeof` text records handed out
/// by `typeof` calls; numbers and strings are stored as sent.
struct ToyHost {
    numbers: Vec<u64>,
    strings: Vec<Vec<u16>>,
}

const NUMBER_BASE: usize = 2000;
const STRING_BASE: usize = 3000;
const TYPE_NUMBER: usize = 10;
const TYPE_STRING: usize = 11;

impl ToyHost {
    fn answer(&self, q: HostQuery) -> HostReply {
        match q {
            HostQuery::Call1(f, x) if f == TYPEOF_ID => {
                if x >= STRING_BASE {
                    HostReply::Handle(TYPE_STRING)
                } else {
                    HostReply::Handle(TYPE_NUMBER)
                }
            },
            HostQuery::Text(TYPE_NUMBER) => HostReply::Text("number".encode_utf16().collect()),
            HostQuery::Text(TYPE_STRING) => HostReply::Text("string".encode_utf16().collect()),
            HostQuery::Text(x) => HostReply::Text(self.strings[x - STRING_BASE].clone()),
            HostQuery::Number(x) => HostReply::Number(self.numbers[x - NUMBER_BASE]),
            other => panic!("not asked here: {:?}", other),
        }
    }

    fn read(&self, id: usize) -> Value {
        let mut reader = ValueReader::start(id);
        loop {
            let q = reader.query();
            match reader.resume(self.answer(q)) {
                ReadStep::Ask(next) => reader = next,
                ReadStep::Done(v) => return v,
                ReadStep::Failed(f) => panic!("{:?}", f),
            }
        }
    }
}

#[test]
fn a_value_sent_and_read_back_is_unchanged() {
    let host = RefCell::new(ToyHost { numbers: Vec::new(), strings: Vec::new() });
    let put_number = |bits: u64| -> usize {
        let mut h = host.borrow_mut();
        h.numbers.push(bits);
        NUMBER_BASE + h.numbers.len() - 1
    };
    let put_string = |units: Vec<u16>| -> usize {
        let mut h = host.borrow_mut();
        h.strings.push(units);
        STRING_BASE + h.strings.len() - 1
    };
    let mut t = Interner::new();
    let n = Value::Number((-7.5f64).to_bits());
    let s = Value::String(String::from("a\u{e9}\u{1F600}\u{FFFF}"));
    let n_id = id_from_value(&mut t, &n, &put_number, &put_string);
    let s_id = id_from_value(&mut t, &s, &put_number, &put_string);
    match host.borrow().read(n_id) {
        Value::Number(bits) => assert_eq!(f64::from_bits(bits), -7.5),
        other => panic!("{:?}", other),
    }
    match host.borrow().read(s_id) {
        Value::String(text) => assert_eq!(text, "a\u{e9}\u{1F600}\u{FFFF}"),
        other => panic!("{:?}", other),
    }
    // The text took as many units on the host as it takes again.
    assert_eq!(host.borrow().strings[0].len(), "a\u{e9}\u{1F600}\u{FFFF}".encode_utf16().count());
}

#[test]
fn decoding_keeps_the_unit_count() {
    let host = ToyHost { numbers: Vec::new(), strings: vec![vec![0xDC00, 0xD800, 0xD801, 0xDC37, 0x41]] };
    match host.read(STRING_BASE) {
        Value::String(text) => {
            assert_eq!(text, "\u{FFFD}\u{FFFD}\u{10437}A");
            assert_eq!(text.encode_utf16().count(), 5);
        },
        other => panic!("{:?}", other),
    }
}

#[test]
fn a_call_builds_the_array_that_collecting_builds() {
    let put_number = |bits: u64| -> usize { 4000 + (bits % 1000) as usize };
    let put_string = |units: Vec<u16>| -> usize { 5000 + units.len() };
    let a = Value::Number(3);
    let b = Value::String(String::from("xy"));
    let c = Value::Object(AnyObject::Array(Array::from_handle(77)));
    let args = [&a, &b, &c];
    let mut t1 = Interner::new();
    let mut t2 = Interner::new();
    let collected = array_words(&mut t1, &args, &put_number, &put_string);
    match call_arguments(&mut t2, &args, &put_number, &put_string) {
        ArgumentArray::Fresh(words) => assert_eq!(words, collected),
        ArgumentArray::Existing(_) => panic!("arguments need an array"),
    }
    assert_eq!(collected, vec![4003, 5002, 77]);
    assert_eq!(t1.known_string("xy"), t2.known_string("xy"));
}
