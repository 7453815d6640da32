//! The host handles that the runtime reserves, and the small decisions that
//! are made on host handles and host numbers.
use vstd::prelude::*;

verus! {

/// `typeof` as a host function; also the handle through which globals are reached.
pub const TYPEOF_ID: usize = 0;
/// The host function that forwards a call to a registered callback.
pub const CALLBACK_ID: usize = 1;
/// The `new.target` of the current call.
pub const NEW_TARGET_ID: usize = 2;
/// The `arguments` of the current call.
pub const ARGUMENTS_ID: usize = 3;
/// The first handle that the host hands out for values it builds.
pub const BUILT_ID: usize = 4;
pub const NULL_ID: usize = 999;
pub const UNDEFINED_ID: usize = 999;
pub const TRUE_ID: usize = 999;
pub const FALSE_ID: usize = 999;

pub const OBJECT_CREATE_ID: usize = 999;
pub const DEFINE_PROPERTY_ID: usize = 999;
pub const OBJECT_IS_ID: usize = 999;
pub const IS_EXTENSIBLE_ID: usize = 999;
pub const IS_NULL_ID: usize = 999;
pub const GET_OWN_PROPERTY_DESCRIPTOR_ID: usize = 999;
pub const GET_OWN_PROPERTY_NAMES_ID: usize = 999;
pub const GET_OWN_PROPERTY_SYMBOLS_ID: usize = 999;
pub const PREVENT_EXTENSIONS_ID: usize = 999;
pub const SET_PROTOTYPE_OF_ID: usize = 999;

pub const PROTO_GET_CALL_ID: usize = 999;
pub const BIND_APPLY_ID: usize = 999;
pub const IS_ARRAY_ID: usize = 999;
pub const SYMBOL_KEY_FOR_ID: usize = 999;

pub const EMPTY_ARRAY_ID: usize = 999;
/// `{value: ?, writable: true, enumerable: true, configurable: true}`
pub const DEFAULT_DATA_DESCRIPTOR_ID: usize = 999;
/// `{getter: ?, enumerable: true, configurable: true}`
pub const DEFAULT_GETTER_DESCRIPTOR_ID: usize = 999;
/// `{setter: ?, enumerable: true, configurable: true}`
pub const DEFAULT_SETTER_DESCRIPTOR_ID: usize = 999;
/// `{value: ?}`
pub const EMPTY_VALUE_DESCRIPTOR_ID: usize = 999;
/// `{getter: ?}`
pub const EMPTY_GETTER_DESCRIPTOR_ID: usize = 999;
/// `{setter: ?}`
pub const EMPTY_SETTER_DESCRIPTOR_ID: usize = 999;
/// `{writable: true}`
pub const WRITABLE_DESCRIPTOR_ID: usize = 999;
/// `{writable: false}`
pub const UNWRITABLE_DESCRIPTOR_ID: usize = 999;
/// `{enumerable: true}`
pub const ENUMERABLE_DESCRIPTOR_ID: usize = 999;
/// `{enumerable: false}`
pub const UNENUMERABLE_DESCRIPTOR_ID: usize = 999;
/// `{configurable: false}`
pub const UNCONFIGURABLE_DESCRIPTOR_ID: usize = 999;

/// The global `Function.prototype`.
pub const FUNCTION_PROTOTYPE_ID: usize = 999;
/// The global `Object`.
pub const OBJECT_ID: usize = 999;
/// The global `Array`.
pub const ARRAY_ID: usize = 999;
/// The global `Symbol`.
pub const SYMBOL_ID: usize = 999;

/// The handle of a boolean.
pub open spec fn bool_handle(b: bool) -> usize {
    if b {
        TRUE_ID
    } else {
        FALSE_ID
    }
}

pub fn id_from_bool(b: bool) -> (r: usize)
    ensures
        r == bool_handle(b),
{
    match b {
        true => TRUE_ID,
        false => FALSE_ID,
    }
}

/// Sign bit of an IEEE-754 double.
pub const SIGN_BIT: u64 = 0x8000_0000_0000_0000;

/// A host number, given by its IEEE-754 bits, is truthy when it differs from
/// zero: every bit pattern but those of `+0.0` and `-0.0` (a NaN too).
pub open spec fn is_truthy_bits(bits: u64) -> bool {
    bits != 0 && bits != SIGN_BIT
}

/// Whether the host number with these bits compares unequal to `0.0`.
pub fn truthy_bits(bits: u64) -> (r: bool)
    ensures
        r == is_truthy_bits(bits),
{
    bits != 0 && bits != SIGN_BIT
}

/// The descriptor template that `set_value` fills in: a key that is already
/// there keeps its attributes; a new key becomes writable, enumerable and
/// configurable.
pub open spec fn value_template(has_key: bool) -> usize {
    if has_key {
        EMPTY_VALUE_DESCRIPTOR_ID
    } else {
        DEFAULT_DATA_DESCRIPTOR_ID
    }
}

pub fn value_descriptor(has_key: bool) -> (r: usize)
    ensures
        r == value_template(has_key),
{
    if has_key {
        EMPTY_VALUE_DESCRIPTOR_ID
    } else {
        DEFAULT_DATA_DESCRIPTOR_ID
    }
}

/// The template that `set_getter` fills in.
pub open spec fn getter_template(has_key: bool) -> usize {
    if has_key {
        EMPTY_GETTER_DESCRIPTOR_ID
    } else {
        DEFAULT_GETTER_DESCRIPTOR_ID
    }
}

pub fn getter_descriptor(has_key: bool) -> (r: usize)
    ensures
        r == getter_template(has_key),
{
    if has_key {
        EMPTY_GETTER_DESCRIPTOR_ID
    } else {
        DEFAULT_GETTER_DESCRIPTOR_ID
    }
}

/// The template that `set_setter` fills in.
pub open spec fn setter_template(has_key: bool) -> usize {
    if has_key {
        EMPTY_SETTER_DESCRIPTOR_ID
    } else {
        DEFAULT_SETTER_DESCRIPTOR_ID
    }
}

pub fn setter_descriptor(has_key: bool) -> (r: usize)
    ensures
        r == setter_template(has_key),
{
    if has_key {
        EMPTY_SETTER_DESCRIPTOR_ID
    } else {
        DEFAULT_SETTER_DESCRIPTOR_ID
    }
}

/// The descriptor that `set_writability` defines.
pub fn writability_descriptor(writable: bool) -> (r: usize)
    ensures
        r == (if writable {
            WRITABLE_DESCRIPTOR_ID
        } else {
            UNWRITABLE_DESCRIPTOR_ID
        }),
{
    if writable {
        WRITABLE_DESCRIPTOR_ID
    } else {
        UNWRITABLE_DESCRIPTOR_ID
    }
}

/// The descriptor that `set_enumerability` defines.
pub fn enumerability_descriptor(enumerable: bool) -> (r: usize)
    ensures
        r == (if enumerable {
            ENUMERABLE_DESCRIPTOR_ID
        } else {
            UNENUMERABLE_DESCRIPTOR_ID
        }),
{
    if enumerable {
        ENUMERABLE_DESCRIPTOR_ID
    } else {
        UNENUMERABLE_DESCRIPTOR_ID
    }
}

/// The host stores handles as 32-bit words: each handle keeps its low 32 bits.
pub fn host_words(ids: &Vec<usize>) -> (words: Vec<u32>)
    ensures
        words@.len() == ids@.len(),
        forall|i: int| 0 <= i < ids@.len() ==> #[trigger] words@[i] == ids@[i] as u32,
{
    let mut words: Vec<u32> = Vec::new();
    let mut i: usize = 0;
    while i < ids.len()
        invariant
            i <= ids@.len(),
            words@.len() == i,
            forall|j: int| 0 <= j < i ==> #[trigger] words@[j] == ids@[j] as u32,
        decreases ids@.len() - i,
    {
        words.push(ids[i] as u32);
        i = i + 1;
    }
    words
}

} // verus!
