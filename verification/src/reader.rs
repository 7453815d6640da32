//! Reading a host value: the runtime asks the host what `typeof` says of a
//! handle, then for the facts that this kind of value needs, and builds the
//! `Value`. The host is asked by whoever drives the reader; the reader only
//! decides what to ask next and what the answers mean.
use vstd::prelude::*;
use crate::handles::{is_truthy_bits, truthy_bits, IS_ARRAY_ID, IS_NULL_ID, SYMBOL_KEY_FOR_ID, TYPEOF_ID};
use crate::intern::{value_step, InternView};
use crate::text::{decode_utf16_lossy, lemma_decode_encode, text_is, utf16_decode_lossy, utf16_encode};
use crate::value::{AnyObject, Array, Function, ObjectView, PlainObject, Symbol, SymbolView, Value, ValueView};

verus! {

/// A question for the host.
#[derive(Debug)]
pub enum HostQuery {
    /// Call the host function `f` on `x`; the answer is a handle.
    Call1(usize, usize),
    /// Read the property of `x` named by the string; the answer is a handle.
    Property(usize, &'static str),
    /// The bits of the number at a handle.
    Number(usize),
    /// The UTF-16 code units of the string at a handle.
    Text(usize),
}

/// The host's answer to a `HostQuery`.
#[derive(Debug)]
pub enum HostReply {
    Handle(usize),
    Number(u64),
    Text(Vec<u16>),
}

pub enum ReplyView {
    Handle(usize),
    Number(u64),
    Text(Seq<u16>),
}

impl View for HostReply {
    type V = ReplyView;

    open spec fn view(&self) -> ReplyView {
        match self {
            HostReply::Handle(h) => ReplyView::Handle(*h),
            HostReply::Number(b) => ReplyView::Number(*b),
            HostReply::Text(u) => ReplyView::Text(u@),
        }
    }
}

/// Where a read stands, with what it has learnt so far.
#[derive(Debug)]
pub enum ReadStage {
    /// Waiting for the handle of `typeof x`.
    TypeHandle,
    /// Waiting for the text of `typeof x`, held at the handle.
    TypeText(usize),
    /// An object: waiting for the handle of the null test.
    NullHandle,
    /// Waiting for the number that says whether `x` is null.
    NullFlag(usize),
    /// A non-null object: waiting for the handle of the array test.
    ArrayHandle,
    /// Waiting for the number that says whether `x` is an array.
    ArrayFlag(usize),
    /// A boolean: waiting for its number.
    BooleanFlag,
    /// A number: waiting for its bits.
    NumberBits,
    /// A string: waiting for its code units.
    StringText,
    /// A symbol: waiting for the handle of its description.
    DescriptionHandle,
    /// Waiting for the description's code units.
    DescriptionText(usize),
    /// Described: waiting for the handle of `Symbol.keyFor(x)`.
    KeyHandle(String),
    /// Waiting for the handle of `typeof Symbol.keyFor(x)`.
    KeyTypeHandle(String, usize),
    /// Waiting for the text of that `typeof`.
    KeyTypeText(String, usize),
}

pub enum StageView {
    TypeHandle,
    TypeText(usize),
    NullHandle,
    NullFlag(usize),
    ArrayHandle,
    ArrayFlag(usize),
    BooleanFlag,
    NumberBits,
    StringText,
    DescriptionHandle,
    DescriptionText(usize),
    KeyHandle(Seq<char>),
    KeyTypeHandle(Seq<char>, usize),
    KeyTypeText(Seq<char>, usize),
}

impl View for ReadStage {
    type V = StageView;

    open spec fn view(&self) -> StageView {
        match self {
            ReadStage::TypeHandle => StageView::TypeHandle,
            ReadStage::TypeText(t) => StageView::TypeText(*t),
            ReadStage::NullHandle => StageView::NullHandle,
            ReadStage::NullFlag(n) => StageView::NullFlag(*n),
            ReadStage::ArrayHandle => StageView::ArrayHandle,
            ReadStage::ArrayFlag(a) => StageView::ArrayFlag(*a),
            ReadStage::BooleanFlag => StageView::BooleanFlag,
            ReadStage::NumberBits => StageView::NumberBits,
            ReadStage::StringText => StageView::StringText,
            ReadStage::DescriptionHandle => StageView::DescriptionHandle,
            ReadStage::DescriptionText(d) => StageView::DescriptionText(*d),
            ReadStage::KeyHandle(n) => StageView::KeyHandle(n@),
            ReadStage::KeyTypeHandle(n, k) => StageView::KeyTypeHandle(n@, *k),
            ReadStage::KeyTypeText(n, t) => StageView::KeyTypeText(n@, *t),
        }
    }
}

/// The reading of the value at handle `id`.
#[derive(Debug)]
pub struct ValueReader {
    pub id: usize,
    pub stage: ReadStage,
}

pub struct ReaderView {
    pub id: usize,
    pub stage: StageView,
}

impl View for ValueReader {
    type V = ReaderView;

    open spec fn view(&self) -> ReaderView {
        ReaderView { id: self.id, stage: self.stage@ }
    }
}

/// Why a read stopped without a value.
#[derive(Debug)]
pub enum ReadFailure {
    /// `typeof` gave a text that no kind of value has.
    UnexpectedType(usize, String),
    /// `typeof Symbol.keyFor(x)` was neither `undefined` nor `string`.
    UnexpectedKeyFor(usize, String),
    /// The answer was not of the kind that the question asks for.
    Mismatch,
}

pub enum FailureView {
    UnexpectedType(usize, Seq<char>),
    UnexpectedKeyFor(usize, Seq<char>),
    Mismatch,
}

impl View for ReadFailure {
    type V = FailureView;

    open spec fn view(&self) -> FailureView {
        match self {
            ReadFailure::UnexpectedType(x, t) => FailureView::UnexpectedType(*x, t@),
            ReadFailure::UnexpectedKeyFor(x, t) => FailureView::UnexpectedKeyFor(*x, t@),
            ReadFailure::Mismatch => FailureView::Mismatch,
        }
    }
}

/// What a read does after an answer.
#[derive(Debug)]
pub enum ReadStep {
    Ask(ValueReader),
    Done(Value),
    Failed(ReadFailure),
}

pub enum StepView {
    Ask(ReaderView),
    Done(ValueView),
    Failed(FailureView),
}

impl View for ReadStep {
    type V = StepView;

    open spec fn view(&self) -> StepView {
        match self {
            ReadStep::Ask(r) => StepView::Ask(r@),
            ReadStep::Done(v) => StepView::Done(v@),
            ReadStep::Failed(f) => StepView::Failed(f@),
        }
    }
}

/// The question that a read at this stage puts to the host.
pub open spec fn pending(r: ReaderView) -> HostQuery {
    match r.stage {
        StageView::TypeHandle => HostQuery::Call1(TYPEOF_ID, r.id),
        StageView::TypeText(t) => HostQuery::Text(t),
        StageView::NullHandle => HostQuery::Call1(IS_NULL_ID, r.id),
        StageView::NullFlag(n) => HostQuery::Number(n),
        StageView::ArrayHandle => HostQuery::Call1(IS_ARRAY_ID, r.id),
        StageView::ArrayFlag(a) => HostQuery::Number(a),
        StageView::BooleanFlag => HostQuery::Number(r.id),
        StageView::NumberBits => HostQuery::Number(r.id),
        StageView::StringText => HostQuery::Text(r.id),
        StageView::DescriptionHandle => HostQuery::Property(r.id, "description"),
        StageView::DescriptionText(d) => HostQuery::Text(d),
        StageView::KeyHandle(_) => HostQuery::Call1(SYMBOL_KEY_FOR_ID, r.id),
        StageView::KeyTypeHandle(_, k) => HostQuery::Call1(TYPEOF_ID, k),
        StageView::KeyTypeText(_, t) => HostQuery::Text(t),
    }
}

pub open spec fn ask(id: usize, stage: StageView) -> StepView {
    StepView::Ask(ReaderView { id, stage })
}

/// The value that `typeof` text `ts` makes of handle `id` at once, or the
/// stage that reads it further.
pub open spec fn after_typeof(id: usize, ts: Seq<char>) -> StepView {
    if ts == "undefined"@ {
        StepView::Done(ValueView::Undefined)
    } else if ts == "object"@ {
        ask(id, StageView::NullHandle)
    } else if ts == "boolean"@ {
        ask(id, StageView::BooleanFlag)
    } else if ts == "number"@ {
        ask(id, StageView::NumberBits)
    } else if ts == "string"@ {
        ask(id, StageView::StringText)
    } else if ts == "symbol"@ {
        ask(id, StageView::DescriptionHandle)
    } else if ts == "function"@ {
        StepView::Done(ValueView::Object(ObjectView::Function(id)))
    } else {
        StepView::Failed(FailureView::UnexpectedType(id, ts))
    }
}

/// A symbol is in the global registry when `Symbol.keyFor` gives a string.
pub open spec fn after_key_type(id: usize, name: Seq<char>, kt: Seq<char>) -> StepView {
    if kt == "undefined"@ {
        StepView::Done(ValueView::Symbol(SymbolView { id, name, global: false }))
    } else if kt == "string"@ {
        StepView::Done(ValueView::Symbol(SymbolView { id, name, global: true }))
    } else {
        StepView::Failed(FailureView::UnexpectedKeyFor(id, kt))
    }
}

/// One step of a read: what an answer to the pending question leads to.
pub open spec fn read_next(r: ReaderView, a: ReplyView) -> StepView {
    let id = r.id;
    match (r.stage, a) {
        (StageView::TypeHandle, ReplyView::Handle(t)) => ask(id, StageView::TypeText(t)),
        (StageView::TypeText(_), ReplyView::Text(u)) => after_typeof(id, utf16_decode_lossy(u)),
        (StageView::NullHandle, ReplyView::Handle(n)) => ask(id, StageView::NullFlag(n)),
        (StageView::NullFlag(_), ReplyView::Number(b)) => if is_truthy_bits(b) {
            StepView::Done(ValueView::Null)
        } else {
            ask(id, StageView::ArrayHandle)
        },
        (StageView::ArrayHandle, ReplyView::Handle(a)) => ask(id, StageView::ArrayFlag(a)),
        (StageView::ArrayFlag(_), ReplyView::Number(b)) => if is_truthy_bits(b) {
            StepView::Done(ValueView::Object(ObjectView::Array(id)))
        } else {
            StepView::Done(ValueView::Object(ObjectView::Plain(id)))
        },
        (StageView::BooleanFlag, ReplyView::Number(b)) => StepView::Done(
            ValueView::Boolean(is_truthy_bits(b)),
        ),
        (StageView::NumberBits, ReplyView::Number(b)) => StepView::Done(ValueView::Number(b)),
        (StageView::StringText, ReplyView::Text(u)) => StepView::Done(
            ValueView::String(utf16_decode_lossy(u)),
        ),
        (StageView::DescriptionHandle, ReplyView::Handle(d)) => ask(
            id,
            StageView::DescriptionText(d),
        ),
        (StageView::DescriptionText(_), ReplyView::Text(u)) => ask(
            id,
            StageView::KeyHandle(utf16_decode_lossy(u)),
        ),
        (StageView::KeyHandle(name), ReplyView::Handle(k)) => ask(
            id,
            StageView::KeyTypeHandle(name, k),
        ),
        (StageView::KeyTypeHandle(name, _), ReplyView::Handle(t)) => ask(
            id,
            StageView::KeyTypeText(name, t),
        ),
        (StageView::KeyTypeText(name, _), ReplyView::Text(u)) => after_key_type(
            id,
            name,
            utf16_decode_lossy(u),
        ),
        _ => StepView::Failed(FailureView::Mismatch),
    }
}

impl ValueReader {
    /// Starts reading the value at handle `id`: first comes `typeof`.
    pub fn start(id: usize) -> (r: ValueReader)
        ensures
            r@ == (ReaderView { id, stage: StageView::TypeHandle }),
    {
        ValueReader { id, stage: ReadStage::TypeHandle }
    }

    /// The question that the read waits on.
    pub fn query(&self) -> (q: HostQuery)
        ensures
            q == pending(self@),
    {
        let id = self.id;
        match &self.stage {
            ReadStage::TypeHandle => HostQuery::Call1(TYPEOF_ID, id),
            ReadStage::TypeText(t) => HostQuery::Text(*t),
            ReadStage::NullHandle => HostQuery::Call1(IS_NULL_ID, id),
            ReadStage::NullFlag(n) => HostQuery::Number(*n),
            ReadStage::ArrayHandle => HostQuery::Call1(IS_ARRAY_ID, id),
            ReadStage::ArrayFlag(a) => HostQuery::Number(*a),
            ReadStage::BooleanFlag => HostQuery::Number(id),
            ReadStage::NumberBits => HostQuery::Number(id),
            ReadStage::StringText => HostQuery::Text(id),
            ReadStage::DescriptionHandle => HostQuery::Property(id, "description"),
            ReadStage::DescriptionText(d) => HostQuery::Text(*d),
            ReadStage::KeyHandle(_) => HostQuery::Call1(SYMBOL_KEY_FOR_ID, id),
            ReadStage::KeyTypeHandle(_, k) => HostQuery::Call1(TYPEOF_ID, *k),
            ReadStage::KeyTypeText(_, t) => HostQuery::Text(*t),
        }
    }

    fn ask(id: usize, stage: ReadStage) -> (s: ReadStep)
        ensures
            s@ == ask(id, stage@),
    {
        ReadStep::Ask(ValueReader { id, stage })
    }

    fn after_typeof(id: usize, ts: String) -> (s: ReadStep)
        ensures
            s@ == after_typeof(id, ts@),
    {
        if text_is(&ts, "undefined") {
            ReadStep::Done(Value::Undefined)
        } else if text_is(&ts, "object") {
            Self::ask(id, ReadStage::NullHandle)
        } else if text_is(&ts, "boolean") {
            Self::ask(id, ReadStage::BooleanFlag)
        } else if text_is(&ts, "number") {
            Self::ask(id, ReadStage::NumberBits)
        } else if text_is(&ts, "string") {
            Self::ask(id, ReadStage::StringText)
        } else if text_is(&ts, "symbol") {
            Self::ask(id, ReadStage::DescriptionHandle)
        } else if text_is(&ts, "function") {
            ReadStep::Done(Value::Object(AnyObject::Function(Function::from_handle(id))))
        } else {
            ReadStep::Failed(ReadFailure::UnexpectedType(id, ts))
        }
    }

    fn after_key_type(id: usize, name: String, kt: String) -> (s: ReadStep)
        ensures
            s@ == after_key_type(id, name@, kt@),
    {
        if text_is(&kt, "undefined") {
            ReadStep::Done(Value::Symbol(Symbol::new(id, name, false)))
        } else if text_is(&kt, "string") {
            ReadStep::Done(Value::Symbol(Symbol::new(id, name, true)))
        } else {
            ReadStep::Failed(ReadFailure::UnexpectedKeyFor(id, kt))
        }
    }

    /// Takes the host's answer to the pending question.
    pub fn resume(self, reply: HostReply) -> (s: ReadStep)
        ensures
            s@ == read_next(self@, reply@),
    {
        let id = self.id;
        match (self.stage, reply) {
            (ReadStage::TypeHandle, HostReply::Handle(t)) => Self::ask(id, ReadStage::TypeText(t)),
            (ReadStage::TypeText(_), HostReply::Text(u)) => {
                let ts = decode_utf16_lossy(u.as_slice());
                Self::after_typeof(id, ts)
            },
            (ReadStage::NullHandle, HostReply::Handle(n)) => Self::ask(id, ReadStage::NullFlag(n)),
            (ReadStage::NullFlag(_), HostReply::Number(b)) => {
                if truthy_bits(b) {
                    ReadStep::Done(Value::Null)
                } else {
                    Self::ask(id, ReadStage::ArrayHandle)
                }
            },
            (ReadStage::ArrayHandle, HostReply::Handle(a)) => Self::ask(id, ReadStage::ArrayFlag(a)),
            (ReadStage::ArrayFlag(_), HostReply::Number(b)) => {
                if truthy_bits(b) {
                    ReadStep::Done(Value::Object(AnyObject::Array(Array::from_handle(id))))
                } else {
                    ReadStep::Done(Value::Object(AnyObject::Plain(PlainObject::from_handle(id))))
                }
            },
            (ReadStage::BooleanFlag, HostReply::Number(b)) => ReadStep::Done(
                Value::Boolean(truthy_bits(b)),
            ),
            (ReadStage::NumberBits, HostReply::Number(b)) => ReadStep::Done(Value::Number(b)),
            (ReadStage::StringText, HostReply::Text(u)) => ReadStep::Done(
                Value::String(decode_utf16_lossy(u.as_slice())),
            ),
            (ReadStage::DescriptionHandle, HostReply::Handle(d)) => Self::ask(
                id,
                ReadStage::DescriptionText(d),
            ),
            (ReadStage::DescriptionText(_), HostReply::Text(u)) => Self::ask(
                id,
                ReadStage::KeyHandle(decode_utf16_lossy(u.as_slice())),
            ),
            (ReadStage::KeyHandle(name), HostReply::Handle(k)) => Self::ask(
                id,
                ReadStage::KeyTypeHandle(name, k),
            ),
            (ReadStage::KeyTypeHandle(name, _), HostReply::Handle(t)) => Self::ask(
                id,
                ReadStage::KeyTypeText(name, t),
            ),
            (ReadStage::KeyTypeText(name, _), HostReply::Text(u)) => {
                let kt = decode_utf16_lossy(u.as_slice());
                Self::after_key_type(id, name, kt)
            },
            _ => ReadStep::Failed(ReadFailure::Mismatch),
        }
    }
}

/// A host seen from the runtime: what each host function gives for each
/// argument. Handles, numbers and texts only; the runtime knows no more.
pub struct HostModel {
    pub call1: spec_fn(usize, usize) -> usize,
    pub property: spec_fn(usize, Seq<char>) -> usize,
    pub number: spec_fn(usize) -> u64,
    pub text: spec_fn(usize) -> Seq<u16>,
}

impl HostModel {
    /// The host's answer to a question.
    pub open spec fn answer(self, q: HostQuery) -> ReplyView {
        match q {
            HostQuery::Call1(f, x) => ReplyView::Handle((self.call1)(f, x)),
            HostQuery::Property(x, n) => ReplyView::Handle((self.property)(x, n@)),
            HostQuery::Number(x) => ReplyView::Number((self.number)(x)),
            HostQuery::Text(x) => ReplyView::Text((self.text)(x)),
        }
    }

    /// The text of the string at `x`.
    pub open spec fn string_at(self, x: usize) -> Seq<char> {
        utf16_decode_lossy((self.text)(x))
    }

    /// What `typeof x` says.
    pub open spec fn typeof_text(self, x: usize) -> Seq<char> {
        self.string_at((self.call1)(TYPEOF_ID, x))
    }

    /// Whether the number at `x` is truthy.
    pub open spec fn truthy_at(self, x: usize) -> bool {
        is_truthy_bits((self.number)(x))
    }
}

/// The value at handle `id`, read straight off the host: `typeof` decides
/// its kind; an object is null, an array or a plain object; a symbol carries
/// its description and is global when `Symbol.keyFor` finds a string for it.
pub open spec fn host_value(h: HostModel, id: usize) -> Result<ValueView, FailureView> {
    let ts = h.typeof_text(id);
    if ts == "undefined"@ {
        Ok(ValueView::Undefined)
    } else if ts == "object"@ {
        if h.truthy_at((h.call1)(IS_NULL_ID, id)) {
            Ok(ValueView::Null)
        } else if h.truthy_at((h.call1)(IS_ARRAY_ID, id)) {
            Ok(ValueView::Object(ObjectView::Array(id)))
        } else {
            Ok(ValueView::Object(ObjectView::Plain(id)))
        }
    } else if ts == "boolean"@ {
        Ok(ValueView::Boolean(h.truthy_at(id)))
    } else if ts == "number"@ {
        Ok(ValueView::Number((h.number)(id)))
    } else if ts == "string"@ {
        Ok(ValueView::String(h.string_at(id)))
    } else if ts == "symbol"@ {
        let name = h.string_at((h.property)(id, "description"@));
        let kt = h.typeof_text((h.call1)(SYMBOL_KEY_FOR_ID, id));
        if kt == "undefined"@ {
            Ok(ValueView::Symbol(SymbolView { id, name, global: false }))
        } else if kt == "string"@ {
            Ok(ValueView::Symbol(SymbolView { id, name, global: true }))
        } else {
            Err(FailureView::UnexpectedKeyFor(id, kt))
        }
    } else if ts == "function"@ {
        Ok(ValueView::Object(ObjectView::Function(id)))
    } else {
        Err(FailureView::UnexpectedType(id, ts))
    }
}

/// A read driven against the host, answering each question as the host
/// does, for at most `fuel` answers.
pub open spec fn run_read(h: HostModel, r: ReaderView, fuel: nat) -> Option<
    Result<ValueView, FailureView>,
>
    decreases fuel,
{
    if fuel == 0 {
        None
    } else {
        match read_next(r, h.answer(pending(r))) {
            StepView::Ask(next) => run_read(h, next, (fuel - 1) as nat),
            StepView::Done(v) => Some(Ok(v)),
            StepView::Failed(f) => Some(Err(f)),
        }
    }
}

/// A read that the host answers ends within seven answers, with the value
/// that `typeof` and the host's facts make of the handle, or with the
/// failure on which the runtime stops.
pub proof fn lemma_read_gives_host_value(h: HostModel, id: usize)
    ensures
        run_read(h, ReaderView { id, stage: StageView::TypeHandle }, 7) == Some(host_value(h, id)),
{
    reveal_with_fuel(run_read, 9);
}

/// An object or a symbol read from a handle goes back to the host as that
/// same handle, and sending it back neither asks the host nor changes the
/// remembered handles.
pub proof fn lemma_read_then_send_gives_the_handle<F: Fn(u64) -> usize, G: Fn(Vec<u16>) -> usize>(
    h: HostModel,
    id: usize,
    v: ValueView,
    before: InternView,
    after: InternView,
    r: usize,
    put_number: F,
    put_string: G,
)
    requires
        host_value(h, id) == Ok::<ValueView, FailureView>(v),
        v is Object || v is Symbol,
        value_step(before, after, v, r, put_number, put_string),
    ensures
        r == id,
        after == before,
{
}

/// The host holds at handle `r` what was sent as `v`: a number with its
/// bits, a string with its UTF-16 code units, and every other value with the
/// facts (`typeof`, the null and array tests, a symbol's description and
/// registry entry, a boolean's truth) that the host reports for it.
pub open spec fn host_holds(h: HostModel, r: usize, v: ValueView) -> bool {
    match v {
        ValueView::Null => h.typeof_text(r) == "object"@ && h.truthy_at((h.call1)(IS_NULL_ID, r)),
        ValueView::Undefined => h.typeof_text(r) == "undefined"@,
        ValueView::Boolean(b) => h.typeof_text(r) == "boolean"@ && h.truthy_at(r) == b,
        ValueView::Number(bits) => h.typeof_text(r) == "number"@ && (h.number)(r) == bits,
        ValueView::String(t) => h.typeof_text(r) == "string"@ && (h.text)(r) == utf16_encode(t),
        ValueView::Symbol(sym) => {
            &&& h.typeof_text(r) == "symbol"@
            &&& (h.text)((h.property)(r, "description"@)) == utf16_encode(sym.name)
            &&& h.typeof_text((h.call1)(SYMBOL_KEY_FOR_ID, r)) == if sym.global {
                "string"@
            } else {
                "undefined"@
            }
        },
        ValueView::Object(ObjectView::Function(_)) => h.typeof_text(r) == "function"@,
        ValueView::Object(ObjectView::Array(_)) => {
            &&& h.typeof_text(r) == "object"@
            &&& !h.truthy_at((h.call1)(IS_NULL_ID, r))
            &&& h.truthy_at((h.call1)(IS_ARRAY_ID, r))
        },
        ValueView::Object(ObjectView::Plain(_)) => {
            &&& h.typeof_text(r) == "object"@
            &&& !h.truthy_at((h.call1)(IS_NULL_ID, r))
            &&& !h.truthy_at((h.call1)(IS_ARRAY_ID, r))
        },
    }
}

/// The texts that `typeof` gives for the kinds of values are all different.
proof fn lemma_type_names_differ()
    ensures
        "undefined"@ != "object"@,
        "undefined"@ != "boolean"@,
        "undefined"@ != "number"@,
        "undefined"@ != "string"@,
        "undefined"@ != "symbol"@,
        "undefined"@ != "function"@,
        "object"@ != "boolean"@,
        "object"@ != "number"@,
        "object"@ != "string"@,
        "object"@ != "symbol"@,
        "object"@ != "function"@,
        "boolean"@ != "number"@,
        "boolean"@ != "string"@,
        "boolean"@ != "symbol"@,
        "boolean"@ != "function"@,
        "number"@ != "string"@,
        "number"@ != "symbol"@,
        "number"@ != "function"@,
        "string"@ != "symbol"@,
        "string"@ != "function"@,
        "symbol"@ != "function"@,
{
    reveal_strlit("undefined");
    reveal_strlit("object");
    reveal_strlit("boolean");
    reveal_strlit("number");
    reveal_strlit("string");
    reveal_strlit("symbol");
    reveal_strlit("function");
    assert("undefined"@[0] == 'u');
    assert("object"@[0] == 'o');
    assert("boolean"@[0] == 'b');
    assert("number"@[0] == 'n');
    assert("string"@[0] == 's' && "string"@[1] == 't');
    assert("symbol"@[0] == 's' && "symbol"@[1] == 'y');
    assert("function"@[0] == 'f');
}

/// A value sent to the host and read back from the handle it was sent as
/// comes back unchanged, when the host holds at that handle what was sent.
/// (Null, undefined and the booleans share one reserved handle, so a host
/// can hold only one of them there.)
pub proof fn lemma_send_then_read_gives_the_value<F: Fn(u64) -> usize, G: Fn(Vec<u16>) -> usize>(
    h: HostModel,
    v: ValueView,
    before: InternView,
    after: InternView,
    r: usize,
    put_number: F,
    put_string: G,
)
    requires
        value_step(before, after, v, r, put_number, put_string),
        host_holds(h, r, v),
    ensures
        host_value(h, r) == Ok::<ValueView, FailureView>(v),
{
    lemma_type_names_differ();
    if v is String {
        lemma_decode_encode(v->String_0);
    } else if v is Symbol {
        lemma_decode_encode(v->Symbol_0.name);
    }
}

} // verus!
