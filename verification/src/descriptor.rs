//! Reading a property descriptor: the host's descriptor object at a handle
//! is turned into a `PropertyDescriptor`. A descriptor whose `writable` is
//! `undefined` is an accessor; one whose `writable` is a boolean holds data.
use vstd::prelude::*;
use crate::handles::{is_truthy_bits, truthy_bits};
use crate::reader::{host_value, FailureView, HostModel};
use crate::value::{
    function_slot, AccessorDescriptor, AccessorView, AnyObject, DataDescriptor, DataView,
    DescriptorView, Function, ObjectView, PropertyDescriptor, Value, ValueView,
};

verus! {

/// A question about the descriptor object.
#[derive(Debug)]
pub enum DescQuery {
    /// The value of the named property of the object at the handle.
    ValueOf(usize, &'static str),
    /// The bits of the number in the named property of the object at the handle.
    FlagOf(usize, &'static str),
}

/// The answer to a `DescQuery`.
#[derive(Debug)]
pub enum DescReply {
    Value(Value),
    Number(u64),
}

pub enum DescReplyView {
    Value(ValueView),
    Number(u64),
}

impl View for DescReply {
    type V = DescReplyView;

    open spec fn view(&self) -> DescReplyView {
        match self {
            DescReply::Value(v) => DescReplyView::Value(v@),
            DescReply::Number(b) => DescReplyView::Number(*b),
        }
    }
}

/// Where the reading of a descriptor stands, with what it has learnt.
#[derive(Debug)]
pub enum DescStage {
    /// Waiting for `writable`.
    Writable,
    /// An accessor: waiting for `get`.
    Getter,
    /// Waiting for `set`.
    Setter(Option<Function>),
    /// Waiting for `enumerable`.
    AccessorEnumerable(Option<Function>, Option<Function>),
    /// Waiting for `configurable`.
    AccessorConfigurable(Option<Function>, Option<Function>, bool),
    /// Data with this writability: waiting for `value`.
    DataValue(bool),
    /// Waiting for `enumerable`.
    DataEnumerable(bool, Value),
    /// Waiting for `configurable`.
    DataConfigurable(bool, Value, bool),
}

pub enum DescStageView {
    Writable,
    Getter,
    Setter(Option<usize>),
    AccessorEnumerable(Option<usize>, Option<usize>),
    AccessorConfigurable(Option<usize>, Option<usize>, bool),
    DataValue(bool),
    DataEnumerable(bool, ValueView),
    DataConfigurable(bool, ValueView, bool),
}

impl View for DescStage {
    type V = DescStageView;

    open spec fn view(&self) -> DescStageView {
        match self {
            DescStage::Writable => DescStageView::Writable,
            DescStage::Getter => DescStageView::Getter,
            DescStage::Setter(g) => DescStageView::Setter(function_slot(*g)),
            DescStage::AccessorEnumerable(g, s) => DescStageView::AccessorEnumerable(
                function_slot(*g),
                function_slot(*s),
            ),
            DescStage::AccessorConfigurable(g, s, e) => DescStageView::AccessorConfigurable(
                function_slot(*g),
                function_slot(*s),
                *e,
            ),
            DescStage::DataValue(w) => DescStageView::DataValue(*w),
            DescStage::DataEnumerable(w, v) => DescStageView::DataEnumerable(*w, v@),
            DescStage::DataConfigurable(w, v, e) => DescStageView::DataConfigurable(*w, v@, *e),
        }
    }
}

/// The reading of the descriptor object at handle `id`.
#[derive(Debug)]
pub struct DescriptorReader {
    pub id: usize,
    pub stage: DescStage,
}

pub struct DescReaderView {
    pub id: usize,
    pub stage: DescStageView,
}

impl View for DescriptorReader {
    type V = DescReaderView;

    open spec fn view(&self) -> DescReaderView {
        DescReaderView { id: self.id, stage: self.stage@ }
    }
}

/// Why a descriptor could not be read.
#[derive(Debug)]
pub enum DescFailure {
    /// `writable` was neither `undefined` nor a boolean.
    UnexpectedWritable(usize, Value),
    /// `get` was neither `undefined` nor a function.
    UnexpectedGetter(usize),
    /// `set` was neither `undefined` nor a function.
    UnexpectedSetter(usize),
    /// The answer was not of the kind that the question asks for.
    Mismatch,
}

pub enum DescFailureView {
    UnexpectedWritable(usize, ValueView),
    UnexpectedGetter(usize),
    UnexpectedSetter(usize),
    Mismatch,
    /// Reading one of the descriptor's values failed.
    Value(FailureView),
}

impl View for DescFailure {
    type V = DescFailureView;

    open spec fn view(&self) -> DescFailureView {
        match self {
            DescFailure::UnexpectedWritable(x, v) => DescFailureView::UnexpectedWritable(*x, v@),
            DescFailure::UnexpectedGetter(x) => DescFailureView::UnexpectedGetter(*x),
            DescFailure::UnexpectedSetter(x) => DescFailureView::UnexpectedSetter(*x),
            DescFailure::Mismatch => DescFailureView::Mismatch,
        }
    }
}

#[derive(Debug)]
pub enum DescStep {
    Ask(DescriptorReader),
    Done(PropertyDescriptor),
    Failed(DescFailure),
}

pub enum DescStepView {
    Ask(DescReaderView),
    Done(DescriptorView),
    Failed(DescFailureView),
}

impl View for DescStep {
    type V = DescStepView;

    open spec fn view(&self) -> DescStepView {
        match self {
            DescStep::Ask(r) => DescStepView::Ask(r@),
            DescStep::Done(d) => DescStepView::Done(d@),
            DescStep::Failed(f) => DescStepView::Failed(f@),
        }
    }
}

/// The question that a reading at this stage puts.
pub open spec fn desc_pending(r: DescReaderView) -> DescQuery {
    match r.stage {
        DescStageView::Writable => DescQuery::ValueOf(r.id, "writable"),
        DescStageView::Getter => DescQuery::ValueOf(r.id, "get"),
        DescStageView::Setter(_) => DescQuery::ValueOf(r.id, "set"),
        DescStageView::AccessorEnumerable(_, _) => DescQuery::FlagOf(r.id, "enumerable"),
        DescStageView::AccessorConfigurable(_, _, _) => DescQuery::FlagOf(r.id, "configurable"),
        DescStageView::DataValue(_) => DescQuery::ValueOf(r.id, "value"),
        DescStageView::DataEnumerable(_, _) => DescQuery::FlagOf(r.id, "enumerable"),
        DescStageView::DataConfigurable(_, _, _) => DescQuery::FlagOf(r.id, "configurable"),
    }
}

/// An accessor slot holds a function or nothing (`undefined`); anything
/// else has no meaning there.
pub open spec fn slot_of(v: ValueView) -> Option<Option<usize>> {
    match v {
        ValueView::Undefined => Some(None),
        ValueView::Object(ObjectView::Function(f)) => Some(Some(f)),
        _ => None,
    }
}

pub open spec fn desc_ask(id: usize, stage: DescStageView) -> DescStepView {
    DescStepView::Ask(DescReaderView { id, stage })
}

/// One step of reading a descriptor.
pub open spec fn desc_next(r: DescReaderView, a: DescReplyView) -> DescStepView {
    let id = r.id;
    match (r.stage, a) {
        (DescStageView::Writable, DescReplyView::Value(v)) => match v {
            ValueView::Undefined => desc_ask(id, DescStageView::Getter),
            ValueView::Boolean(w) => desc_ask(id, DescStageView::DataValue(w)),
            _ => DescStepView::Failed(DescFailureView::UnexpectedWritable(id, v)),
        },
        (DescStageView::Getter, DescReplyView::Value(v)) => match slot_of(v) {
            Some(g) => desc_ask(id, DescStageView::Setter(g)),
            None => DescStepView::Failed(DescFailureView::UnexpectedGetter(id)),
        },
        (DescStageView::Setter(g), DescReplyView::Value(v)) => match slot_of(v) {
            Some(s) => desc_ask(id, DescStageView::AccessorEnumerable(g, s)),
            None => DescStepView::Failed(DescFailureView::UnexpectedSetter(id)),
        },
        (DescStageView::AccessorEnumerable(g, s), DescReplyView::Number(b)) => desc_ask(
            id,
            DescStageView::AccessorConfigurable(g, s, is_truthy_bits(b)),
        ),
        (DescStageView::AccessorConfigurable(g, s, e), DescReplyView::Number(b)) => DescStepView::Done(
            DescriptorView::Accessor(
                AccessorView { id, get: g, set: s, enumerable: e, configurable: is_truthy_bits(b) },
            ),
        ),
        (DescStageView::DataValue(w), DescReplyView::Value(v)) => desc_ask(
            id,
            DescStageView::DataEnumerable(w, v),
        ),
        (DescStageView::DataEnumerable(w, v), DescReplyView::Number(b)) => desc_ask(
            id,
            DescStageView::DataConfigurable(w, v, is_truthy_bits(b)),
        ),
        (DescStageView::DataConfigurable(w, v, e), DescReplyView::Number(b)) => DescStepView::Done(
            DescriptorView::Data(
                DataView { id, value: v, writable: w, enumerable: e, configurable: is_truthy_bits(b) },
            ),
        ),
        _ => DescStepView::Failed(DescFailureView::Mismatch),
    }
}

/// The accessor slot that a value fills, if it can fill one.
fn accessor_slot(v: Value) -> (r: Option<Option<Function>>)
    ensures
        match slot_of(v@) {
            Some(s) => r matches Some(f) && function_slot(f) == s,
            None => r is None,
        },
{
    match v {
        Value::Undefined => Some(None),
        Value::Object(AnyObject::Function(f)) => Some(Some(f)),
        _ => None,
    }
}

impl DescriptorReader {
    /// Starts reading the descriptor object at handle `id`: first comes `writable`.
    pub fn start(id: usize) -> (r: DescriptorReader)
        ensures
            r@ == (DescReaderView { id, stage: DescStageView::Writable }),
    {
        DescriptorReader { id, stage: DescStage::Writable }
    }

    /// The question that the reading waits on.
    pub fn query(&self) -> (q: DescQuery)
        ensures
            q == desc_pending(self@),
    {
        let id = self.id;
        match &self.stage {
            DescStage::Writable => DescQuery::ValueOf(id, "writable"),
            DescStage::Getter => DescQuery::ValueOf(id, "get"),
            DescStage::Setter(_) => DescQuery::ValueOf(id, "set"),
            DescStage::AccessorEnumerable(_, _) => DescQuery::FlagOf(id, "enumerable"),
            DescStage::AccessorConfigurable(_, _, _) => DescQuery::FlagOf(id, "configurable"),
            DescStage::DataValue(_) => DescQuery::ValueOf(id, "value"),
            DescStage::DataEnumerable(_, _) => DescQuery::FlagOf(id, "enumerable"),
            DescStage::DataConfigurable(_, _, _) => DescQuery::FlagOf(id, "configurable"),
        }
    }

    fn ask(id: usize, stage: DescStage) -> (s: DescStep)
        ensures
            s@ == desc_ask(id, stage@),
    {
        DescStep::Ask(DescriptorReader { id, stage })
    }

    /// Takes the answer to the pending question.
    pub fn resume(self, reply: DescReply) -> (s: DescStep)
        ensures
            s@ == desc_next(self@, reply@),
    {
        let id = self.id;
        match (self.stage, reply) {
            (DescStage::Writable, DescReply::Value(v)) => match v {
                Value::Undefined => Self::ask(id, DescStage::Getter),
                Value::Boolean(w) => Self::ask(id, DescStage::DataValue(w)),
                _ => DescStep::Failed(DescFailure::UnexpectedWritable(id, v)),
            },
            (DescStage::Getter, DescReply::Value(v)) => match accessor_slot(v) {
                Some(g) => Self::ask(id, DescStage::Setter(g)),
                None => DescStep::Failed(DescFailure::UnexpectedGetter(id)),
            },
            (DescStage::Setter(g), DescReply::Value(v)) => match accessor_slot(v) {
                Some(s) => Self::ask(id, DescStage::AccessorEnumerable(g, s)),
                None => DescStep::Failed(DescFailure::UnexpectedSetter(id)),
            },
            (DescStage::AccessorEnumerable(g, s), DescReply::Number(b)) => Self::ask(
                id,
                DescStage::AccessorConfigurable(g, s, truthy_bits(b)),
            ),
            (DescStage::AccessorConfigurable(g, s, e), DescReply::Number(b)) => DescStep::Done(
                PropertyDescriptor::Accessor(AccessorDescriptor::new(id, g, s, e, truthy_bits(b))),
            ),
            (DescStage::DataValue(w), DescReply::Value(v)) => Self::ask(
                id,
                DescStage::DataEnumerable(w, v),
            ),
            (DescStage::DataEnumerable(w, v), DescReply::Number(b)) => Self::ask(
                id,
                DescStage::DataConfigurable(w, v, truthy_bits(b)),
            ),
            (DescStage::DataConfigurable(w, v, e), DescReply::Number(b)) => DescStep::Done(
                PropertyDescriptor::Data(DataDescriptor::new(id, v, w, e, truthy_bits(b))),
            ),
            _ => DescStep::Failed(DescFailure::Mismatch),
        }
    }
}

/// The host's answer to a question about a descriptor object: a value is
/// read off the host as `host_value` says, and may fail there.
pub open spec fn desc_answer(h: HostModel, q: DescQuery) -> Result<DescReplyView, FailureView> {
    match q {
        DescQuery::ValueOf(x, n) => match host_value(h, (h.property)(x, n@)) {
            Ok(v) => Ok(DescReplyView::Value(v)),
            Err(f) => Err(f),
        },
        DescQuery::FlagOf(x, n) => Ok(DescReplyView::Number((h.number)((h.property)(x, n@)))),
    }
}

/// The descriptor at handle `id`, read straight off the host.
pub open spec fn host_descriptor(h: HostModel, id: usize) -> Result<DescriptorView, DescFailureView> {
    let enumerable = h.truthy_at((h.property)(id, "enumerable"@));
    let configurable = h.truthy_at((h.property)(id, "configurable"@));
    match host_value(h, (h.property)(id, "writable"@)) {
        Err(f) => Err(DescFailureView::Value(f)),
        Ok(ValueView::Undefined) => match host_value(h, (h.property)(id, "get"@)) {
            Err(f) => Err(DescFailureView::Value(f)),
            Ok(gv) => match slot_of(gv) {
                None => Err(DescFailureView::UnexpectedGetter(id)),
                Some(g) => match host_value(h, (h.property)(id, "set"@)) {
                    Err(f) => Err(DescFailureView::Value(f)),
                    Ok(sv) => match slot_of(sv) {
                        None => Err(DescFailureView::UnexpectedSetter(id)),
                        Some(s) => Ok(
                            DescriptorView::Accessor(
                                AccessorView { id, get: g, set: s, enumerable, configurable },
                            ),
                        ),
                    },
                },
            },
        },
        Ok(ValueView::Boolean(w)) => match host_value(h, (h.property)(id, "value"@)) {
            Err(f) => Err(DescFailureView::Value(f)),
            Ok(v) => Ok(
                DescriptorView::Data(
                    DataView { id, value: v, writable: w, enumerable, configurable },
                ),
            ),
        },
        Ok(other) => Err(DescFailureView::UnexpectedWritable(id, other)),
    }
}

/// The reading of a descriptor driven against the host, for at most `fuel`
/// answers.
pub open spec fn run_desc(h: HostModel, r: DescReaderView, fuel: nat) -> Option<
    Result<DescriptorView, DescFailureView>,
>
    decreases fuel,
{
    if fuel == 0 {
        None
    } else {
        match desc_answer(h, desc_pending(r)) {
            Err(f) => Some(Err(DescFailureView::Value(f))),
            Ok(a) => match desc_next(r, a) {
                DescStepView::Ask(next) => run_desc(h, next, (fuel - 1) as nat),
                DescStepView::Done(d) => Some(Ok(d)),
                DescStepView::Failed(f) => Some(Err(f)),
            },
        }
    }
}

/// Reading a descriptor that the host answers ends within five answers,
/// with the accessor or data descriptor that the host's descriptor object
/// holds, or with the failure on which the runtime stops.
pub proof fn lemma_read_gives_host_descriptor(h: HostModel, id: usize)
    ensures
        run_desc(h, DescReaderView { id, stage: DescStageView::Writable }, 5) == Some(
            host_descriptor(h, id),
        ),
{
    reveal_with_fuel(run_desc, 6);
}

} // verus!
