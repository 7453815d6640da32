//! Start-up: the runtime checks that the host hands out the handles it
//! reserves for the well-known globals and functions, and fills in the
//! descriptor templates. Start-up is a script of host requests; the runner
//! tells what to ask next and checks each answer.
use vstd::prelude::*;
use crate::handles::{
    ARRAY_ID, BIND_APPLY_ID, DEFAULT_DATA_DESCRIPTOR_ID, DEFAULT_GETTER_DESCRIPTOR_ID,
    DEFAULT_SETTER_DESCRIPTOR_ID, DEFINE_PROPERTY_ID, EMPTY_ARRAY_ID, EMPTY_GETTER_DESCRIPTOR_ID,
    EMPTY_SETTER_DESCRIPTOR_ID, EMPTY_VALUE_DESCRIPTOR_ID, ENUMERABLE_DESCRIPTOR_ID, FALSE_ID,
    FUNCTION_PROTOTYPE_ID, GET_OWN_PROPERTY_DESCRIPTOR_ID, GET_OWN_PROPERTY_NAMES_ID,
    GET_OWN_PROPERTY_SYMBOLS_ID, IS_ARRAY_ID, IS_EXTENSIBLE_ID, IS_NULL_ID, NULL_ID, OBJECT_CREATE_ID,
    OBJECT_ID, OBJECT_IS_ID, PREVENT_EXTENSIONS_ID, PROTO_GET_CALL_ID, SET_PROTOTYPE_OF_ID,
    SYMBOL_ID, SYMBOL_KEY_FOR_ID, TRUE_ID, TYPEOF_ID, UNCONFIGURABLE_DESCRIPTOR_ID,
    UNDEFINED_ID, UNENUMERABLE_DESCRIPTOR_ID, UNWRITABLE_DESCRIPTOR_ID, WRITABLE_DESCRIPTOR_ID,
};

verus! {

/// A handle in a start-up request: one known in advance, or the answer to an
/// earlier request that was kept (the first kept answer is `Earlier(0)`).
#[derive(Clone, Copy, Debug)]
pub enum Operand {
    Known(usize),
    Earlier(usize),
}

/// A property key in a start-up request: a string, or a number by its bits.
#[derive(Clone, Copy, Debug)]
pub enum SetupKey {
    Name(&'static str),
    Index(u64),
}

/// One host request of the script, before its operands are known.
#[derive(Clone, Copy, Debug)]
pub enum SetupCall {
    /// `getprop(target, key)`
    Get(Operand, SetupKey),
    /// `call0(f)`
    Call0(Operand),
    /// `call1(f, x)`
    Call1(Operand, Operand),
    /// `call2(f, x, key)`
    Call2(Operand, Operand, SetupKey),
    /// `setprop(target, key, value)`
    SetProp(Operand, SetupKey, Operand),
}

/// A step of the script: the request, the handle that the answer must be
/// (if any), and whether the answer is kept for later requests.
#[derive(Clone, Copy, Debug)]
pub struct SetupStep {
    pub call: SetupCall,
    pub expect: Option<usize>,
    pub keep: bool,
}

/// A host request with its operands resolved.
#[derive(Clone, Copy, Debug)]
pub enum SetupRequest {
    Get(usize, SetupKey),
    Call0(usize),
    Call1(usize, usize),
    Call2(usize, usize, SetupKey),
    SetProp(usize, SetupKey, usize),
}

/// Why start-up stopped.
#[derive(Clone, Copy, Debug)]
pub enum SetupError {
    /// The host answered step `step` with `got` where `expected` was reserved.
    Unexpected { step: usize, expected: usize, got: usize },
    /// Step `step` names an answer that was not kept before it.
    Dangling { step: usize },
    /// Every step has been answered.
    Finished,
}

/// The handle an operand stands for, given the answers kept so far.
pub open spec fn resolve(kept: Seq<usize>, o: Operand) -> Option<usize> {
    match o {
        Operand::Known(h) => Some(h),
        Operand::Earlier(k) => if k < kept.len() {
            Some(kept[k as int])
        } else {
            None
        },
    }
}

/// The request that a step makes, given the answers kept so far.
pub open spec fn request_of(kept: Seq<usize>, c: SetupCall) -> Option<SetupRequest> {
    match c {
        SetupCall::Get(t, k) => match resolve(kept, t) {
            Some(th) => Some(SetupRequest::Get(th, k)),
            None => None,
        },
        SetupCall::Call0(f) => match resolve(kept, f) {
            Some(fh) => Some(SetupRequest::Call0(fh)),
            None => None,
        },
        SetupCall::Call1(f, x) => match (resolve(kept, f), resolve(kept, x)) {
            (Some(fh), Some(xh)) => Some(SetupRequest::Call1(fh, xh)),
            _ => None,
        },
        SetupCall::Call2(f, x, k) => match (resolve(kept, f), resolve(kept, x)) {
            (Some(fh), Some(xh)) => Some(SetupRequest::Call2(fh, xh, k)),
            _ => None,
        },
        SetupCall::SetProp(t, k, v) => match (resolve(kept, t), resolve(kept, v)) {
            (Some(th), Some(vh)) => Some(SetupRequest::SetProp(th, k, vh)),
            _ => None,
        },
    }
}

/// The answers kept out of a run of answers.
pub open spec fn kept_of(steps: Seq<SetupStep>, replies: Seq<usize>) -> Seq<usize>
    decreases replies.len(),
{
    if replies.len() == 0 {
        seq![]
    } else {
        let prev = kept_of(steps, replies.drop_last());
        if steps[replies.len() - 1].keep {
            prev.push(replies.last())
        } else {
            prev
        }
    }
}

/// Every answer so far is the handle its step reserved, where it reserved one.
pub open spec fn expectations_met(steps: Seq<SetupStep>, replies: Seq<usize>) -> bool {
    &&& replies.len() <= steps.len()
    &&& forall|k: int|
        0 <= k < replies.len() ==> (#[trigger] steps[k].expect matches Some(e) ==> replies[k] == e)
}

pub struct SetupView {
    pub steps: Seq<SetupStep>,
    pub replies: Seq<usize>,
    pub kept: Seq<usize>,
}

/// A run of a start-up script.
pub struct SetupRunner {
    steps: Vec<SetupStep>,
    replies: Vec<usize>,
    kept: Vec<usize>,
}

impl View for SetupRunner {
    type V = SetupView;

    closed spec fn view(&self) -> SetupView {
        SetupView { steps: self.steps@, replies: self.replies@, kept: self.kept@ }
    }
}

impl SetupRunner {
    /// The answers so far all met their steps, and the kept ones are kept.
    pub open spec fn wf(&self) -> bool {
        &&& expectations_met(self@.steps, self@.replies)
        &&& self@.kept == kept_of(self@.steps, self@.replies)
    }

    /// A run of `steps`, nothing answered yet.
    pub fn new(steps: Vec<SetupStep>) -> (r: SetupRunner)
        ensures
            r.wf(),
            r@.steps == steps@,
            r@.replies == Seq::<usize>::empty(),
    {
        SetupRunner { steps, replies: Vec::new(), kept: Vec::new() }
    }

    /// Whether every step has been answered.
    pub fn finished(&self) -> (b: bool)
        ensures
            b == (self@.replies.len() == self@.steps.len()),
    {
        self.replies.len() == self.steps.len()
    }

    fn resolve(&self, o: Operand) -> (r: Option<usize>)
        ensures
            r == resolve(self@.kept, o),
    {
        match o {
            Operand::Known(h) => Some(h),
            Operand::Earlier(k) => if k < self.kept.len() {
                Some(self.kept[k])
            } else {
                None
            },
        }
    }

    /// The next request to send: none once every step has been answered; an
    /// error when the step names an answer that was not kept.
    pub fn next_request(&self) -> (r: Result<Option<SetupRequest>, SetupError>)
        requires
            self.wf(),
        ensures
            self@.replies.len() == self@.steps.len() ==> r == Ok::<
                Option<SetupRequest>,
                SetupError,
            >(None),
            self@.replies.len() < self@.steps.len() ==> match request_of(
                self@.kept,
                self@.steps[self@.replies.len() as int].call,
            ) {
                Some(q) => r == Ok::<Option<SetupRequest>, SetupError>(Some(q)),
                None => r == Err::<Option<SetupRequest>, SetupError>(
                    SetupError::Dangling { step: self@.replies.len() as usize },
                ),
            },
    {
        let done = self.replies.len();
        if done == self.steps.len() {
            return Ok(None);
        }
        let step = done;
        let request = match self.steps[step].call {
            SetupCall::Get(t, k) => match self.resolve(t) {
                Some(th) => Some(SetupRequest::Get(th, k)),
                None => None,
            },
            SetupCall::Call0(f) => match self.resolve(f) {
                Some(fh) => Some(SetupRequest::Call0(fh)),
                None => None,
            },
            SetupCall::Call1(f, x) => match (self.resolve(f), self.resolve(x)) {
                (Some(fh), Some(xh)) => Some(SetupRequest::Call1(fh, xh)),
                _ => None,
            },
            SetupCall::Call2(f, x, k) => match (self.resolve(f), self.resolve(x)) {
                (Some(fh), Some(xh)) => Some(SetupRequest::Call2(fh, xh, k)),
                _ => None,
            },
            SetupCall::SetProp(t, k, v) => match (self.resolve(t), self.resolve(v)) {
                (Some(th), Some(vh)) => Some(SetupRequest::SetProp(th, k, vh)),
                _ => None,
            },
        };
        match request {
            Some(q) => Ok(Some(q)),
            None => Err(SetupError::Dangling { step }),
        }
    }

    /// Takes the host's answer to the current step. An answer that differs
    /// from the handle the step reserved stops start-up and is not recorded.
    pub fn record(&mut self, reply: usize) -> (r: Result<(), SetupError>)
        requires
            old(self).wf(),
        ensures
            final(self).wf(),
            final(self)@.steps == old(self)@.steps,
            old(self)@.replies.len() == old(self)@.steps.len() ==> r == Err::<(), SetupError>(
                SetupError::Finished,
            ) && final(self)@ == old(self)@,
            old(self)@.replies.len() < old(self)@.steps.len() ==> {
                let k = old(self)@.replies.len() as int;
                match old(self)@.steps[k].expect {
                    Some(e) if e != reply => r == Err::<(), SetupError>(
                        SetupError::Unexpected { step: k as usize, expected: e, got: reply },
                    ) && final(self)@ == old(self)@,
                    _ => r == Ok::<(), SetupError>(()) && final(self)@.replies == old(
                        self,
                    )@.replies.push(reply),
                }
            },
    {
        let k = self.replies.len();
        if k == self.steps.len() {
            return Err(SetupError::Finished);
        }
        let step = self.steps[k];
        match step.expect {
            Some(e) => {
                if e != reply {
                    return Err(SetupError::Unexpected { step: k, expected: e, got: reply });
                }
            },
            None => {},
        }
        let ghost old_replies = self.replies@;
        self.replies.push(reply);
        if step.keep {
            self.kept.push(reply);
        }
        proof {
            assert(self.replies@.drop_last() =~= old_replies);
        }
        Ok(())
    }
}

/// The start-up script: check the reserved handles of the globals and host
/// functions, then build and fill the descriptor templates.
pub open spec fn standard_script() -> Seq<SetupStep> {
    seq![
        SetupStep { call: SetupCall::Get(Operand::Known(TYPEOF_ID), SetupKey::Name("__proto__")), expect: Some(FUNCTION_PROTOTYPE_ID), keep: false },
        SetupStep { call: SetupCall::Get(Operand::Known(FUNCTION_PROTOTYPE_ID), SetupKey::Name("__proto__")), expect: None, keep: true },
        SetupStep { call: SetupCall::Get(Operand::Earlier(0), SetupKey::Name("constructor")), expect: Some(OBJECT_ID), keep: false },
        SetupStep { call: SetupCall::Get(Operand::Known(OBJECT_ID), SetupKey::Name("create")), expect: Some(OBJECT_CREATE_ID), keep: false },
        SetupStep { call: SetupCall::Get(Operand::Known(OBJECT_ID), SetupKey::Name("defineProperty")), expect: Some(DEFINE_PROPERTY_ID), keep: false },
        SetupStep { call: SetupCall::Get(Operand::Known(OBJECT_ID), SetupKey::Name("is")), expect: Some(OBJECT_IS_ID), keep: false },
        SetupStep { call: SetupCall::Get(Operand::Known(OBJECT_ID), SetupKey::Name("isExtensible")), expect: Some(IS_EXTENSIBLE_ID), keep: false },
        SetupStep { call: SetupCall::Get(Operand::Known(OBJECT_ID), SetupKey::Name("isNull")), expect: Some(IS_NULL_ID), keep: false },
        SetupStep { call: SetupCall::Get(Operand::Known(OBJECT_ID), SetupKey::Name("getOwnPropertyDescriptor")), expect: Some(GET_OWN_PROPERTY_DESCRIPTOR_ID), keep: false },
        SetupStep { call: SetupCall::Get(Operand::Known(OBJECT_ID), SetupKey::Name("getOwnPropertyNames")), expect: Some(GET_OWN_PROPERTY_NAMES_ID), keep: false },
        SetupStep { call: SetupCall::Get(Operand::Known(OBJECT_ID), SetupKey::Name("getOwnPropertySymbols")), expect: Some(GET_OWN_PROPERTY_SYMBOLS_ID), keep: false },
        SetupStep { call: SetupCall::Get(Operand::Known(OBJECT_ID), SetupKey::Name("preventExtensions")), expect: Some(PREVENT_EXTENSIONS_ID), keep: false },
        SetupStep { call: SetupCall::Get(Operand::Known(OBJECT_ID), SetupKey::Name("setPrototypeOf")), expect: Some(SET_PROTOTYPE_OF_ID), keep: false },
        SetupStep { call: SetupCall::Call2(Operand::Known(GET_OWN_PROPERTY_DESCRIPTOR_ID), Operand::Earlier(0), SetupKey::Name("__proto__")), expect: None, keep: true },
        SetupStep { call: SetupCall::Get(Operand::Earlier(1), SetupKey::Name("get")), expect: None, keep: true },
        SetupStep { call: SetupCall::Get(Operand::Earlier(2), SetupKey::Name("call")), expect: Some(PROTO_GET_CALL_ID), keep: false },
        SetupStep { call: SetupCall::Call1(Operand::Known(GET_OWN_PROPERTY_SYMBOLS_ID), Operand::Known(FUNCTION_PROTOTYPE_ID)), expect: None, keep: true },
        SetupStep { call: SetupCall::Get(Operand::Earlier(3), SetupKey::Index(0)), expect: None, keep: true },
        SetupStep { call: SetupCall::Get(Operand::Known(TYPEOF_ID), SetupKey::Name("bind")), expect: None, keep: true },
        SetupStep { call: SetupCall::Get(Operand::Earlier(5), SetupKey::Name("apply")), expect: Some(BIND_APPLY_ID), keep: false },
        SetupStep { call: SetupCall::Get(Operand::Earlier(3), SetupKey::Name("constructor")), expect: Some(ARRAY_ID), keep: false },
        SetupStep { call: SetupCall::Get(Operand::Earlier(4), SetupKey::Name("constructor")), expect: Some(SYMBOL_ID), keep: false },
        SetupStep { call: SetupCall::Get(Operand::Earlier(0), SetupKey::Name("__proto__")), expect: Some(NULL_ID), keep: false },
        SetupStep { call: SetupCall::Get(Operand::Known(TYPEOF_ID), SetupKey::Name("undefined")), expect: Some(UNDEFINED_ID), keep: false },
        SetupStep { call: SetupCall::Get(Operand::Earlier(1), SetupKey::Name("enumerable")), expect: Some(FALSE_ID), keep: false },
        SetupStep { call: SetupCall::Call1(Operand::Known(IS_EXTENSIBLE_ID), Operand::Earlier(2)), expect: Some(TRUE_ID), keep: false },
        SetupStep { call: SetupCall::Get(Operand::Known(ARRAY_ID), SetupKey::Name("isArray")), expect: Some(IS_ARRAY_ID), keep: false },
        SetupStep { call: SetupCall::Get(Operand::Known(SYMBOL_ID), SetupKey::Name("keyFor")), expect: Some(SYMBOL_KEY_FOR_ID), keep: false },
        SetupStep { call: SetupCall::Call0(Operand::Known(ARRAY_ID)), expect: Some(EMPTY_ARRAY_ID), keep: false },
        SetupStep { call: SetupCall::Call1(Operand::Known(OBJECT_CREATE_ID), Operand::Known(NULL_ID)), expect: Some(DEFAULT_DATA_DESCRIPTOR_ID), keep: false },
        SetupStep { call: SetupCall::SetProp(Operand::Known(DEFAULT_DATA_DESCRIPTOR_ID), SetupKey::Name("writable"), Operand::Known(TRUE_ID)), expect: None, keep: false },
        SetupStep { call: SetupCall::SetProp(Operand::Known(DEFAULT_DATA_DESCRIPTOR_ID), SetupKey::Name("enumerable"), Operand::Known(TRUE_ID)), expect: None, keep: false },
        SetupStep { call: SetupCall::SetProp(Operand::Known(DEFAULT_DATA_DESCRIPTOR_ID), SetupKey::Name("configurable"), Operand::Known(TRUE_ID)), expect: None, keep: false },
        SetupStep { call: SetupCall::Call1(Operand::Known(OBJECT_CREATE_ID), Operand::Known(NULL_ID)), expect: Some(DEFAULT_GETTER_DESCRIPTOR_ID), keep: false },
        SetupStep { call: SetupCall::SetProp(Operand::Known(DEFAULT_GETTER_DESCRIPTOR_ID), SetupKey::Name("enumerable"), Operand::Known(TRUE_ID)), expect: None, keep: false },
        SetupStep { call: SetupCall::SetProp(Operand::Known(DEFAULT_GETTER_DESCRIPTOR_ID), SetupKey::Name("configurable"), Operand::Known(TRUE_ID)), expect: None, keep: false },
        SetupStep { call: SetupCall::Call1(Operand::Known(OBJECT_CREATE_ID), Operand::Known(NULL_ID)), expect: Some(DEFAULT_SETTER_DESCRIPTOR_ID), keep: false },
        SetupStep { call: SetupCall::SetProp(Operand::Known(DEFAULT_SETTER_DESCRIPTOR_ID), SetupKey::Name("enumerable"), Operand::Known(TRUE_ID)), expect: None, keep: false },
        SetupStep { call: SetupCall::SetProp(Operand::Known(DEFAULT_SETTER_DESCRIPTOR_ID), SetupKey::Name("configurable"), Operand::Known(TRUE_ID)), expect: None, keep: false },
        SetupStep { call: SetupCall::Call1(Operand::Known(OBJECT_CREATE_ID), Operand::Known(NULL_ID)), expect: Some(EMPTY_VALUE_DESCRIPTOR_ID), keep: false },
        SetupStep { call: SetupCall::Call1(Operand::Known(OBJECT_CREATE_ID), Operand::Known(NULL_ID)), expect: Some(EMPTY_GETTER_DESCRIPTOR_ID), keep: false },
        SetupStep { call: SetupCall::Call1(Operand::Known(OBJECT_CREATE_ID), Operand::Known(NULL_ID)), expect: Some(EMPTY_SETTER_DESCRIPTOR_ID), keep: false },
        SetupStep { call: SetupCall::Call1(Operand::Known(OBJECT_CREATE_ID), Operand::Known(NULL_ID)), expect: Some(WRITABLE_DESCRIPTOR_ID), keep: false },
        SetupStep { call: SetupCall::SetProp(Operand::Known(WRITABLE_DESCRIPTOR_ID), SetupKey::Name("writable"), Operand::Known(TRUE_ID)), expect: None, keep: false },
        SetupStep { call: SetupCall::Call1(Operand::Known(OBJECT_CREATE_ID), Operand::Known(NULL_ID)), expect: Some(UNWRITABLE_DESCRIPTOR_ID), keep: false },
        SetupStep { call: SetupCall::SetProp(Operand::Known(UNWRITABLE_DESCRIPTOR_ID), SetupKey::Name("writable"), Operand::Known(FALSE_ID)), expect: None, keep: false },
        SetupStep { call: SetupCall::Call1(Operand::Known(OBJECT_CREATE_ID), Operand::Known(NULL_ID)), expect: Some(ENUMERABLE_DESCRIPTOR_ID), keep: false },
        SetupStep { call: SetupCall::SetProp(Operand::Known(ENUMERABLE_DESCRIPTOR_ID), SetupKey::Name("enumerable"), Operand::Known(TRUE_ID)), expect: None, keep: false },
        SetupStep { call: SetupCall::Call1(Operand::Known(OBJECT_CREATE_ID), Operand::Known(NULL_ID)), expect: Some(UNENUMERABLE_DESCRIPTOR_ID), keep: false },
        SetupStep { call: SetupCall::SetProp(Operand::Known(UNENUMERABLE_DESCRIPTOR_ID), SetupKey::Name("enumerable"), Operand::Known(FALSE_ID)), expect: None, keep: false },
        SetupStep { call: SetupCall::Call1(Operand::Known(OBJECT_CREATE_ID), Operand::Known(NULL_ID)), expect: Some(UNCONFIGURABLE_DESCRIPTOR_ID), keep: false },
        SetupStep { call: SetupCall::SetProp(Operand::Known(UNCONFIGURABLE_DESCRIPTOR_ID), SetupKey::Name("configurable"), Operand::Known(FALSE_ID)), expect: None, keep: false },
    ]
}

/// The start-up script, as `standard_script` lists it.
pub fn standard_steps() -> (steps: Vec<SetupStep>)
    ensures
        steps@ == standard_script(),
{
    let mut steps: Vec<SetupStep> = Vec::new();
    steps.push(SetupStep { call: SetupCall::Get(Operand::Known(TYPEOF_ID), SetupKey::Name("__proto__")), expect: Some(FUNCTION_PROTOTYPE_ID), keep: false });
    steps.push(SetupStep { call: SetupCall::Get(Operand::Known(FUNCTION_PROTOTYPE_ID), SetupKey::Name("__proto__")), expect: None, keep: true });
    steps.push(SetupStep { call: SetupCall::Get(Operand::Earlier(0), SetupKey::Name("constructor")), expect: Some(OBJECT_ID), keep: false });
    steps.push(SetupStep { call: SetupCall::Get(Operand::Known(OBJECT_ID), SetupKey::Name("create")), expect: Some(OBJECT_CREATE_ID), keep: false });
    steps.push(SetupStep { call: SetupCall::Get(Operand::Known(OBJECT_ID), SetupKey::Name("defineProperty")), expect: Some(DEFINE_PROPERTY_ID), keep: false });
    steps.push(SetupStep { call: SetupCall::Get(Operand::Known(OBJECT_ID), SetupKey::Name("is")), expect: Some(OBJECT_IS_ID), keep: false });
    steps.push(SetupStep { call: SetupCall::Get(Operand::Known(OBJECT_ID), SetupKey::Name("isExtensible")), expect: Some(IS_EXTENSIBLE_ID), keep: false });
    steps.push(SetupStep { call: SetupCall::Get(Operand::Known(OBJECT_ID), SetupKey::Name("isNull")), expect: Some(IS_NULL_ID), keep: false });
    steps.push(SetupStep { call: SetupCall::Get(Operand::Known(OBJECT_ID), SetupKey::Name("getOwnPropertyDescriptor")), expect: Some(GET_OWN_PROPERTY_DESCRIPTOR_ID), keep: false });
    steps.push(SetupStep { call: SetupCall::Get(Operand::Known(OBJECT_ID), SetupKey::Name("getOwnPropertyNames")), expect: Some(GET_OWN_PROPERTY_NAMES_ID), keep: false });
    steps.push(SetupStep { call: SetupCall::Get(Operand::Known(OBJECT_ID), SetupKey::Name("getOwnPropertySymbols")), expect: Some(GET_OWN_PROPERTY_SYMBOLS_ID), keep: false });
    steps.push(SetupStep { call: SetupCall::Get(Operand::Known(OBJECT_ID), SetupKey::Name("preventExtensions")), expect: Some(PREVENT_EXTENSIONS_ID), keep: false });
    steps.push(SetupStep { call: SetupCall::Get(Operand::Known(OBJECT_ID), SetupKey::Name("setPrototypeOf")), expect: Some(SET_PROTOTYPE_OF_ID), keep: false });
    steps.push(SetupStep { call: SetupCall::Call2(Operand::Known(GET_OWN_PROPERTY_DESCRIPTOR_ID), Operand::Earlier(0), SetupKey::Name("__proto__")), expect: None, keep: true });
    steps.push(SetupStep { call: SetupCall::Get(Operand::Earlier(1), SetupKey::Name("get")), expect: None, keep: true });
    steps.push(SetupStep { call: SetupCall::Get(Operand::Earlier(2), SetupKey::Name("call")), expect: Some(PROTO_GET_CALL_ID), keep: false });
    steps.push(SetupStep { call: SetupCall::Call1(Operand::Known(GET_OWN_PROPERTY_SYMBOLS_ID), Operand::Known(FUNCTION_PROTOTYPE_ID)), expect: None, keep: true });
    steps.push(SetupStep { call: SetupCall::Get(Operand::Earlier(3), SetupKey::Index(0)), expect: None, keep: true });
    steps.push(SetupStep { call: SetupCall::Get(Operand::Known(TYPEOF_ID), SetupKey::Name("bind")), expect: None, keep: true });
    steps.push(SetupStep { call: SetupCall::Get(Operand::Earlier(5), SetupKey::Name("apply")), expect: Some(BIND_APPLY_ID), keep: false });
    steps.push(SetupStep { call: SetupCall::Get(Operand::Earlier(3), SetupKey::Name("constructor")), expect: Some(ARRAY_ID), keep: false });
    steps.push(SetupStep { call: SetupCall::Get(Operand::Earlier(4), SetupKey::Name("constructor")), expect: Some(SYMBOL_ID), keep: false });
    steps.push(SetupStep { call: SetupCall::Get(Operand::Earlier(0), SetupKey::Name("__proto__")), expect: Some(NULL_ID), keep: false });
    steps.push(SetupStep { call: SetupCall::Get(Operand::Known(TYPEOF_ID), SetupKey::Name("undefined")), expect: Some(UNDEFINED_ID), keep: false });
    steps.push(SetupStep { call: SetupCall::Get(Operand::Earlier(1), SetupKey::Name("enumerable")), expect: Some(FALSE_ID), keep: false });
    steps.push(SetupStep { call: SetupCall::Call1(Operand::Known(IS_EXTENSIBLE_ID), Operand::Earlier(2)), expect: Some(TRUE_ID), keep: false });
    steps.push(SetupStep { call: SetupCall::Get(Operand::Known(ARRAY_ID), SetupKey::Name("isArray")), expect: Some(IS_ARRAY_ID), keep: false });
    steps.push(SetupStep { call: SetupCall::Get(Operand::Known(SYMBOL_ID), SetupKey::Name("keyFor")), expect: Some(SYMBOL_KEY_FOR_ID), keep: false });
    steps.push(SetupStep { call: SetupCall::Call0(Operand::Known(ARRAY_ID)), expect: Some(EMPTY_ARRAY_ID), keep: false });
    steps.push(SetupStep { call: SetupCall::Call1(Operand::Known(OBJECT_CREATE_ID), Operand::Known(NULL_ID)), expect: Some(DEFAULT_DATA_DESCRIPTOR_ID), keep: false });
    steps.push(SetupStep { call: SetupCall::SetProp(Operand::Known(DEFAULT_DATA_DESCRIPTOR_ID), SetupKey::Name("writable"), Operand::Known(TRUE_ID)), expect: None, keep: false });
    steps.push(SetupStep { call: SetupCall::SetProp(Operand::Known(DEFAULT_DATA_DESCRIPTOR_ID), SetupKey::Name("enumerable"), Operand::Known(TRUE_ID)), expect: None, keep: false });
    steps.push(SetupStep { call: SetupCall::SetProp(Operand::Known(DEFAULT_DATA_DESCRIPTOR_ID), SetupKey::Name("configurable"), Operand::Known(TRUE_ID)), expect: None, keep: false });
    steps.push(SetupStep { call: SetupCall::Call1(Operand::Known(OBJECT_CREATE_ID), Operand::Known(NULL_ID)), expect: Some(DEFAULT_GETTER_DESCRIPTOR_ID), keep: false });
    steps.push(SetupStep { call: SetupCall::SetProp(Operand::Known(DEFAULT_GETTER_DESCRIPTOR_ID), SetupKey::Name("enumerable"), Operand::Known(TRUE_ID)), expect: None, keep: false });
    steps.push(SetupStep { call: SetupCall::SetProp(Operand::Known(DEFAULT_GETTER_DESCRIPTOR_ID), SetupKey::Name("configurable"), Operand::Known(TRUE_ID)), expect: None, keep: false });
    steps.push(SetupStep { call: SetupCall::Call1(Operand::Known(OBJECT_CREATE_ID), Operand::Known(NULL_ID)), expect: Some(DEFAULT_SETTER_DESCRIPTOR_ID), keep: false });
    steps.push(SetupStep { call: SetupCall::SetProp(Operand::Known(DEFAULT_SETTER_DESCRIPTOR_ID), SetupKey::Name("enumerable"), Operand::Known(TRUE_ID)), expect: None, keep: false });
    steps.push(SetupStep { call: SetupCall::SetProp(Operand::Known(DEFAULT_SETTER_DESCRIPTOR_ID), SetupKey::Name("configurable"), Operand::Known(TRUE_ID)), expect: None, keep: false });
    steps.push(SetupStep { call: SetupCall::Call1(Operand::Known(OBJECT_CREATE_ID), Operand::Known(NULL_ID)), expect: Some(EMPTY_VALUE_DESCRIPTOR_ID), keep: false });
    steps.push(SetupStep { call: SetupCall::Call1(Operand::Known(OBJECT_CREATE_ID), Operand::Known(NULL_ID)), expect: Some(EMPTY_GETTER_DESCRIPTOR_ID), keep: false });
    steps.push(SetupStep { call: SetupCall::Call1(Operand::Known(OBJECT_CREATE_ID), Operand::Known(NULL_ID)), expect: Some(EMPTY_SETTER_DESCRIPTOR_ID), keep: false });
    steps.push(SetupStep { call: SetupCall::Call1(Operand::Known(OBJECT_CREATE_ID), Operand::Known(NULL_ID)), expect: Some(WRITABLE_DESCRIPTOR_ID), keep: false });
    steps.push(SetupStep { call: SetupCall::SetProp(Operand::Known(WRITABLE_DESCRIPTOR_ID), SetupKey::Name("writable"), Operand::Known(TRUE_ID)), expect: None, keep: false });
    steps.push(SetupStep { call: SetupCall::Call1(Operand::Known(OBJECT_CREATE_ID), Operand::Known(NULL_ID)), expect: Some(UNWRITABLE_DESCRIPTOR_ID), keep: false });
    steps.push(SetupStep { call: SetupCall::SetProp(Operand::Known(UNWRITABLE_DESCRIPTOR_ID), SetupKey::Name("writable"), Operand::Known(FALSE_ID)), expect: None, keep: false });
    steps.push(SetupStep { call: SetupCall::Call1(Operand::Known(OBJECT_CREATE_ID), Operand::Known(NULL_ID)), expect: Some(ENUMERABLE_DESCRIPTOR_ID), keep: false });
    steps.push(SetupStep { call: SetupCall::SetProp(Operand::Known(ENUMERABLE_DESCRIPTOR_ID), SetupKey::Name("enumerable"), Operand::Known(TRUE_ID)), expect: None, keep: false });
    steps.push(SetupStep { call: SetupCall::Call1(Operand::Known(OBJECT_CREATE_ID), Operand::Known(NULL_ID)), expect: Some(UNENUMERABLE_DESCRIPTOR_ID), keep: false });
    steps.push(SetupStep { call: SetupCall::SetProp(Operand::Known(UNENUMERABLE_DESCRIPTOR_ID), SetupKey::Name("enumerable"), Operand::Known(FALSE_ID)), expect: None, keep: false });
    steps.push(SetupStep { call: SetupCall::Call1(Operand::Known(OBJECT_CREATE_ID), Operand::Known(NULL_ID)), expect: Some(UNCONFIGURABLE_DESCRIPTOR_ID), keep: false });
    steps.push(SetupStep { call: SetupCall::SetProp(Operand::Known(UNCONFIGURABLE_DESCRIPTOR_ID), SetupKey::Name("configurable"), Operand::Known(FALSE_ID)), expect: None, keep: false });
    assert(steps@ =~= standard_script());
    steps
}

impl SetupRunner {
    /// A run of the start-up script, nothing answered yet.
    pub fn standard() -> (r: SetupRunner)
        ensures
            r.wf(),
            r@.steps == standard_script(),
            r@.replies == Seq::<usize>::empty(),
    {
        SetupRunner::new(standard_steps())
    }
}

/// When the start-up script has been answered to the end, every handle that
/// the runtime reserved is the one the host gave.
pub proof fn lemma_finished_setup_met_reservations(r: SetupRunner)
    requires
        r.wf(),
        r@.replies.len() == r@.steps.len(),
    ensures
        forall|k: int|
            0 <= k < r@.steps.len() ==> (#[trigger] r@.steps[k].expect matches Some(e)
                ==> r@.replies[k] == e),
{
}

/// How many of the first `n` steps keep their answers.
pub open spec fn keep_count(steps: Seq<SetupStep>, n: nat) -> nat
    decreases n,
{
    if n == 0 {
        0
    } else {
        keep_count(steps, (n - 1) as nat) + if steps[n - 1].keep {
            1nat
        } else {
            0nat
        }
    }
}

proof fn lemma_kept_len(steps: Seq<SetupStep>, replies: Seq<usize>)
    requires
        replies.len() <= steps.len(),
    ensures
        kept_of(steps, replies).len() == keep_count(steps, replies.len()),
    decreases replies.len(),
{
    if replies.len() > 0 {
        lemma_kept_len(steps, replies.drop_last());
    }
}

/// The number of kept answers that an operand needs.
pub open spec fn operand_needs(x: Operand) -> nat {
    match x {
        Operand::Known(_) => 0nat,
        Operand::Earlier(k) => (k + 1) as nat,
    }
}

/// The number of kept answers that a step's operands need.
pub open spec fn needs(c: SetupCall) -> nat {
    let o = |x: Operand| operand_needs(x);
    match c {
        SetupCall::Get(t, _) => o(t),
        SetupCall::Call0(f) => o(f),
        SetupCall::Call1(f, x) => if o(f) < o(x) {
            o(x)
        } else {
            o(f)
        },
        SetupCall::Call2(f, x, _) => if o(f) < o(x) {
            o(x)
        } else {
            o(f)
        },
        SetupCall::SetProp(t, _, v) => if o(t) < o(v) {
            o(v)
        } else {
            o(t)
        },
    }
}

/// The kept answers that each step of the script needs, step by step.
proof fn lemma_standard_needs(k: int)
    requires
        0 <= k < standard_script().len(),
    ensures
        needs(standard_script()[k].call) <= keep_count(standard_script(), k as nat),
{
    let s = standard_script();
    assert(keep_count(s, 0) == 0);
    assert(keep_count(s, 1) == 0);
    assert(keep_count(s, 2) == 1);
    lemma_keep_count_monotone(s, 2, 13);
    assert(keep_count(s, 14) == keep_count(s, 13) + 1);
    assert(keep_count(s, 15) == keep_count(s, 14) + 1);
    assert(keep_count(s, 16) == keep_count(s, 15));
    assert(keep_count(s, 17) == keep_count(s, 16) + 1);
    assert(keep_count(s, 18) == keep_count(s, 17) + 1);
    assert(keep_count(s, 19) == keep_count(s, 18) + 1);
    if k >= 19 {
        lemma_keep_count_monotone(s, 19, k as nat);
        assert(needs(s[k].call) <= 6);
    } else if k >= 2 {
        lemma_keep_count_monotone(s, 2, k as nat);
    }
}

proof fn lemma_needs_resolve(kept: Seq<usize>, c: SetupCall)
    requires
        needs(c) <= kept.len(),
    ensures
        request_of(kept, c) is Some,
{
}

/// Every request of the start-up script names only answers that were kept
/// before it: a run of the script never stops on a dangling operand.
pub proof fn lemma_standard_script_resolves(replies: Seq<usize>)
    requires
        replies.len() < standard_script().len(),
    ensures
        request_of(kept_of(standard_script(), replies), standard_script()[replies.len() as int].call)
            is Some,
{
    let s = standard_script();
    lemma_kept_len(s, replies);
    lemma_standard_needs(replies.len() as int);
    lemma_needs_resolve(kept_of(s, replies), s[replies.len() as int].call);
}

proof fn lemma_keep_count_monotone(steps: Seq<SetupStep>, a: nat, b: nat)
    requires
        a <= b,
    ensures
        keep_count(steps, a) <= keep_count(steps, b),
    decreases b,
{
    if a < b {
        lemma_keep_count_monotone(steps, a, (b - 1) as nat);
    }
}

/// The host request of start-up step `n`, given the answers `r` to the
/// steps before it: `r[1]` is `Object.prototype`, `r[13]` the descriptor of
/// its `__proto__`, `r[14]` that descriptor's getter, `r[16]` the symbols of
/// `Function.prototype`, `r[17]` the first of them, `r[18]` `bind`.
pub open spec fn startup_request(n: int, r: Seq<usize>) -> SetupRequest {
    if n == 0 {
        SetupRequest::Get(TYPEOF_ID, SetupKey::Name("__proto__"))
    } else if n == 1 {
        SetupRequest::Get(FUNCTION_PROTOTYPE_ID, SetupKey::Name("__proto__"))
    } else if n == 2 {
        SetupRequest::Get(r[1], SetupKey::Name("constructor"))
    } else if n == 3 {
        SetupRequest::Get(OBJECT_ID, SetupKey::Name("create"))
    } else if n == 4 {
        SetupRequest::Get(OBJECT_ID, SetupKey::Name("defineProperty"))
    } else if n == 5 {
        SetupRequest::Get(OBJECT_ID, SetupKey::Name("is"))
    } else if n == 6 {
        SetupRequest::Get(OBJECT_ID, SetupKey::Name("isExtensible"))
    } else if n == 7 {
        SetupRequest::Get(OBJECT_ID, SetupKey::Name("isNull"))
    } else if n == 8 {
        SetupRequest::Get(OBJECT_ID, SetupKey::Name("getOwnPropertyDescriptor"))
    } else if n == 9 {
        SetupRequest::Get(OBJECT_ID, SetupKey::Name("getOwnPropertyNames"))
    } else if n == 10 {
        SetupRequest::Get(OBJECT_ID, SetupKey::Name("getOwnPropertySymbols"))
    } else if n == 11 {
        SetupRequest::Get(OBJECT_ID, SetupKey::Name("preventExtensions"))
    } else if n == 12 {
        SetupRequest::Get(OBJECT_ID, SetupKey::Name("setPrototypeOf"))
    } else if n == 13 {
        SetupRequest::Call2(GET_OWN_PROPERTY_DESCRIPTOR_ID, r[1], SetupKey::Name("__proto__"))
    } else if n == 14 {
        SetupRequest::Get(r[13], SetupKey::Name("get"))
    } else if n == 15 {
        SetupRequest::Get(r[14], SetupKey::Name("call"))
    } else if n == 16 {
        SetupRequest::Call1(GET_OWN_PROPERTY_SYMBOLS_ID, FUNCTION_PROTOTYPE_ID)
    } else if n == 17 {
        SetupRequest::Get(r[16], SetupKey::Index(0))
    } else if n == 18 {
        SetupRequest::Get(TYPEOF_ID, SetupKey::Name("bind"))
    } else if n == 19 {
        SetupRequest::Get(r[18], SetupKey::Name("apply"))
    } else if n == 20 {
        SetupRequest::Get(r[16], SetupKey::Name("constructor"))
    } else if n == 21 {
        SetupRequest::Get(r[17], SetupKey::Name("constructor"))
    } else if n == 22 {
        SetupRequest::Get(r[1], SetupKey::Name("__proto__"))
    } else if n == 23 {
        SetupRequest::Get(TYPEOF_ID, SetupKey::Name("undefined"))
    } else if n == 24 {
        SetupRequest::Get(r[13], SetupKey::Name("enumerable"))
    } else if n == 25 {
        SetupRequest::Call1(IS_EXTENSIBLE_ID, r[14])
    } else if n == 26 {
        SetupRequest::Get(ARRAY_ID, SetupKey::Name("isArray"))
    } else if n == 27 {
        SetupRequest::Get(SYMBOL_ID, SetupKey::Name("keyFor"))
    } else if n == 28 {
        SetupRequest::Call0(ARRAY_ID)
    } else if n == 29 {
        SetupRequest::Call1(OBJECT_CREATE_ID, NULL_ID)
    } else if n == 30 {
        SetupRequest::SetProp(DEFAULT_DATA_DESCRIPTOR_ID, SetupKey::Name("writable"), TRUE_ID)
    } else if n == 31 {
        SetupRequest::SetProp(DEFAULT_DATA_DESCRIPTOR_ID, SetupKey::Name("enumerable"), TRUE_ID)
    } else if n == 32 {
        SetupRequest::SetProp(DEFAULT_DATA_DESCRIPTOR_ID, SetupKey::Name("configurable"), TRUE_ID)
    } else if n == 33 {
        SetupRequest::Call1(OBJECT_CREATE_ID, NULL_ID)
    } else if n == 34 {
        SetupRequest::SetProp(DEFAULT_GETTER_DESCRIPTOR_ID, SetupKey::Name("enumerable"), TRUE_ID)
    } else if n == 35 {
        SetupRequest::SetProp(DEFAULT_GETTER_DESCRIPTOR_ID, SetupKey::Name("configurable"), TRUE_ID)
    } else if n == 36 {
        SetupRequest::Call1(OBJECT_CREATE_ID, NULL_ID)
    } else if n == 37 {
        SetupRequest::SetProp(DEFAULT_SETTER_DESCRIPTOR_ID, SetupKey::Name("enumerable"), TRUE_ID)
    } else if n == 38 {
        SetupRequest::SetProp(DEFAULT_SETTER_DESCRIPTOR_ID, SetupKey::Name("configurable"), TRUE_ID)
    } else if n == 39 {
        SetupRequest::Call1(OBJECT_CREATE_ID, NULL_ID)
    } else if n == 40 {
        SetupRequest::Call1(OBJECT_CREATE_ID, NULL_ID)
    } else if n == 41 {
        SetupRequest::Call1(OBJECT_CREATE_ID, NULL_ID)
    } else if n == 42 {
        SetupRequest::Call1(OBJECT_CREATE_ID, NULL_ID)
    } else if n == 43 {
        SetupRequest::SetProp(WRITABLE_DESCRIPTOR_ID, SetupKey::Name("writable"), TRUE_ID)
    } else if n == 44 {
        SetupRequest::Call1(OBJECT_CREATE_ID, NULL_ID)
    } else if n == 45 {
        SetupRequest::SetProp(UNWRITABLE_DESCRIPTOR_ID, SetupKey::Name("writable"), FALSE_ID)
    } else if n == 46 {
        SetupRequest::Call1(OBJECT_CREATE_ID, NULL_ID)
    } else if n == 47 {
        SetupRequest::SetProp(ENUMERABLE_DESCRIPTOR_ID, SetupKey::Name("enumerable"), TRUE_ID)
    } else if n == 48 {
        SetupRequest::Call1(OBJECT_CREATE_ID, NULL_ID)
    } else if n == 49 {
        SetupRequest::SetProp(UNENUMERABLE_DESCRIPTOR_ID, SetupKey::Name("enumerable"), FALSE_ID)
    } else if n == 50 {
        SetupRequest::Call1(OBJECT_CREATE_ID, NULL_ID)
    } else {
        SetupRequest::SetProp(UNCONFIGURABLE_DESCRIPTOR_ID, SetupKey::Name("configurable"), FALSE_ID)
    }
}

/// The handle that start-up step `n` must be answered with, where the
/// runtime reserves one.
pub open spec fn startup_expect(n: int) -> Option<usize> {
    if n == 0 {
        Some(FUNCTION_PROTOTYPE_ID)
    } else if n == 2 {
        Some(OBJECT_ID)
    } else if n == 3 {
        Some(OBJECT_CREATE_ID)
    } else if n == 4 {
        Some(DEFINE_PROPERTY_ID)
    } else if n == 5 {
        Some(OBJECT_IS_ID)
    } else if n == 6 {
        Some(IS_EXTENSIBLE_ID)
    } else if n == 7 {
        Some(IS_NULL_ID)
    } else if n == 8 {
        Some(GET_OWN_PROPERTY_DESCRIPTOR_ID)
    } else if n == 9 {
        Some(GET_OWN_PROPERTY_NAMES_ID)
    } else if n == 10 {
        Some(GET_OWN_PROPERTY_SYMBOLS_ID)
    } else if n == 11 {
        Some(PREVENT_EXTENSIONS_ID)
    } else if n == 12 {
        Some(SET_PROTOTYPE_OF_ID)
    } else if n == 15 {
        Some(PROTO_GET_CALL_ID)
    } else if n == 19 {
        Some(BIND_APPLY_ID)
    } else if n == 20 {
        Some(ARRAY_ID)
    } else if n == 21 {
        Some(SYMBOL_ID)
    } else if n == 22 {
        Some(NULL_ID)
    } else if n == 23 {
        Some(UNDEFINED_ID)
    } else if n == 24 {
        Some(FALSE_ID)
    } else if n == 25 {
        Some(TRUE_ID)
    } else if n == 26 {
        Some(IS_ARRAY_ID)
    } else if n == 27 {
        Some(SYMBOL_KEY_FOR_ID)
    } else if n == 28 {
        Some(EMPTY_ARRAY_ID)
    } else if n == 29 {
        Some(DEFAULT_DATA_DESCRIPTOR_ID)
    } else if n == 33 {
        Some(DEFAULT_GETTER_DESCRIPTOR_ID)
    } else if n == 36 {
        Some(DEFAULT_SETTER_DESCRIPTOR_ID)
    } else if n == 39 {
        Some(EMPTY_VALUE_DESCRIPTOR_ID)
    } else if n == 40 {
        Some(EMPTY_GETTER_DESCRIPTOR_ID)
    } else if n == 41 {
        Some(EMPTY_SETTER_DESCRIPTOR_ID)
    } else if n == 42 {
        Some(WRITABLE_DESCRIPTOR_ID)
    } else if n == 44 {
        Some(UNWRITABLE_DESCRIPTOR_ID)
    } else if n == 46 {
        Some(ENUMERABLE_DESCRIPTOR_ID)
    } else if n == 48 {
        Some(UNENUMERABLE_DESCRIPTOR_ID)
    } else if n == 50 {
        Some(UNCONFIGURABLE_DESCRIPTOR_ID)
    } else {
        None
    }
}

/// The answers that start-up keeps after the answers `r`, listed straight:
/// those of steps 1, 13, 14, 16, 17 and 18, in that order, as far as they
/// have been given.
pub open spec fn startup_kept(r: Seq<usize>) -> Seq<usize> {
    let n = r.len();
    let one = |i: int| if n > i {
        seq![r[i]]
    } else {
        Seq::<usize>::empty()
    };
    one(1) + one(13) + one(14) + one(16) + one(17) + one(18)
}

proof fn lemma_standard_kept(r: Seq<usize>)
    requires
        r.len() <= standard_script().len(),
    ensures
        kept_of(standard_script(), r) == startup_kept(r),
    decreases r.len(),
{
    if r.len() > 0 {
        let p = r.drop_last();
        lemma_standard_kept(p);
        let n = r.len();
        let s = standard_script();
        assert(s[n - 1].keep == (n - 1 == 1 || n - 1 == 13 || n - 1 == 14 || n - 1 == 16 || n - 1
            == 17 || n - 1 == 18));
        assert(forall|i: int| 0 <= i < p.len() ==> p[i] == r[i]);
        assert(kept_of(s, r) =~= startup_kept(r));
    } else {
        assert(startup_kept(r) =~= Seq::<usize>::empty());
    }
}

/// Start-up asks the host, step by step, the questions of the runtime's
/// start-up, each about the object that an earlier answer gave (the
/// getter is read off the `__proto__` descriptor, a symbol's constructor
/// off the first symbol of `Function.prototype`, ...), and requires of each
/// answer the handle that the runtime reserves for it.
pub proof fn lemma_standard_script_asks_startup(r: Seq<usize>)
    requires
        r.len() < standard_script().len(),
    ensures
        request_of(kept_of(standard_script(), r), standard_script()[r.len() as int].call) == Some(
            startup_request(r.len() as int, r),
        ),
        standard_script()[r.len() as int].expect == startup_expect(r.len() as int),
{
    lemma_standard_kept(r);
}

/// A runner of the start-up script asks, at each step, the start-up
/// question for the answers it has been given.
pub proof fn lemma_runner_asks_startup(runner: SetupRunner)
    requires
        runner.wf(),
        runner@.steps == standard_script(),
        runner@.replies.len() < standard_script().len(),
    ensures
        request_of(runner@.kept, runner@.steps[runner@.replies.len() as int].call) == Some(
            startup_request(runner@.replies.len() as int, runner@.replies),
        ),
        runner@.steps[runner@.replies.len() as int].expect == startup_expect(
            runner@.replies.len() as int,
        ),
{
    lemma_standard_script_asks_startup(runner@.replies);
}

} // verus!
