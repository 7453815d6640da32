//! The values that cross between the runtime and the host, and their
//! mathematical models.
use vstd::prelude::*;
use crate::handles::{is_truthy_bits, truthy_bits, UNDEFINED_ID};

verus! {

/// A plain host object, held by its handle.
#[derive(Clone, Debug)]
pub struct PlainObject {
    id: usize,
}

/// A host function, held by its handle.
#[derive(Clone, Debug)]
pub struct Function {
    id: usize,
}

/// A host array, held by its handle.
#[derive(Clone, Debug)]
pub struct Array {
    id: usize,
}

impl PlainObject {
    pub closed spec fn handle(&self) -> usize {
        self.id
    }

    /// The object that the host handle `id` stands for.
    pub fn from_handle(id: usize) -> (o: PlainObject)
        ensures
            o.handle() == id,
    {
        PlainObject { id }
    }
}

impl Function {
    pub closed spec fn handle(&self) -> usize {
        self.id
    }

    /// The function that the host handle `id` stands for.
    pub fn from_handle(id: usize) -> (f: Function)
        ensures
            f.handle() == id,
    {
        Function { id }
    }
}

impl Array {
    pub closed spec fn handle(&self) -> usize {
        self.id
    }

    /// The array that the host handle `id` stands for.
    pub fn from_handle(id: usize) -> (a: Array)
        ensures
            a.handle() == id,
    {
        Array { id }
    }
}

/// Anything that lives on the host as an object and is reached by a handle.
pub trait Object {
    spec fn object_handle(&self) -> usize;

    fn id(&self) -> (r: usize)
        ensures
            r == self.object_handle(),
    ;
}

impl Object for PlainObject {
    open spec fn object_handle(&self) -> usize {
        self.handle()
    }

    fn id(&self) -> (r: usize) {
        self.id
    }
}

impl Object for Function {
    open spec fn object_handle(&self) -> usize {
        self.handle()
    }

    fn id(&self) -> (r: usize) {
        self.id
    }
}

impl Object for Array {
    open spec fn object_handle(&self) -> usize {
        self.handle()
    }

    fn id(&self) -> (r: usize) {
        self.id
    }
}

#[derive(Clone, Debug)]
pub enum AnyObject {
    Plain(PlainObject),
    Function(Function),
    Array(Array),
}

/// Which kind of object a handle names, and the handle.
pub enum ObjectView {
    Plain(usize),
    Function(usize),
    Array(usize),
}

impl View for AnyObject {
    type V = ObjectView;

    open spec fn view(&self) -> ObjectView {
        match self {
            AnyObject::Plain(o) => ObjectView::Plain(o.handle()),
            AnyObject::Function(o) => ObjectView::Function(o.handle()),
            AnyObject::Array(o) => ObjectView::Array(o.handle()),
        }
    }
}

pub open spec fn object_view_handle(o: ObjectView) -> usize {
    match o {
        ObjectView::Plain(h) => h,
        ObjectView::Function(h) => h,
        ObjectView::Array(h) => h,
    }
}

impl Object for AnyObject {
    open spec fn object_handle(&self) -> usize {
        object_view_handle(self@)
    }

    fn id(&self) -> (r: usize) {
        match self {
            AnyObject::Plain(o) => o.id,
            AnyObject::Function(o) => o.id,
            AnyObject::Array(o) => o.id,
        }
    }
}

/// A host symbol: its handle, its description, and whether it is registered
/// in the global symbol registry.
#[derive(Clone, Debug)]
pub struct Symbol {
    id: usize,
    name: String,
    global: bool,
}

pub struct SymbolView {
    pub id: usize,
    pub name: Seq<char>,
    pub global: bool,
}

impl View for Symbol {
    type V = SymbolView;

    closed spec fn view(&self) -> SymbolView {
        SymbolView { id: self.id, name: self.name@, global: self.global }
    }
}

impl Symbol {
    pub fn new(id: usize, name: String, global: bool) -> (s: Symbol)
        ensures
            s@ == (SymbolView { id, name: name@, global }),
    {
        Symbol { id, name, global }
    }

    /// The symbol's host handle.
    pub fn id(&self) -> (r: usize)
        ensures
            r == self@.id,
    {
        self.id
    }
}

/// A host value. A number is held by the bits of its IEEE-754 double, as the
/// host reports it.
#[derive(Clone, Debug)]
pub enum Value {
    Null,
    Undefined,
    Boolean(bool),
    Number(u64),
    String(String),
    Symbol(Symbol),
    Object(AnyObject),
}

pub enum ValueView {
    Null,
    Undefined,
    Boolean(bool),
    Number(u64),
    String(Seq<char>),
    Symbol(SymbolView),
    Object(ObjectView),
}

impl View for Value {
    type V = ValueView;

    open spec fn view(&self) -> ValueView {
        match self {
            Value::Null => ValueView::Null,
            Value::Undefined => ValueView::Undefined,
            Value::Boolean(b) => ValueView::Boolean(*b),
            Value::Number(n) => ValueView::Number(*n),
            Value::String(s) => ValueView::String(s@),
            Value::Symbol(s) => ValueView::Symbol(s@),
            Value::Object(o) => ValueView::Object(o@),
        }
    }
}

/// What a registered callback is handed when the host calls it.
#[derive(Clone, Debug)]
pub struct FunctionContext {
    pub args: Array,
    pub is_new: bool,
}

/// A property key: a string or a symbol.
#[derive(Clone, Debug)]
pub enum ObjectKey {
    String(String),
    Symbol(Symbol),
}

pub enum KeyView {
    String(Seq<char>),
    Symbol(SymbolView),
}

impl View for ObjectKey {
    type V = KeyView;

    open spec fn view(&self) -> KeyView {
        match self {
            ObjectKey::String(s) => KeyView::String(s@),
            ObjectKey::Symbol(s) => KeyView::Symbol(s@),
        }
    }
}

#[derive(Clone, Debug)]
pub struct DataDescriptor {
    id: usize,
    pub value: Value,
    pub writable: bool,
    pub enumerable: bool,
    pub configurable: bool,
}

#[derive(Clone, Debug)]
pub struct AccessorDescriptor {
    id: usize,
    pub get: Option<Function>,
    pub set: Option<Function>,
    pub enumerable: bool,
    pub configurable: bool,
}

#[derive(Clone, Debug)]
pub enum PropertyDescriptor {
    Data(DataDescriptor),
    Accessor(AccessorDescriptor),
}

pub struct DataView {
    pub id: usize,
    pub value: ValueView,
    pub writable: bool,
    pub enumerable: bool,
    pub configurable: bool,
}

pub struct AccessorView {
    pub id: usize,
    pub get: Option<usize>,
    pub set: Option<usize>,
    pub enumerable: bool,
    pub configurable: bool,
}

pub enum DescriptorView {
    Data(DataView),
    Accessor(AccessorView),
}

pub open spec fn function_slot(f: Option<Function>) -> Option<usize> {
    match f {
        Some(g) => Some(g.handle()),
        None => None,
    }
}

impl View for DataDescriptor {
    type V = DataView;

    closed spec fn view(&self) -> DataView {
        DataView {
            id: self.id,
            value: self.value@,
            writable: self.writable,
            enumerable: self.enumerable,
            configurable: self.configurable,
        }
    }
}

impl DataDescriptor {
    pub fn new(id: usize, value: Value, writable: bool, enumerable: bool, configurable: bool) -> (d:
        DataDescriptor)
        ensures
            d@ == (DataView { id, value: value@, writable, enumerable, configurable }),
    {
        DataDescriptor { id, value, writable, enumerable, configurable }
    }
}

impl View for AccessorDescriptor {
    type V = AccessorView;

    closed spec fn view(&self) -> AccessorView {
        AccessorView {
            id: self.id,
            get: function_slot(self.get),
            set: function_slot(self.set),
            enumerable: self.enumerable,
            configurable: self.configurable,
        }
    }
}

impl AccessorDescriptor {
    pub fn new(
        id: usize,
        get: Option<Function>,
        set: Option<Function>,
        enumerable: bool,
        configurable: bool,
    ) -> (d: AccessorDescriptor)
        ensures
            d@ == (AccessorView {
                id,
                get: function_slot(get),
                set: function_slot(set),
                enumerable,
                configurable,
            }),
    {
        AccessorDescriptor { id, get, set, enumerable, configurable }
    }
}

impl View for PropertyDescriptor {
    type V = DescriptorView;

    open spec fn view(&self) -> DescriptorView {
        match self {
            PropertyDescriptor::Data(d) => DescriptorView::Data(d@),
            PropertyDescriptor::Accessor(d) => DescriptorView::Accessor(d@),
        }
    }
}

/// The `new.target` and `arguments` of the runtime's entry call.
pub struct Context {
    new_target: Value,
    arguments: Value,
}

impl Context {
    pub closed spec fn new_target_view(&self) -> ValueView {
        self.new_target@
    }

    pub closed spec fn arguments_view(&self) -> ValueView {
        self.arguments@
    }

    pub fn new(new_target: Value, arguments: Value) -> (c: Context)
        ensures
            c.new_target_view() == new_target@,
            c.arguments_view() == arguments@,
    {
        Context { new_target, arguments }
    }
}

/// The handle that stands for an accessor slot in a descriptor: the
/// function's, or `undefined` for none.
pub fn accessor_id(f: Option<&Function>) -> (r: usize)
    ensures
        r == (match f {
            Some(g) => g.handle(),
            None => UNDEFINED_ID,
        }),
{
    match f {
        Some(g) => g.id,
        None => UNDEFINED_ID,
    }
}

/// How a host call came back: `ret` is the handle of the call's record,
/// `status` the bits of the number stored in it (truthy when the call
/// returned). The result or the thrown object lives at the handle after it.
pub fn call_result(ret: usize, status: u64) -> (r: Result<usize, PlainObject>)
    requires
        ret < usize::MAX,
    ensures
        is_truthy_bits(status) ==> r == Ok::<usize, PlainObject>((ret + 1) as usize),
        !is_truthy_bits(status) ==> (r matches Err(o) && o.handle() == ret + 1),
{
    if truthy_bits(status) {
        Ok(ret + 1)
    } else {
        Err(PlainObject { id: ret + 1 })
    }
}

} // verus!
