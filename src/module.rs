use vstd::prelude::*;
use std::sync::Arc;
use crate::descriptor::{same_types, UserFunctionDescriptor};
use crate::error::{Error, ResolutionError};
use crate::value::{RuntimeValue, ValueType};

verus! {

/// An index into one of a module's item spaces.
#[derive(Debug, Clone, Copy, PartialEq, Eq, Structural)]
pub enum ItemIndex {
    /// Raw index over the module's own items in declaration order.
    IndexSpace(u32),
    /// Index after import resolution, for in-module addressing.
    Internal(u32),
    /// Index into items of other module instances.
    External(u32),
}

/// An addressable item that an export resolves to.
#[derive(Debug, Clone, Copy, PartialEq, Eq, Structural)]
pub enum Internal {
    Function(u32),
    Table(u32),
    Memory(u32),
    Global(u32),
}

/// The raw number of an index, whatever its kind.
pub open spec fn index_number(index: ItemIndex) -> u32 {
    match index {
        ItemIndex::IndexSpace(i) => i,
        ItemIndex::Internal(i) => i,
        ItemIndex::External(i) => i,
    }
}

/// The raw number of an index, whatever its kind.
pub fn index_value(index: ItemIndex) -> (r: u32)
    ensures
        r == index_number(index),
{
    match index {
        ItemIndex::IndexSpace(i) => i,
        ItemIndex::Internal(i) => i,
        ItemIndex::External(i) => i,
    }
}

/// Signature of a bytecode-defined function.
#[derive(Debug, Clone)]
pub struct FunctionType {
    pub params: Vec<ValueType>,
    pub return_type: Option<ValueType>,
}

/// Signature of any function: bytecode-defined or host-defined.
#[derive(Debug, Clone, Copy)]
pub enum FunctionSignature<'a> {
    Module(&'a FunctionType),
    User(&'a UserFunctionDescriptor),
}

impl<'a> FunctionSignature<'a> {
    pub open spec fn spec_params(&self) -> Seq<ValueType> {
        match self {
            FunctionSignature::Module(t) => t.params@,
            FunctionSignature::User(d) => d.spec_params(),
        }
    }

    pub open spec fn spec_return_type(&self) -> Option<ValueType> {
        match self {
            FunctionSignature::Module(t) => t.return_type,
            FunctionSignature::User(d) => d.spec_return_type(),
        }
    }

    /// Parameter types.
    pub fn params(&self) -> (r: &'a [ValueType])
        ensures
            r@ == self.spec_params(),
    {
        match self {
            FunctionSignature::Module(t) => t.params.as_slice(),
            FunctionSignature::User(d) => d.params(),
        }
    }

    /// Return type, if the function returns a value.
    pub fn return_type(&self) -> (r: Option<ValueType>)
        ensures
            r == self.spec_return_type(),
    {
        match self {
            FunctionSignature::Module(t) => t.return_type,
            FunctionSignature::User(d) => d.return_type(),
        }
    }
}

/// Signatures are equal when parameters and return type are, whatever the variant.
impl<'a> PartialEq for FunctionSignature<'a> {
    fn eq(&self, other: &Self) -> (r: bool)
        ensures
            r == (self.spec_params() == other.spec_params() && self.spec_return_type()
                == other.spec_return_type()),
    {
        same_types(self.params(), other.params()) && self.return_type() == other.return_type()
    }
}

impl<'a> vstd::std_specs::cmp::PartialEqSpecImpl for FunctionSignature<'a> {
    open spec fn obeys_eq_spec() -> bool {
        true
    }

    open spec fn eq_spec(&self, other: &Self) -> bool {
        self.spec_params() == other.spec_params() && self.spec_return_type()
            == other.spec_return_type()
    }
}

/// Whether two signatures agree on parameters and return type.
pub open spec fn same_signature(a: FunctionSignature<'_>, b: FunctionSignature<'_>) -> bool {
    a.spec_params() == b.spec_params() && a.spec_return_type() == b.spec_return_type()
}

/// The shape an export is required to have.
#[derive(Debug, Clone, Copy)]
pub enum ExportEntryType<'a> {
    /// A function of exactly this signature.
    Function(FunctionSignature<'a>),
    /// A global of this value type.
    Global(ValueType),
    /// Any item.
    Any,
}

/// Context of the call instruction that invokes a function: the caller's
/// operand stack, from which the callee takes its arguments.
#[derive(Debug, Clone)]
pub struct CallerContext {
    pub value_stack: Vec<RuntimeValue>,
}

/// Bytecode body of a directly executable function.
#[derive(Debug, Clone)]
pub struct FunctionBody {
    pub locals: Vec<ValueType>,
    pub code: Vec<u8>,
}

/// Shared table state.
#[derive(Debug)]
pub struct TableInstance {
    pub elements: Vec<Option<u32>>,
}

/// Shared linear memory state.
#[derive(Debug)]
pub struct MemoryInstance {
    pub bytes: Vec<u8>,
}

/// Shared global variable state.
#[derive(Debug)]
pub struct VariableInstance {
    pub value: RuntimeValue,
    pub is_mutable: bool,
}

/// The contract that every executable unit satisfies.
///
/// The lookups (`export_entry`, `function_type`, `function_type_by_index`,
/// `function_body`) are deterministic and described by spec functions;
/// execution may depend on state, so only the failures known in advance are
/// described (`spec_call_failure`).
///
/// Resolving a callable reference across modules (a function reference that
/// holds its module as `Arc<dyn ModuleInstanceInterface>`, looked up in a map
/// of such modules) is not part of this trait: a method of the trait whose
/// type holds the trait itself is a cyclic definition that Verus refuses.
pub trait ModuleInstanceInterface {
    spec fn spec_export_entry(&self, name: Seq<char>, required_type: ExportEntryType<'_>) -> Result<
        Internal,
        Error,
    >;

    spec fn spec_table(&self, index: ItemIndex) -> Result<Arc<TableInstance>, Error>;

    spec fn spec_memory(&self, index: ItemIndex) -> Result<Arc<MemoryInstance>, Error>;

    spec fn spec_global(&self, index: ItemIndex, value_type: Option<ValueType>) -> Result<
        Arc<VariableInstance>,
        Error,
    >;

    spec fn spec_function_type<'a>(&'a self, index: ItemIndex) -> Result<FunctionSignature<'a>, Error>;

    spec fn spec_function_type_by_index<'a>(&'a self, type_index: u32) -> Result<
        FunctionSignature<'a>,
        Error,
    >;

    spec fn spec_function_body(&self, index: u32) -> Result<Option<FunctionBody>, Error>;

    /// An error that a call of the function at `index` returns whatever the context.
    spec fn spec_call_failure(&self, index: u32) -> Option<Error>;

    /// Invoke the function at `index` with `params`.
    fn execute_index(&self, index: u32, params: Vec<RuntimeValue>) -> Result<
        Option<RuntimeValue>,
        Error,
    >;

    /// Invoke the function exported as `name` with `params`.
    fn execute_export(&self, name: &str, params: Vec<RuntimeValue>) -> Result<
        Option<RuntimeValue>,
        Error,
    >;

    /// Resolve an export to an internal handle of the required shape.
    fn export_entry(&self, name: &str, required_type: &ExportEntryType<'_>) -> (r: Result<
        Internal,
        Error,
    >)
        ensures
            r == self.spec_export_entry(name@, *required_type),
    ;

    /// Shared handle of the table at `index`.
    fn table(&self, index: ItemIndex) -> (r: Result<Arc<TableInstance>, Error>)
        ensures
            r == self.spec_table(index),
    ;

    /// Shared handle of the memory at `index`.
    fn memory(&self, index: ItemIndex) -> (r: Result<Arc<MemoryInstance>, Error>)
        ensures
            r == self.spec_memory(index),
    ;

    /// Shared handle of the global at `index`, of `value_type` where given.
    fn global(&self, index: ItemIndex, value_type: Option<ValueType>) -> (r: Result<
        Arc<VariableInstance>,
        Error,
    >)
        ensures
            r == self.spec_global(index, value_type),
    ;

    /// Signature of the function at `index`.
    fn function_type<'a>(&'a self, index: ItemIndex) -> (r: Result<FunctionSignature<'a>, Error>)
        ensures
            r == self.spec_function_type(index),
    ;

    /// Signature declared under `type_index`.
    fn function_type_by_index<'a>(&'a self, type_index: u32) -> (r: Result<FunctionSignature<'a>, Error>)
        ensures
            r == self.spec_function_type_by_index(type_index),
    ;

    /// Body of the function at `index`, or none where it must be invoked
    /// through `call_internal_function`.
    fn function_body(&self, index: u32) -> (r: Result<Option<FunctionBody>, Error>)
        ensures
            r == self.spec_function_body(index),
    ;

    /// Invoke the function at `index` from a call instruction.
    fn call_internal_function(&self, outer: CallerContext, index: u32) -> (r: Result<
        Option<RuntimeValue>,
        Error,
    >)
        ensures
            self.spec_call_failure(index) matches Some(e) ==> r == Err::<Option<RuntimeValue>, Error>(e),
    ;
}

} // verus!
