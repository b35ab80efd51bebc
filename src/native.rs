use vstd::prelude::*;
use std::sync::Arc;
use crate::descriptor::UserFunctionDescriptor;
use crate::error::{Error, NativeError};
use crate::module::{
    index_number, index_value, same_signature, CallerContext, ExportEntryType, FunctionBody,
    FunctionSignature, Internal, ItemIndex, MemoryInstance, ModuleInstanceInterface,
    TableInstance, VariableInstance,
};
use crate::text::str_equal;
use crate::value::{RuntimeValue, ValueType};

verus! {

/// Smallest composite index: indices at or above it address native functions.
pub const NATIVE_INDEX_FUNC_MIN: u32 = 10001;

/// Host side of native functions: runs the function registered under `name`.
pub trait UserFunctionExecutor {
    /// Execute the function with the given name.
    fn execute(&mut self, name: &str, context: CallerContext) -> Result<
        Option<RuntimeValue>,
        Error,
    >;
}

/// An executor borrowed for the lifetime of a bridge runs as the executor it borrows.
impl<'e, T: UserFunctionExecutor> UserFunctionExecutor for &'e mut T {
    fn execute(&mut self, name: &str, context: CallerContext) -> Result<
        Option<RuntimeValue>,
        Error,
    > {
        (**self).execute(name, context)
    }
}

/// A set of native functions together with the executor that runs them.
pub struct UserFunctions<E> {
    /// Descriptors, in registration order.
    pub functions: Vec<UserFunctionDescriptor>,
    /// Executor of every function in `functions`.
    pub executor: E,
}

/// An executor that runs one call at a time: each call holds it exclusively.
///
/// A native function that re-enters the bridge and calls another native
/// function through the same executor waits for itself forever; such
/// recursion is not supported.
#[verifier::external_body]
#[verifier::reject_recursive_types(E)]
struct ExclusiveExecutor<E> {
    lock: parking_lot::RwLock<E>,
}

impl<E: UserFunctionExecutor> ExclusiveExecutor<E> {
    /// Relies on parking_lot::RwLock::new: wraps the executor, unlocked.
    #[verifier::external_body]
    fn new(executor: E) -> Self {
        ExclusiveExecutor { lock: parking_lot::RwLock::new(executor) }
    }

    /// Relies on parking_lot::RwLock::write: the call runs under the write
    /// lock, so no other call through this executor overlaps it.
    #[verifier::external_body]
    fn execute(&self, name: &str, context: CallerContext) -> Result<Option<RuntimeValue>, Error> {
        self.lock.write().execute(name, context)
    }
}

/// Position of the last descriptor registered under `name`.
pub open spec fn last_position(functions: Seq<UserFunctionDescriptor>, name: Seq<char>) -> Option<
    int,
>
    decreases functions.len(),
{
    if functions.len() == 0 {
        None
    } else if functions.last().spec_name() == name {
        Some(functions.len() - 1)
    } else {
        last_position(functions.drop_last(), name)
    }
}

/// A registered position lies within the descriptor list and carries the name.
pub proof fn lemma_last_position_valid(functions: Seq<UserFunctionDescriptor>, name: Seq<char>)
    ensures
        last_position(functions, name) matches Some(p) ==> 0 <= p < functions.len()
            && functions[p].spec_name() == name,
    decreases functions.len(),
{
    if functions.len() > 0 && functions.last().spec_name() != name {
        lemma_last_position_valid(functions.drop_last(), name);
    }
}

/// A module instance that splices host functions into the function index
/// space of a base instance, at composite indices from `NATIVE_INDEX_FUNC_MIN`.
///
/// Every operation goes to the base instance, except signature lookup and
/// calls at composite indices, export resolution of registered names whose
/// signature matches, and `function_body`, which is always none.
#[verifier::reject_recursive_types(E)]
pub struct NativeModuleInstance<M: ModuleInstanceInterface, E: UserFunctionExecutor> {
    env: Arc<M>,
    executor: ExclusiveExecutor<E>,
    functions: Vec<UserFunctionDescriptor>,
}

impl<M: ModuleInstanceInterface, E: UserFunctionExecutor> NativeModuleInstance<M, E> {
    #[verifier::type_invariant]
    pub closed spec fn composite_indices_fit(&self) -> bool {
        self.functions@.len() <= u32::MAX - NATIVE_INDEX_FUNC_MIN
    }

    /// The base instance.
    pub closed spec fn base(&self) -> M {
        *self.env
    }

    /// The registered descriptors, in registration order.
    pub closed spec fn descriptors(&self) -> Seq<UserFunctionDescriptor> {
        self.functions@
    }

    /// Wrap `env` with the functions of `functions`.
    pub fn new(env: Arc<M>, functions: UserFunctions<E>) -> (r: Result<Self, Error>)
        requires
            functions.functions@.len() <= u32::MAX - NATIVE_INDEX_FUNC_MIN,
        ensures
            r matches Ok(m) && m.base() == *env && m.descriptors() == functions.functions@,
    {
        Ok(NativeModuleInstance {
            env,
            executor: ExclusiveExecutor::new(functions.executor),
            functions: functions.functions,
        })
    }

    /// Number of registered native functions; every composite index of one
    /// fits in a `u32`.
    pub fn descriptor_count(&self) -> (r: usize)
        ensures
            r == self.descriptors().len(),
            r <= u32::MAX - NATIVE_INDEX_FUNC_MIN,
    {
        proof {
            use_type_invariant(self);
        }
        self.functions.len()
    }

    /// Name of the native function at composite index `index`, if one is
    /// registered there.
    pub fn native_function_name(&self, index: u32) -> (r: Option<&str>)
        ensures
            index >= NATIVE_INDEX_FUNC_MIN && index - NATIVE_INDEX_FUNC_MIN
                < self.descriptors().len() ==> (r matches Some(n) && n@ == self.descriptors()[index
                - NATIVE_INDEX_FUNC_MIN].spec_name()),
            !(index >= NATIVE_INDEX_FUNC_MIN && index - NATIVE_INDEX_FUNC_MIN
                < self.descriptors().len()) ==> r is None,
    {
        if index < NATIVE_INDEX_FUNC_MIN {
            return None;
        }
        let k = (index - NATIVE_INDEX_FUNC_MIN) as usize;
        if k < self.functions.len() {
            Some(self.functions[k].name())
        } else {
            None
        }
    }

    /// Position of the last descriptor registered under `name`.
    fn position_of(&self, name: &str) -> (r: Option<usize>)
        ensures
            r matches Some(p) ==> last_position(self.descriptors(), name@) == Some(p as int)
                && p < self.descriptors().len(),
            r is None ==> last_position(self.descriptors(), name@) is None,
    {
        let mut i: usize = self.functions.len();
        assert(self.functions@.subrange(0, i as int) =~= self.functions@);
        while i > 0
            invariant
                i <= self.functions@.len(),
                last_position(self.functions@, name@) == last_position(
                    self.functions@.subrange(0, i as int),
                    name@,
                ),
            decreases i,
        {
            proof {
                lemma_last_position_valid(self.functions@, name@);
            }
            let f = &self.functions[i - 1];
            if str_equal(f.name(), name) {
                return Some(i - 1);
            }
            assert(self.functions@.subrange(0, i as int).drop_last() =~= self.functions@.subrange(
                0,
                i - 1,
            ));
            i = i - 1;
        }
        None
    }
}

impl<M: ModuleInstanceInterface, E: UserFunctionExecutor> ModuleInstanceInterface for NativeModuleInstance<
    M,
    E,
> {
    open spec fn spec_export_entry(&self, name: Seq<char>, required_type: ExportEntryType<'_>) -> Result<
        Internal,
        Error,
    > {
        match (last_position(self.descriptors(), name), required_type) {
            (Some(p), ExportEntryType::Function(sig)) if same_signature(
                FunctionSignature::User(&self.descriptors()[p]),
                sig,
            ) => Ok(Internal::Function((NATIVE_INDEX_FUNC_MIN + p) as u32)),
            _ => self.base().spec_export_entry(name, required_type),
        }
    }

    open spec fn spec_function_type<'a>(&'a self, index: ItemIndex) -> Result<
        FunctionSignature<'a>,
        Error,
    > {
        let i = index_number(index);
        if i < NATIVE_INDEX_FUNC_MIN {
            self.base().spec_function_type(index)
        } else if i - NATIVE_INDEX_FUNC_MIN < self.descriptors().len() {
            Ok(FunctionSignature::User(&self.descriptors()[i - NATIVE_INDEX_FUNC_MIN]))
        } else {
            Err(Error::Native(NativeError::MissingFunctionType(i)))
        }
    }

    open spec fn spec_function_type_by_index<'a>(&'a self, type_index: u32) -> Result<
        FunctionSignature<'a>,
        Error,
    > {
        self.base().spec_function_type_by_index(type_index)
    }

    open spec fn spec_table(&self, index: ItemIndex) -> Result<Arc<TableInstance>, Error> {
        self.base().spec_table(index)
    }

    open spec fn spec_memory(&self, index: ItemIndex) -> Result<Arc<MemoryInstance>, Error> {
        self.base().spec_memory(index)
    }

    open spec fn spec_global(&self, index: ItemIndex, value_type: Option<ValueType>) -> Result<
        Arc<VariableInstance>,
        Error,
    > {
        self.base().spec_global(index, value_type)
    }

    open spec fn spec_function_body(&self, index: u32) -> Result<Option<FunctionBody>, Error> {
        Ok(None)
    }

    open spec fn spec_call_failure(&self, index: u32) -> Option<Error> {
        if index < NATIVE_INDEX_FUNC_MIN {
            self.base().spec_call_failure(index)
        } else if index - NATIVE_INDEX_FUNC_MIN < self.descriptors().len() {
            None
        } else {
            Some(Error::Native(NativeError::MissingFunction(index)))
        }
    }

    fn execute_index(&self, index: u32, params: Vec<RuntimeValue>) -> Result<
        Option<RuntimeValue>,
        Error,
    > {
        self.env.execute_index(index, params)
    }

    fn execute_export(&self, name: &str, params: Vec<RuntimeValue>) -> Result<
        Option<RuntimeValue>,
        Error,
    > {
        self.env.execute_export(name, params)
    }

    fn export_entry(&self, name: &str, required_type: &ExportEntryType<'_>) -> (r: Result<
        Internal,
        Error,
    >) {
        proof {
            use_type_invariant(self);
        }
        if let Some(p) = self.position_of(name) {
            let composite_index = NATIVE_INDEX_FUNC_MIN + p as u32;
            if let ExportEntryType::Function(required) = required_type {
                if let Ok(sig) = self.function_type(ItemIndex::Internal(composite_index)) {
                    if sig == *required {
                        return Ok(Internal::Function(composite_index));
                    }
                }
            }
        }
        self.env.export_entry(name, required_type)
    }

    fn table(&self, index: ItemIndex) -> (r: Result<Arc<TableInstance>, Error>) {
        self.env.table(index)
    }

    fn memory(&self, index: ItemIndex) -> (r: Result<Arc<MemoryInstance>, Error>) {
        self.env.memory(index)
    }

    fn global(&self, index: ItemIndex, value_type: Option<ValueType>) -> (r: Result<
        Arc<VariableInstance>,
        Error,
    >) {
        self.env.global(index, value_type)
    }

    fn function_type<'a>(&'a self, index: ItemIndex) -> (r: Result<FunctionSignature<'a>, Error>) {
        let i = index_value(index);
        if i < NATIVE_INDEX_FUNC_MIN {
            return self.env.function_type(index);
        }
        let k = (i - NATIVE_INDEX_FUNC_MIN) as usize;
        if k < self.functions.len() {
            Ok(FunctionSignature::User(&self.functions[k]))
        } else {
            Err(Error::Native(NativeError::MissingFunctionType(i)))
        }
    }

    fn function_type_by_index<'a>(&'a self, type_index: u32) -> (r: Result<
        FunctionSignature<'a>,
        Error,
    >) {
        self.env.function_type_by_index(type_index)
    }

    fn function_body(&self, index: u32) -> (r: Result<Option<FunctionBody>, Error>) {
        Ok(None)
    }

    fn call_internal_function(&self, outer: CallerContext, index: u32) -> (r: Result<
        Option<RuntimeValue>,
        Error,
    >) {
        if index < NATIVE_INDEX_FUNC_MIN {
            return self.env.call_internal_function(outer, index);
        }
        match self.native_function_name(index) {
            Some(name) => self.executor.execute(name, outer),
            None => Err(Error::Native(NativeError::MissingFunction(index))),
        }
    }
}

/// Wrap `env` with the native functions of `user_functions`.
pub fn env_native_module<M: ModuleInstanceInterface, E: UserFunctionExecutor>(
    env: Arc<M>,
    user_functions: UserFunctions<E>,
) -> (r: Result<NativeModuleInstance<M, E>, Error>)
    requires
        user_functions.functions@.len() <= u32::MAX - NATIVE_INDEX_FUNC_MIN,
    ensures
        r matches Ok(m) && m.base() == *env && m.descriptors() == user_functions.functions@,
{
    NativeModuleInstance::new(env, user_functions)
}

} // verus!

verus! {

/// At a composite index, a signature lookup succeeds exactly when the offset
/// names a registered descriptor, and a call is known to fail exactly when it
/// does not; both failures are native errors naming the index.
pub proof fn lemma_composite_index_resolution<M: ModuleInstanceInterface, E: UserFunctionExecutor>(
    m: NativeModuleInstance<M, E>,
    i: u32,
)
    requires
        i >= NATIVE_INDEX_FUNC_MIN,
    ensures
        m.spec_function_type(ItemIndex::Internal(i)) is Ok <==> i - NATIVE_INDEX_FUNC_MIN
            < m.descriptors().len(),
        m.spec_function_type(ItemIndex::IndexSpace(i)) is Ok <==> i - NATIVE_INDEX_FUNC_MIN
            < m.descriptors().len(),
        m.spec_call_failure(i) is None <==> i - NATIVE_INDEX_FUNC_MIN < m.descriptors().len(),
        i - NATIVE_INDEX_FUNC_MIN >= m.descriptors().len() ==> m.spec_function_type(
            ItemIndex::Internal(i),
        ) == Err::<FunctionSignature, Error>(Error::Native(NativeError::MissingFunctionType(i)))
            && m.spec_call_failure(i) == Some(Error::Native(NativeError::MissingFunction(i))),
{
}

/// Below the composite base, signature lookup and the failures of calls are
/// those of the base instance.
pub proof fn lemma_below_base_delegates<M: ModuleInstanceInterface, E: UserFunctionExecutor>(
    m: NativeModuleInstance<M, E>,
    index: ItemIndex,
)
    requires
        index_number(index) < NATIVE_INDEX_FUNC_MIN,
    ensures
        m.spec_function_type(index) == m.base().spec_function_type(index),
        m.spec_call_failure(index_number(index)) == m.base().spec_call_failure(
            index_number(index),
        ),
{
}

/// Resolving a name as a function of signature `sig` yields the composite
/// index of the name's last registration when that descriptor's signature is
/// `sig`, and otherwise exactly what the base instance yields.
pub proof fn lemma_export_entry_shadowing<M: ModuleInstanceInterface, E: UserFunctionExecutor>(
    m: NativeModuleInstance<M, E>,
    name: Seq<char>,
    sig: FunctionSignature<'_>,
)
    ensures
        ({
            let r = m.spec_export_entry(name, ExportEntryType::Function(sig));
            match last_position(m.descriptors(), name) {
                Some(p) => if same_signature(FunctionSignature::User(&m.descriptors()[p]), sig) {
                    r == Ok::<Internal, Error>(Internal::Function((NATIVE_INDEX_FUNC_MIN + p) as u32))
                } else {
                    r == m.base().spec_export_entry(name, ExportEntryType::Function(sig))
                },
                None => r == m.base().spec_export_entry(name, ExportEntryType::Function(sig)),
            }
        }),
{
}

/// Lookup by type index, and the table, memory and global handles, are the
/// base instance's, at every index.
pub proof fn lemma_lookups_delegate<M: ModuleInstanceInterface, E: UserFunctionExecutor>(
    m: NativeModuleInstance<M, E>,
    index: ItemIndex,
    type_index: u32,
    value_type: Option<ValueType>,
)
    ensures
        m.spec_function_type_by_index(type_index) == m.base().spec_function_type_by_index(
            type_index,
        ),
        m.spec_table(index) == m.base().spec_table(index),
        m.spec_memory(index) == m.base().spec_memory(index),
        m.spec_global(index, value_type) == m.base().spec_global(index, value_type),
{
}

/// Where the base never resolves a name to a function at a composite index,
/// resolving `name` as a function of `required_type` gives a composite index
/// exactly when the name is registered with that signature, and the index is
/// then the base plus the position of the name's last registration.
pub proof fn lemma_export_entry_composite_iff<M: ModuleInstanceInterface, E: UserFunctionExecutor>(
    m: NativeModuleInstance<M, E>,
    name: Seq<char>,
    required_type: ExportEntryType<'_>,
)
    requires
        m.descriptors().len() <= u32::MAX - NATIVE_INDEX_FUNC_MIN,
        !(m.base().spec_export_entry(name, required_type) matches Ok(Internal::Function(j))
            && j >= NATIVE_INDEX_FUNC_MIN),
    ensures
        (m.spec_export_entry(name, required_type) matches Ok(Internal::Function(j)) && j
            >= NATIVE_INDEX_FUNC_MIN) <==> (required_type matches ExportEntryType::Function(sig)
            && last_position(m.descriptors(), name) matches Some(p) && same_signature(
            FunctionSignature::User(&m.descriptors()[p]),
            sig,
        )),
        ({
            let r = m.spec_export_entry(name, required_type);
            r is Ok && r->Ok_0 is Function && r->Ok_0->Function_0 >= NATIVE_INDEX_FUNC_MIN ==> (
            last_position(m.descriptors(), name) matches Some(p) && r->Ok_0->Function_0
                == NATIVE_INDEX_FUNC_MIN + p)
        }),
{
    lemma_last_position_valid(m.descriptors(), name);
}

/// Export resolution for anything but a function goes to the base instance.
pub proof fn lemma_non_function_exports_delegate<M: ModuleInstanceInterface, E: UserFunctionExecutor>(
    m: NativeModuleInstance<M, E>,
    name: Seq<char>,
    required_type: ExportEntryType<'_>,
)
    requires
        !(required_type is Function),
    ensures
        m.spec_export_entry(name, required_type) == m.base().spec_export_entry(name, required_type),
{
}

/// A bridge with no registered functions resolves every export, every
/// signature and type index, every table and memory, and every known call
/// failure below the composite base, as its base does. (Only `function_body`
/// differs: the bridge never hands out a body.)
pub proof fn lemma_empty_bridge_matches_base<M: ModuleInstanceInterface, E: UserFunctionExecutor>(
    m: NativeModuleInstance<M, E>,
    name: Seq<char>,
    required_type: ExportEntryType<'_>,
    index: ItemIndex,
)
    requires
        m.descriptors().len() == 0,
        index_number(index) < NATIVE_INDEX_FUNC_MIN,
    ensures
        m.spec_export_entry(name, required_type) == m.base().spec_export_entry(name, required_type),
        m.spec_function_type(index) == m.base().spec_function_type(index),
        m.spec_call_failure(index_number(index)) == m.base().spec_call_failure(
            index_number(index),
        ),
        m.spec_function_type_by_index(index_number(index)) == m.base().spec_function_type_by_index(
            index_number(index),
        ),
        m.spec_table(index) == m.base().spec_table(index),
        m.spec_memory(index) == m.base().spec_memory(index),
{
    assert(last_position(m.descriptors(), name) is None);
}

} // verus!
