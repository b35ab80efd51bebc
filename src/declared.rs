use vstd::prelude::*;
use std::sync::Arc;
use crate::error::{Error, ResolutionError};
use crate::module::{
    index_number, index_value, same_signature, CallerContext, ExportEntryType, FunctionBody,
    FunctionSignature, FunctionType, Internal, ItemIndex, MemoryInstance, ModuleInstanceInterface,
    TableInstance, VariableInstance,
};
use crate::text::str_equal;
use crate::value::{RuntimeValue, ValueType};

verus! {

/// A named export of a module.
#[derive(Debug, Clone)]
pub struct Export {
    pub name: String,
    pub internal: Internal,
}

/// Position of the last export named `name`.
pub open spec fn export_position(exports: Seq<Export>, name: Seq<char>) -> Option<int>
    decreases exports.len(),
{
    if exports.len() == 0 {
        None
    } else if exports.last().name@ == name {
        Some(exports.len() - 1)
    } else {
        export_position(exports.drop_last(), name)
    }
}

proof fn lemma_export_position_valid(exports: Seq<Export>, name: Seq<char>)
    ensures
        export_position(exports, name) matches Some(p) ==> 0 <= p < exports.len(),
    decreases exports.len(),
{
    if exports.len() > 0 && exports.last().name@ != name {
        lemma_export_position_valid(exports.drop_last(), name);
    }
}

/// A module instance made of declarations only: function signatures and
/// exports, with no bytecode bodies, tables, memories or globals. It resolves
/// names and signatures; every call of one of its functions fails, and so
/// does every request for a table, memory or global.
pub struct DeclaredModule {
    pub functions: Vec<FunctionType>,
    pub exports: Vec<Export>,
}

impl DeclaredModule {
    /// Position of the last export named `name`.
    fn find_export(&self, name: &str) -> (r: Option<usize>)
        ensures
            r matches Some(p) ==> export_position(self.exports@, name@) == Some(p as int)
                && p < self.exports@.len(),
            r is None ==> export_position(self.exports@, name@) is None,
    {
        let mut i: usize = self.exports.len();
        assert(self.exports@.subrange(0, i as int) =~= self.exports@);
        while i > 0
            invariant
                i <= self.exports@.len(),
                export_position(self.exports@, name@) == export_position(
                    self.exports@.subrange(0, i as int),
                    name@,
                ),
            decreases i,
        {
            proof {
                lemma_export_position_valid(self.exports@, name@);
            }
            if str_equal(self.exports[i - 1].name.as_str(), name) {
                return Some(i - 1);
            }
            assert(self.exports@.subrange(0, i as int).drop_last() =~= self.exports@.subrange(
                0,
                i - 1,
            ));
            i = i - 1;
        }
        None
    }
}

/// Whether `internal` has the shape `required_type` asks for in `m`.
pub open spec fn export_fits(m: DeclaredModule, internal: Internal, required_type: ExportEntryType<'_>) -> bool {
    match required_type {
        ExportEntryType::Function(sig) => match internal {
            Internal::Function(i) => i < m.functions@.len() && same_signature(
                FunctionSignature::Module(&m.functions@[i as int]),
                sig,
            ),
            _ => false,
        },
        ExportEntryType::Global(_) => internal is Global,
        ExportEntryType::Any => true,
    }
}

impl ModuleInstanceInterface for DeclaredModule {
    open spec fn spec_export_entry(&self, name: Seq<char>, required_type: ExportEntryType<'_>) -> Result<
        Internal,
        Error,
    > {
        match export_position(self.exports@, name) {
            None => Err(Error::Resolution(ResolutionError::MissingExport)),
            Some(p) => if export_fits(*self, self.exports@[p].internal, required_type) {
                Ok(self.exports@[p].internal)
            } else {
                Err(Error::Resolution(ResolutionError::ExportMismatch))
            },
        }
    }

    open spec fn spec_function_type<'a>(&'a self, index: ItemIndex) -> Result<
        FunctionSignature<'a>,
        Error,
    > {
        let i = index_number(index);
        if i < self.functions@.len() {
            Ok(FunctionSignature::Module(&self.functions@[i as int]))
        } else {
            Err(Error::Resolution(ResolutionError::MissingFunction(i)))
        }
    }

    open spec fn spec_function_type_by_index<'a>(&'a self, type_index: u32) -> Result<
        FunctionSignature<'a>,
        Error,
    > {
        self.spec_function_type(ItemIndex::Internal(type_index))
    }

    open spec fn spec_table(&self, index: ItemIndex) -> Result<Arc<TableInstance>, Error> {
        Err(Error::Resolution(ResolutionError::MissingItem(index_number(index))))
    }

    open spec fn spec_memory(&self, index: ItemIndex) -> Result<Arc<MemoryInstance>, Error> {
        Err(Error::Resolution(ResolutionError::MissingItem(index_number(index))))
    }

    open spec fn spec_global(&self, index: ItemIndex, value_type: Option<ValueType>) -> Result<
        Arc<VariableInstance>,
        Error,
    > {
        Err(Error::Resolution(ResolutionError::MissingItem(index_number(index))))
    }

    open spec fn spec_function_body(&self, index: u32) -> Result<Option<FunctionBody>, Error> {
        Ok(None)
    }

    open spec fn spec_call_failure(&self, index: u32) -> Option<Error> {
        Some(Error::Resolution(ResolutionError::MissingFunction(index)))
    }

    fn execute_index(&self, index: u32, params: Vec<RuntimeValue>) -> Result<
        Option<RuntimeValue>,
        Error,
    > {
        Err(Error::Resolution(ResolutionError::MissingFunction(index)))
    }

    fn execute_export(&self, name: &str, params: Vec<RuntimeValue>) -> Result<
        Option<RuntimeValue>,
        Error,
    > {
        match self.find_export(name) {
            Some(p) => match self.exports[p].internal {
                Internal::Function(i) => Err(Error::Resolution(ResolutionError::MissingFunction(i))),
                _ => Err(Error::Resolution(ResolutionError::ExportMismatch)),
            },
            None => Err(Error::Resolution(ResolutionError::MissingExport)),
        }
    }

    fn export_entry(&self, name: &str, required_type: &ExportEntryType<'_>) -> (r: Result<
        Internal,
        Error,
    >) {
        let p = match self.find_export(name) {
            Some(p) => p,
            None => {
                return Err(Error::Resolution(ResolutionError::MissingExport));
            },
        };
        proof {
            lemma_export_position_valid(self.exports@, name@);
        }
        let internal = self.exports[p].internal;
        let fits = match required_type {
            ExportEntryType::Function(sig) => match internal {
                Internal::Function(i) => (i as usize) < self.functions.len()
                    && FunctionSignature::Module(&self.functions[i as usize]) == *sig,
                _ => false,
            },
            ExportEntryType::Global(_) => match internal {
                Internal::Global(_) => true,
                _ => false,
            },
            ExportEntryType::Any => true,
        };
        if fits {
            Ok(internal)
        } else {
            Err(Error::Resolution(ResolutionError::ExportMismatch))
        }
    }

    fn table(&self, index: ItemIndex) -> (r: Result<Arc<TableInstance>, Error>) {
        Err(Error::Resolution(ResolutionError::MissingItem(index_value(index))))
    }

    fn memory(&self, index: ItemIndex) -> (r: Result<Arc<MemoryInstance>, Error>) {
        Err(Error::Resolution(ResolutionError::MissingItem(index_value(index))))
    }

    fn global(&self, index: ItemIndex, value_type: Option<ValueType>) -> (r: Result<
        Arc<VariableInstance>,
        Error,
    >) {
        Err(Error::Resolution(ResolutionError::MissingItem(index_value(index))))
    }

    fn function_type<'a>(&'a self, index: ItemIndex) -> (r: Result<FunctionSignature<'a>, Error>) {
        let i = index_value(index);
        if (i as usize) < self.functions.len() {
            Ok(FunctionSignature::Module(&self.functions[i as usize]))
        } else {
            Err(Error::Resolution(ResolutionError::MissingFunction(i)))
        }
    }

    fn function_type_by_index<'a>(&'a self, type_index: u32) -> (r: Result<
        FunctionSignature<'a>,
        Error,
    >) {
        self.function_type(ItemIndex::Internal(type_index))
    }

    fn function_body(&self, index: u32) -> (r: Result<Option<FunctionBody>, Error>) {
        Ok(None)
    }

    fn call_internal_function(&self, outer: CallerContext, index: u32) -> (r: Result<
        Option<RuntimeValue>,
        Error,
    >) {
        Err(Error::Resolution(ResolutionError::MissingFunction(index)))
    }
}

} // verus!
