use vstd::prelude::*;
use crate::value::ValueType;

verus! {

/// Signature and name of a host-implemented function.
#[derive(Debug, Clone)]
pub enum UserFunctionDescriptor {
    /// A function whose name and parameters are known at compile time.
    Static(&'static str, &'static [ValueType], Option<ValueType>),
    /// A function registered at run time.
    Heap(String, Vec<ValueType>, Option<ValueType>),
}

impl UserFunctionDescriptor {
    pub open spec fn spec_name(&self) -> Seq<char> {
        match self {
            UserFunctionDescriptor::Static(name, _, _) => name@,
            UserFunctionDescriptor::Heap(name, _, _) => name@,
        }
    }

    pub open spec fn spec_params(&self) -> Seq<ValueType> {
        match self {
            UserFunctionDescriptor::Static(_, params, _) => params@,
            UserFunctionDescriptor::Heap(_, params, _) => params@,
        }
    }

    pub open spec fn spec_return_type(&self) -> Option<ValueType> {
        match self {
            UserFunctionDescriptor::Static(_, _, result) => *result,
            UserFunctionDescriptor::Heap(_, _, result) => *result,
        }
    }

    /// New function with statically known parameters.
    pub fn statik(
        name: &'static str,
        params: &'static [ValueType],
        result: Option<ValueType>,
    ) -> (r: Self)
        ensures
            r == UserFunctionDescriptor::Static(name, params, result),
    {
        UserFunctionDescriptor::Static(name, params, result)
    }

    /// New function with parameters known only at run time.
    pub fn heap(name: String, params: Vec<ValueType>, result: Option<ValueType>) -> (r: Self)
        ensures
            r == UserFunctionDescriptor::Heap(name, params, result),
    {
        UserFunctionDescriptor::Heap(name, params, result)
    }

    /// Name of the function.
    pub fn name(&self) -> (r: &str)
        ensures
            r@ == self.spec_name(),
    {
        match self {
            UserFunctionDescriptor::Static(name, _, _) => name,
            UserFunctionDescriptor::Heap(name, _, _) => name.as_str(),
        }
    }

    /// Parameter types of the function.
    pub fn params(&self) -> (r: &[ValueType])
        ensures
            r@ == self.spec_params(),
    {
        match self {
            UserFunctionDescriptor::Static(_, params, _) => params,
            UserFunctionDescriptor::Heap(_, params, _) => params.as_slice(),
        }
    }

    /// Return type of the function, if it returns a value.
    pub fn return_type(&self) -> (r: Option<ValueType>)
        ensures
            r == self.spec_return_type(),
    {
        match self {
            UserFunctionDescriptor::Static(_, _, result) => *result,
            UserFunctionDescriptor::Heap(_, _, result) => *result,
        }
    }
}

/// Whether two parameter lists hold the same types in the same order.
pub fn same_types(a: &[ValueType], b: &[ValueType]) -> (r: bool)
    ensures
        r == (a@ == b@),
{
    if a.len() != b.len() {
        return false;
    }
    let mut i: usize = 0;
    while i < a.len()
        invariant
            a@.len() == b@.len(),
            i <= a@.len(),
            forall|j: int| 0 <= j < i ==> a@[j] == b@[j],
        decreases a@.len() - i,
    {
        if a[i] != b[i] {
            return false;
        }
        i = i + 1;
    }
    assert(a@ =~= b@);
    true
}

/// Descriptors are equal when their signatures are: the name is ignored.
impl PartialEq for UserFunctionDescriptor {
    fn eq(&self, other: &Self) -> (r: bool)
        ensures
            r == (self.spec_params() == other.spec_params() && self.spec_return_type()
                == other.spec_return_type()),
    {
        same_types(self.params(), other.params()) && self.return_type() == other.return_type()
    }
}

impl vstd::std_specs::cmp::PartialEqSpecImpl for UserFunctionDescriptor {
    open spec fn obeys_eq_spec() -> bool {
        true
    }

    open spec fn eq_spec(&self, other: &Self) -> bool {
        self.spec_params() == other.spec_params() && self.spec_return_type()
            == other.spec_return_type()
    }
}

} // verus!
