use std::sync::Arc;

use wasm_native::declared::{DeclaredModule, Export};
use wasm_native::descriptor::UserFunctionDescriptor;
use wasm_native::error::{Error, NativeError, ResolutionError};
use wasm_native::module::{
    CallerContext, ExportEntryType, FunctionSignature, FunctionType, Internal, ItemIndex,
    ModuleInstanceInterface,
};
use wasm_native::native::{
    env_native_module, NativeModuleInstance, UserFunctionExecutor, UserFunctions,
    NATIVE_INDEX_FUNC_MIN,
};
use wasm_native::value::{RuntimeValue, ValueType};

const I32_PAIR: &[ValueType] = &[ValueType::I32, ValueType::I32];

struct Recorder {
    calls: Vec<String>,
}

impl UserFunctionExecutor for Recorder {
    fn execute(
        &mut self,
        name: &str,
        context: CallerContext,
    ) -> Result<Option<RuntimeValue>, Error> {
        self.calls.push(name.to_string());
        match name {
            "sum" => {
                let mut total: i32 = 0;
                for v in context.value_stack {
                    if let RuntimeValue::I32(x) = v {
                        total = total.wrapping_add(x);
                    }
                }
                Ok(Some(RuntimeValue::I32(total)))
            }
            "fail" => Err(Error::Trap("host failure".to_string())),
            _ => Ok(None),
        }
    }
}

fn base() -> DeclaredModule {
    DeclaredModule {
        functions: vec![
            FunctionType { params: vec![ValueType::I32], return_type: Some(ValueType::I32) },
            FunctionType { params: vec![], return_type: None },
        ],
        exports: vec![
            Export { name: "inc".to_string(), internal: Internal::Function(0) },
            Export { name: "sum".to_string(), internal: Internal::Function(1) },
            Export { name: "g".to_string(), internal: Internal::Global(0) },
        ],
    }
}

fn bridge(functions: Vec<UserFunctionDescriptor>) -> NativeModuleInstance<DeclaredModule, Recorder> {
    env_native_module(
        Arc::new(base()),
        UserFunctions { functions, executor: Recorder { calls: vec![] } },
    )
    .unwrap()
}

fn sum_descriptor() -> UserFunctionDescriptor {
    UserFunctionDescriptor::statik("sum", I32_PAIR, Some(ValueType::I32))
}

#[test]
fn descriptor_accessors() {
    let s = sum_descriptor();
    assert_eq!(s.name(), "sum");
    assert_eq!(s.params(), &[ValueType::I32, ValueType::I32]);
    assert_eq!(s.return_type(), Some(ValueType::I32));
    let h = UserFunctionDescriptor::heap("h".to_string(), vec![ValueType::F64], None);
    assert_eq!(h.name(), "h");
    assert_eq!(h.params(), &[ValueType::F64]);
    assert_eq!(h.return_type(), None);
}

#[test]
fn descriptor_equality_ignores_name() {
    let a = UserFunctionDescriptor::statik("a", I32_PAIR, Some(ValueType::I32));
    let b = UserFunctionDescriptor::heap(
        "b".to_string(),
        vec![ValueType::I32, ValueType::I32],
        Some(ValueType::I32),
    );
    assert!(a == b);
    let c = UserFunctionDescriptor::heap("a".to_string(), vec![ValueType::I32], Some(ValueType::I32));
    assert!(a != c);
    let d = UserFunctionDescriptor::heap(
        "a".to_string(),
        vec![ValueType::I32, ValueType::I32],
        Some(ValueType::I64),
    );
    assert!(a != d);
    let e = UserFunctionDescriptor::heap("a".to_string(), vec![ValueType::I32, ValueType::I32], None);
    assert!(a != e);
}

#[test]
fn function_type_at_composite_index() {
    let m = bridge(vec![sum_descriptor()]);
    match m.function_type(ItemIndex::Internal(NATIVE_INDEX_FUNC_MIN)) {
        Ok(FunctionSignature::User(d)) => assert_eq!(d.name(), "sum"),
        _ => panic!("expected the native descriptor"),
    }
    match m.function_type(ItemIndex::Internal(NATIVE_INDEX_FUNC_MIN + 1)) {
        Err(Error::Native(NativeError::MissingFunctionType(i))) => {
            assert_eq!(i, NATIVE_INDEX_FUNC_MIN + 1)
        }
        _ => panic!("expected a native error"),
    }
}

#[test]
fn function_type_by_index_delegates() {
    let m = bridge(vec![sum_descriptor()]);
    match m.function_type_by_index(NATIVE_INDEX_FUNC_MIN) {
        Err(Error::Resolution(ResolutionError::MissingFunction(i))) => {
            assert_eq!(i, NATIVE_INDEX_FUNC_MIN)
        }
        _ => panic!("expected the base's answer"),
    }
    match m.function_type_by_index(0) {
        Ok(FunctionSignature::Module(t)) => assert_eq!(t.params, vec![ValueType::I32]),
        _ => panic!("expected the base signature"),
    }
}

#[test]
fn native_function_names() {
    let m = bridge(vec![sum_descriptor(), UserFunctionDescriptor::statik("other", &[], None)]);
    assert_eq!(m.descriptor_count(), 2);
    assert_eq!(m.native_function_name(NATIVE_INDEX_FUNC_MIN), Some("sum"));
    assert_eq!(m.native_function_name(NATIVE_INDEX_FUNC_MIN + 1), Some("other"));
    assert_eq!(m.native_function_name(NATIVE_INDEX_FUNC_MIN + 2), None);
    assert_eq!(m.native_function_name(0), None);
}

#[test]
fn function_type_below_base_delegates() {
    let m = bridge(vec![sum_descriptor()]);
    match m.function_type(ItemIndex::Internal(0)) {
        Ok(FunctionSignature::Module(t)) => assert_eq!(t.params, vec![ValueType::I32]),
        _ => panic!("expected the base signature"),
    }
    match m.function_type(ItemIndex::IndexSpace(5)) {
        Err(Error::Resolution(ResolutionError::MissingFunction(5))) => {}
        _ => panic!("expected the base error"),
    }
}

#[test]
fn call_native_function() {
    let m = bridge(vec![sum_descriptor()]);
    let ctx = CallerContext { value_stack: vec![RuntimeValue::I32(2), RuntimeValue::I32(40)] };
    let r = m.call_internal_function(ctx, NATIVE_INDEX_FUNC_MIN);
    assert!(matches!(r, Ok(Some(RuntimeValue::I32(42)))));
}

#[test]
fn call_missing_native_function() {
    let m = bridge(vec![sum_descriptor()]);
    let ctx = CallerContext { value_stack: vec![] };
    let r = m.call_internal_function(ctx, NATIVE_INDEX_FUNC_MIN + 3);
    match r {
        Err(Error::Native(NativeError::MissingFunction(i))) => assert_eq!(i, NATIVE_INDEX_FUNC_MIN + 3),
        _ => panic!("expected a native error"),
    }
}

#[test]
fn call_host_failure_propagates() {
    let m = bridge(vec![UserFunctionDescriptor::statik("fail", &[], None)]);
    let r = m.call_internal_function(CallerContext { value_stack: vec![] }, NATIVE_INDEX_FUNC_MIN);
    assert!(matches!(r, Err(Error::Trap(_))));
}

#[test]
fn call_below_base_delegates() {
    let m = bridge(vec![sum_descriptor()]);
    let r = m.call_internal_function(CallerContext { value_stack: vec![] }, 1);
    assert!(matches!(r, Err(Error::Resolution(ResolutionError::MissingFunction(1)))));
}

#[test]
fn export_entry_shadows_matching_signature() {
    let m = bridge(vec![sum_descriptor()]);
    let t = FunctionType { params: vec![ValueType::I32, ValueType::I32], return_type: Some(ValueType::I32) };
    let r = m.export_entry("sum", &ExportEntryType::Function(FunctionSignature::Module(&t)));
    assert!(matches!(r, Ok(Internal::Function(i)) if i == NATIVE_INDEX_FUNC_MIN));
}

#[test]
fn export_entry_signature_mismatch_falls_through() {
    let m = bridge(vec![sum_descriptor()]);
    let t = FunctionType { params: vec![], return_type: None };
    let r = m.export_entry("sum", &ExportEntryType::Function(FunctionSignature::Module(&t)));
    assert!(matches!(r, Ok(Internal::Function(1))));
    let r = m.export_entry("sum", &ExportEntryType::Any);
    assert!(matches!(r, Ok(Internal::Function(1))));
}

#[test]
fn export_entry_unregistered_name_falls_through() {
    let m = bridge(vec![sum_descriptor()]);
    let t = FunctionType { params: vec![ValueType::I32], return_type: Some(ValueType::I32) };
    let r = m.export_entry("inc", &ExportEntryType::Function(FunctionSignature::Module(&t)));
    assert!(matches!(r, Ok(Internal::Function(0))));
    let r = m.export_entry("nope", &ExportEntryType::Any);
    assert!(matches!(r, Err(Error::Resolution(ResolutionError::MissingExport))));
}

#[test]
fn export_entry_last_registration_wins() {
    let first = UserFunctionDescriptor::heap("dup".to_string(), vec![], None);
    let second = UserFunctionDescriptor::heap("dup".to_string(), vec![ValueType::I64], None);
    let m = bridge(vec![first, second]);
    let t = FunctionType { params: vec![ValueType::I64], return_type: None };
    let r = m.export_entry("dup", &ExportEntryType::Function(FunctionSignature::Module(&t)));
    assert!(matches!(r, Ok(Internal::Function(i)) if i == NATIVE_INDEX_FUNC_MIN + 1));
    let t0 = FunctionType { params: vec![], return_type: None };
    let r = m.export_entry("dup", &ExportEntryType::Function(FunctionSignature::Module(&t0)));
    assert!(matches!(r, Err(Error::Resolution(ResolutionError::MissingExport))));
}

#[test]
fn empty_bridge_matches_base() {
    let m = bridge(vec![]);
    let b = base();
    let t = FunctionType { params: vec![ValueType::I32], return_type: Some(ValueType::I32) };
    for name in ["inc", "sum", "g", "zzz"] {
        for req in [
            ExportEntryType::Any,
            ExportEntryType::Global(ValueType::I32),
            ExportEntryType::Function(FunctionSignature::Module(&t)),
        ] {
            let x = format!("{:?}", m.export_entry(name, &req));
            let y = format!("{:?}", b.export_entry(name, &req));
            assert_eq!(x, y);
        }
    }
    for i in [0u32, 1, 2, 100] {
        let x = format!("{:?}", m.function_type(ItemIndex::Internal(i)));
        let y = format!("{:?}", b.function_type(ItemIndex::Internal(i)));
        assert_eq!(x, y);
    }
}

#[test]
fn function_body_is_always_none() {
    let m = bridge(vec![sum_descriptor()]);
    assert!(matches!(m.function_body(0), Ok(None)));
    assert!(matches!(m.function_body(NATIVE_INDEX_FUNC_MIN), Ok(None)));
}

#[test]
fn resources_delegate() {
    let m = bridge(vec![sum_descriptor()]);
    assert!(matches!(m.table(ItemIndex::Internal(0)), Err(Error::Resolution(ResolutionError::MissingItem(0)))));
    assert!(matches!(m.memory(ItemIndex::Internal(1)), Err(Error::Resolution(ResolutionError::MissingItem(1)))));
    assert!(matches!(
        m.global(ItemIndex::Internal(2), None),
        Err(Error::Resolution(ResolutionError::MissingItem(2)))
    ));
    assert!(matches!(
        m.execute_index(0, vec![]),
        Err(Error::Resolution(ResolutionError::MissingFunction(0)))
    ));
    assert!(matches!(
        m.execute_export("inc", vec![]),
        Err(Error::Resolution(ResolutionError::MissingFunction(0)))
    ));
}

#[test]
fn borrowed_executor_runs_each_call_in_turn() {
    let mut recorder = Recorder { calls: vec![] };
    {
        let m = env_native_module(
            Arc::new(base()),
            UserFunctions {
                functions: vec![sum_descriptor(), UserFunctionDescriptor::statik("other", &[], None)],
                executor: &mut recorder,
            },
        )
        .unwrap();
        let one = CallerContext { value_stack: vec![RuntimeValue::I32(1)] };
        assert!(matches!(m.call_internal_function(one, NATIVE_INDEX_FUNC_MIN), Ok(Some(RuntimeValue::I32(1)))));
        let none = CallerContext { value_stack: vec![] };
        assert!(matches!(m.call_internal_function(none, NATIVE_INDEX_FUNC_MIN + 1), Ok(None)));
    }
    assert_eq!(recorder.calls, vec!["sum".to_string(), "other".to_string()]);
}
