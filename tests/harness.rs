use wasm_native::declared::{DeclaredModule, Export};
use wasm_native::error::{Error, ResolutionError};
use wasm_native::harness::{
    check_return, check_trap, first_module, run_action, run_command, runtime_value,
    runtime_values, Action, Command, HarnessError, Literal,
};
use wasm_native::module::{FunctionType, Internal};
use wasm_native::value::{RuntimeValue, ValueType};

fn lit(ty: &str, v: &str) -> Literal {
    Literal { value_type: ty.to_string(), value: v.to_string() }
}

fn module() -> DeclaredModule {
    DeclaredModule {
        functions: vec![FunctionType {
            params: vec![ValueType::I32, ValueType::I32],
            return_type: Some(ValueType::I32),
        }],
        exports: vec![Export { name: "div".to_string(), internal: Internal::Function(0) }],
    }
}

fn invoke(field: &str, args: Vec<Literal>) -> Action {
    Action::Invoke { field: field.to_string(), args }
}

#[test]
fn decode_i32_literals() {
    assert_eq!(runtime_value(&lit("i32", "3")).unwrap(), RuntimeValue::I32(3));
    assert_eq!(runtime_value(&lit("i32", "4294967295")).unwrap(), RuntimeValue::I32(-1));
    assert_eq!(runtime_value(&lit("i32", "2147483648")).unwrap(), RuntimeValue::I32(i32::MIN));
    assert_eq!(runtime_value(&lit("i32", "2147483647")).unwrap(), RuntimeValue::I32(i32::MAX));
    assert_eq!(runtime_value(&lit("i32", "+7")).unwrap(), RuntimeValue::I32(7));
}

#[test]
fn decode_i64_literals() {
    assert_eq!(
        runtime_value(&lit("i64", "18446744073709551615")).unwrap(),
        RuntimeValue::I64(-1)
    );
    assert_eq!(
        runtime_value(&lit("i64", "9223372036854775808")).unwrap(),
        RuntimeValue::I64(i64::MIN)
    );
    assert_eq!(runtime_value(&lit("i64", "0")).unwrap(), RuntimeValue::I64(0));
}

#[test]
fn decode_float_literals_keep_bits() {
    assert_eq!(runtime_value(&lit("f32", "2143289344")).unwrap(), RuntimeValue::F32(0x7fc0_0000));
    assert_eq!(runtime_value(&lit("f32", "2147483648")).unwrap(), RuntimeValue::F32(0x8000_0000));
    assert_eq!(
        runtime_value(&lit("f64", "9221120237041090560")).unwrap(),
        RuntimeValue::F64(0x7ff8_0000_0000_0000)
    );
    assert_eq!(RuntimeValue::decode_f32(0x3f80_0000), RuntimeValue::F32(1.0f32.to_bits()));
    assert_eq!(RuntimeValue::decode_f64(0x4000_0000_0000_0000), RuntimeValue::F64(2.0f64.to_bits()));
}

#[test]
fn decode_rejects_bad_literals() {
    assert!(matches!(runtime_value(&lit("i32", "4294967296")), Err(HarnessError::InvalidLiteral)));
    assert!(matches!(runtime_value(&lit("i32", "-1")), Err(HarnessError::InvalidLiteral)));
    assert!(matches!(runtime_value(&lit("i32", "")), Err(HarnessError::InvalidLiteral)));
    assert!(matches!(runtime_value(&lit("i32", "+")), Err(HarnessError::InvalidLiteral)));
    assert!(matches!(runtime_value(&lit("f32", "1.5")), Err(HarnessError::InvalidLiteral)));
    assert!(matches!(
        runtime_value(&lit("i64", "18446744073709551616")),
        Err(HarnessError::InvalidLiteral)
    ));
    assert!(matches!(runtime_value(&lit("v128", "0")), Err(HarnessError::UnknownValueType)));
}

#[test]
fn decode_literal_lists() {
    let vs = runtime_values(&vec![lit("i32", "1"), lit("i64", "2"), lit("f32", "0")]).unwrap();
    assert_eq!(vs, vec![RuntimeValue::I32(1), RuntimeValue::I64(2), RuntimeValue::F32(0)]);
    assert!(runtime_values(&vec![]).unwrap().is_empty());
    assert!(matches!(
        runtime_values(&vec![lit("i32", "1"), lit("x", "2"), lit("i32", "z")]),
        Err(HarnessError::UnknownValueType)
    ));
}

#[test]
fn assert_return_scenario_add() {
    let args = runtime_values(&vec![lit("i32", "1"), lit("i32", "2")]).unwrap();
    assert_eq!(args, vec![RuntimeValue::I32(1), RuntimeValue::I32(2)]);
    let expected = runtime_values(&vec![lit("i32", "3")]).unwrap();
    assert!(check_return(3, Ok(Some(RuntimeValue::I32(3))), &expected).is_ok());
    assert!(matches!(
        check_return(3, Ok(Some(RuntimeValue::I32(4))), &expected),
        Err(HarnessError::ReturnMismatch { line: 3 })
    ));
}

#[test]
fn assert_return_counts_values() {
    assert!(check_return(1, Ok(None), &vec![]).is_ok());
    assert!(matches!(
        check_return(1, Ok(Some(RuntimeValue::I32(0))), &vec![]),
        Err(HarnessError::ReturnMismatch { line: 1 })
    ));
    assert!(matches!(
        check_return(2, Ok(None), &vec![RuntimeValue::I32(0)]),
        Err(HarnessError::ReturnMismatch { line: 2 })
    ));
    assert!(matches!(
        check_return(
            4,
            Ok(Some(RuntimeValue::I32(0))),
            &vec![RuntimeValue::I32(0), RuntimeValue::I32(0)]
        ),
        Err(HarnessError::ReturnMismatch { line: 4 })
    ));
    assert!(matches!(
        check_return(5, Err(Error::Trap("boom".to_string())), &vec![]),
        Err(HarnessError::UnexpectedError { line: 5, .. })
    ));
}

#[test]
fn assert_return_nan_bits_exact() {
    let expected = runtime_values(&vec![lit("f32", "2143289344")]).unwrap();
    assert!(check_return(9, Ok(Some(RuntimeValue::F32(0x7fc0_0000))), &expected).is_ok());
    assert!(matches!(
        check_return(9, Ok(Some(RuntimeValue::F32(0x7fc0_0001))), &expected),
        Err(HarnessError::ReturnMismatch { line: 9 })
    ));
    assert!(matches!(
        check_return(9, Ok(Some(RuntimeValue::F32(0xffc0_0000))), &expected),
        Err(HarnessError::ReturnMismatch { line: 9 })
    ));
}

#[test]
fn assert_trap_scenario_div() {
    let m = module();
    let action = invoke("div", vec![lit("i32", "10"), lit("i32", "0")]);
    let outcome = run_action(&m, &action).unwrap();
    assert!(outcome.is_err());
    assert!(check_trap(7, outcome).is_ok());
    assert!(matches!(
        check_trap(7, Ok(Some(RuntimeValue::I32(1)))),
        Err(HarnessError::UnexpectedReturn { line: 7, result: Some(RuntimeValue::I32(1)) })
    ));
    let cmd = Command::AssertTrap { line: 7, action };
    assert!(matches!(run_command(&m, &cmd), Ok(None)));
}

#[test]
fn run_action_reports_bad_arguments() {
    let m = module();
    let action = invoke("div", vec![lit("f16", "1")]);
    assert!(matches!(run_action(&m, &action), Err(HarnessError::UnknownValueType)));
}

#[test]
fn run_command_assert_return_on_failing_action() {
    let m = module();
    let cmd = Command::AssertReturn {
        line: 11,
        action: invoke("missing", vec![]),
        expected: vec![lit("i32", "1")],
    };
    match run_command(&m, &cmd) {
        Err(HarnessError::UnexpectedError { line: 11, error }) => {
            assert!(matches!(error, Error::Resolution(ResolutionError::MissingExport)))
        }
        _ => panic!("expected the action's error"),
    }
}

#[test]
fn run_command_module_names_file() {
    let m = module();
    let cmd = Command::Module { line: 1, filename: "a.wasm".to_string() };
    assert_eq!(run_command(&m, &cmd).unwrap().map(|s| s.as_str()), Some("a.wasm"));
}

#[test]
fn first_command_must_be_module() {
    let ok = vec![Command::Module { line: 1, filename: "m.wasm".to_string() }];
    assert_eq!(first_module(&ok).unwrap(), "m.wasm");
    let bad = vec![Command::AssertTrap { line: 1, action: invoke("f", vec![]) }];
    assert!(matches!(first_module(&bad), Err(HarnessError::FirstCommandNotModule)));
    assert!(matches!(first_module(&vec![]), Err(HarnessError::FirstCommandNotModule)));
}
