use vstd::prelude::*;
use crate::error::Error;
use crate::module::ModuleInstanceInterface;
use crate::text::{parse_unsigned, str_equal, unsigned_value};
use crate::value::RuntimeValue;

verus! {

/// A typed literal of a command script: a type tag and the decimal digits of
/// the value's unsigned bit pattern.
#[derive(Debug, Clone)]
pub struct Literal {
    pub value_type: String,
    pub value: String,
}

/// An action of a command script.
#[derive(Debug, Clone)]
pub enum Action {
    /// Call the export `field` of the current module with `args`.
    Invoke { field: String, args: Vec<Literal> },
}

/// A command of a command script.
#[derive(Debug, Clone)]
pub enum Command {
    /// Load a module and make it the current one.
    Module { line: u64, filename: String },
    /// The action must succeed with exactly the expected values.
    AssertReturn { line: u64, action: Action, expected: Vec<Literal> },
    /// The action must fail.
    AssertTrap { line: u64, action: Action },
}

/// Why a command script failed.
#[derive(Debug, Clone)]
pub enum HarnessError {
    /// A literal carries a type tag other than i32, i64, f32 and f64.
    UnknownValueType,
    /// A literal's value is not an unsigned decimal of its type's width.
    InvalidLiteral,
    /// The script does not start with a module command.
    FirstCommandNotModule,
    /// An assertion expected values, and the action failed.
    UnexpectedError { line: u64, error: Error },
    /// An assertion expected values, and the action returned others.
    ReturnMismatch { line: u64 },
    /// An assertion expected a trap, and the action returned.
    UnexpectedReturn { line: u64, result: Option<RuntimeValue> },
}

/// The signed 32-bit integer with the two's-complement bit pattern `n`.
pub open spec fn i32_of_bits(n: nat) -> i32 {
    if n <= i32::MAX {
        n as i32
    } else {
        (n - 0x1_0000_0000) as i32
    }
}

/// The signed 64-bit integer with the two's-complement bit pattern `n`.
pub open spec fn i64_of_bits(n: nat) -> i64 {
    if n <= i64::MAX {
        n as i64
    } else {
        (n - 0x1_0000_0000_0000_0000) as i64
    }
}

/// The value that a literal with type tag `ty` and digits `v` denotes.
pub open spec fn literal_value(ty: Seq<char>, v: Seq<char>) -> Result<RuntimeValue, HarnessError> {
    if ty == "i32"@ || ty == "f32"@ {
        match unsigned_value(v, u32::MAX as nat) {
            Some(n) => Ok(
                if ty == "i32"@ {
                    RuntimeValue::I32(i32_of_bits(n))
                } else {
                    RuntimeValue::F32(n as u32)
                },
            ),
            None => Err(HarnessError::InvalidLiteral),
        }
    } else if ty == "i64"@ || ty == "f64"@ {
        match unsigned_value(v, u64::MAX as nat) {
            Some(n) => Ok(
                if ty == "i64"@ {
                    RuntimeValue::I64(i64_of_bits(n))
                } else {
                    RuntimeValue::F64(n as u64)
                },
            ),
            None => Err(HarnessError::InvalidLiteral),
        }
    } else {
        Err(HarnessError::UnknownValueType)
    }
}

/// The values of a list of literals, or the error of the first one that
/// denotes none.
pub open spec fn literal_values(lits: Seq<Literal>) -> Result<Seq<RuntimeValue>, HarnessError>
    decreases lits.len(),
{
    if lits.len() == 0 {
        Ok(Seq::empty())
    } else {
        match literal_values(lits.drop_last()) {
            Ok(vs) => match literal_value(lits.last().value_type@, lits.last().value@) {
                Ok(v) => Ok(vs.push(v)),
                Err(e) => Err(e),
            },
            Err(e) => Err(e),
        }
    }
}

/// The results of an action as a sequence: empty or one value.
pub open spec fn result_values(result: Option<RuntimeValue>) -> Seq<RuntimeValue> {
    match result {
        Some(v) => seq![v],
        None => Seq::empty(),
    }
}

/// An assertion of return values is met exactly when the action produced
/// no value and none was expected, or produced the single expected value,
/// bit for bit.
pub proof fn lemma_return_values_match(result: Option<RuntimeValue>, expected: Seq<RuntimeValue>)
    ensures
        result_values(result) == expected <==> (expected.len() == 0 && result is None) || (
        expected.len() == 1 && result == Some(expected[0])),
{
    if expected.len() == 0 && result is None {
        assert(result_values(result) =~= expected);
    }
    if expected.len() == 1 && result == Some(expected[0]) {
        assert(result_values(result) =~= expected);
    }
    if result_values(result) == expected {
        match result {
            Some(v) => assert(expected[0] == v),
            None => {},
        }
    }
}

/// Decode a literal by reinterpreting its unsigned bit pattern in its type.
pub fn runtime_value(lit: &Literal) -> (r: Result<RuntimeValue, HarnessError>)
    ensures
        r == literal_value(lit.value_type@, lit.value@),
{
    proof {
        reveal_strlit("i32");
        reveal_strlit("i64");
        reveal_strlit("f32");
        reveal_strlit("f64");
        assert("i32"@[0] != "f32"@[0] && "i32"@[0] != "f64"@[0]);
        assert("i64"@[0] != "f32"@[0] && "i64"@[0] != "f64"@[0]);
        assert("i32"@[1] != "i64"@[1] && "f32"@[1] != "f64"@[1]);
    }
    let ty = lit.value_type.as_str();
    let v = lit.value.as_str();
    if str_equal(ty, "i32") {
        match parse_unsigned(v, 0xffff_ffff) {
            Some(n) => {
                let n = n as u32;
                if n <= 0x7fff_ffff {
                    Ok(RuntimeValue::I32(n as i32))
                } else {
                    let low = (n - 0x8000_0000) as i32;
                    Ok(RuntimeValue::I32(low - 0x7fff_ffff - 1))
                }
            },
            None => Err(HarnessError::InvalidLiteral),
        }
    } else if str_equal(ty, "i64") {
        match parse_unsigned(v, 0xffff_ffff_ffff_ffff) {
            Some(n) => {
                if n <= 0x7fff_ffff_ffff_ffff {
                    Ok(RuntimeValue::I64(n as i64))
                } else {
                    let low = (n - 0x8000_0000_0000_0000) as i64;
                    Ok(RuntimeValue::I64(low - 0x7fff_ffff_ffff_ffff - 1))
                }
            },
            None => Err(HarnessError::InvalidLiteral),
        }
    } else if str_equal(ty, "f32") {
        match parse_unsigned(v, 0xffff_ffff) {
            Some(n) => Ok(RuntimeValue::decode_f32(n as u32)),
            None => Err(HarnessError::InvalidLiteral),
        }
    } else if str_equal(ty, "f64") {
        match parse_unsigned(v, 0xffff_ffff_ffff_ffff) {
            Some(n) => Ok(RuntimeValue::decode_f64(n)),
            None => Err(HarnessError::InvalidLiteral),
        }
    } else {
        Err(HarnessError::UnknownValueType)
    }
}

/// Decode a list of literals in order; the first literal that denotes no
/// value gives the error.
pub fn runtime_values(lits: &Vec<Literal>) -> (r: Result<Vec<RuntimeValue>, HarnessError>)
    ensures
        match literal_values(lits@) {
            Ok(vs) => r matches Ok(out) && out@ == vs,
            Err(e) => r == Err::<Vec<RuntimeValue>, HarnessError>(e),
        },
{
    let mut out: Vec<RuntimeValue> = Vec::new();
    let mut i: usize = 0;
    while i < lits.len()
        invariant
            i <= lits@.len(),
            literal_values(lits@.subrange(0, i as int)) == Ok::<Seq<RuntimeValue>, HarnessError>(
                out@,
            ),
        decreases lits@.len() - i,
    {
        let ghost next = lits@.subrange(0, i + 1);
        assert(next.drop_last() =~= lits@.subrange(0, i as int));
        let v = runtime_value(&lits[i]);
        match v {
            Ok(v) => {
                out.push(v);
            },
            Err(e) => {
                proof {
                    lemma_literal_values_prefix_error(lits@, i + 1);
                }
                return Err(e);
            },
        }
        i = i + 1;
    }
    assert(lits@.subrange(0, i as int) =~= lits@);
    Ok(out)
}

/// Once a prefix of literals fails to decode, the whole list fails with
/// the same error.
proof fn lemma_literal_values_prefix_error(lits: Seq<Literal>, k: int)
    requires
        0 <= k <= lits.len(),
        literal_values(lits.subrange(0, k)) is Err,
    ensures
        literal_values(lits) == literal_values(lits.subrange(0, k)),
    decreases lits.len() - k,
{
    if k < lits.len() {
        let next = lits.subrange(0, k + 1);
        assert(next.drop_last() =~= lits.subrange(0, k));
        lemma_literal_values_prefix_error(lits, k + 1);
    } else {
        assert(lits.subrange(0, k) =~= lits);
    }
}

/// Verdict of an assertion that an action returns `expected`: the action must
/// have succeeded with exactly the expected values, in order and bit for bit.
pub fn check_return(
    line: u64,
    outcome: Result<Option<RuntimeValue>, Error>,
    expected: &Vec<RuntimeValue>,
) -> (r: Result<(), HarnessError>)
    ensures
        match outcome {
            Err(e) => r == Err::<(), HarnessError>(HarnessError::UnexpectedError { line, error: e }),
            Ok(result) => if result_values(result) == expected@ {
                r is Ok
            } else {
                r == Err::<(), HarnessError>(HarnessError::ReturnMismatch { line })
            },
        },
{
    match outcome {
        Err(e) => Err(HarnessError::UnexpectedError { line, error: e }),
        Ok(None) => {
            if expected.len() == 0 {
                assert(expected@ =~= Seq::<RuntimeValue>::empty());
                Ok(())
            } else {
                Err(HarnessError::ReturnMismatch { line })
            }
        },
        Ok(Some(v)) => {
            if expected.len() == 1 && expected[0] == v {
                assert(expected@ =~= seq![v]);
                Ok(())
            } else {
                assert(expected@.len() != 1 ==> expected@ != seq![v]);
                Err(HarnessError::ReturnMismatch { line })
            }
        },
    }
}

/// Verdict of an assertion that an action traps: any failure will do.
pub fn check_trap(line: u64, outcome: Result<Option<RuntimeValue>, Error>) -> (r: Result<
    (),
    HarnessError,
>)
    ensures
        match outcome {
            Err(_) => r is Ok,
            Ok(result) => r == Err::<(), HarnessError>(
                HarnessError::UnexpectedReturn { line, result },
            ),
        },
{
    match outcome {
        Err(_) => Ok(()),
        Ok(result) => Err(HarnessError::UnexpectedReturn { line, result }),
    }
}

/// Run an action on `module`: decode its arguments, then call the export.
/// The outer error is a literal that decodes to no value; the inner result is
/// the call's.
pub fn run_action<M: ModuleInstanceInterface>(module: &M, action: &Action) -> (r: Result<
    Result<Option<RuntimeValue>, Error>,
    HarnessError,
>)
    ensures
        match action {
            Action::Invoke { args, .. } => match literal_values(args@) {
                Ok(_) => r is Ok,
                Err(e) => r == Err::<Result<Option<RuntimeValue>, Error>, HarnessError>(e),
            },
        },
{
    match action {
        Action::Invoke { field, args } => {
            let params = runtime_values(args)?;
            Ok(module.execute_export(field.as_str(), params))
        },
    }
}

/// The file of the first command, which must load a module.
pub fn first_module(commands: &Vec<Command>) -> (r: Result<&String, HarnessError>)
    ensures
        commands@.len() > 0 && commands@[0] is Module ==> (r matches Ok(f) && *f
            == commands@[0]->Module_filename),
        !(commands@.len() > 0 && commands@[0] is Module) ==> r matches Err(
            HarnessError::FirstCommandNotModule,
        ),
{
    if commands.len() == 0 {
        return Err(HarnessError::FirstCommandNotModule);
    }
    match &commands[0] {
        Command::Module { filename, .. } => Ok(filename),
        _ => Err(HarnessError::FirstCommandNotModule),
    }
}

/// Carry out one command against the current module. A module command is
/// handed back as the file to load next; an assertion runs its action and
/// gives its verdict.
pub fn run_command<'c, M: ModuleInstanceInterface>(module: &M, command: &'c Command) -> (r: Result<
    Option<&'c String>,
    HarnessError,
>)
    ensures
        match command {
            Command::Module { filename, .. } => r == Ok::<Option<&String>, HarnessError>(
                Some(filename),
            ),
            Command::AssertReturn { line, action, expected } => match (
                literal_values(action->Invoke_args@),
                literal_values(expected@),
            ) {
                (Err(e), _) => r == Err::<Option<&String>, HarnessError>(e),
                (Ok(_), Err(e)) => r == Err::<Option<&String>, HarnessError>(e),
                (Ok(_), Ok(_)) => r == Ok::<Option<&String>, HarnessError>(None) || (r matches Err(
                    HarnessError::UnexpectedError { line: l, .. },
                ) && l == line) || r == Err::<Option<&String>, HarnessError>(
                    HarnessError::ReturnMismatch { line: *line },
                ),
            },
            Command::AssertTrap { line, action } => match literal_values(action->Invoke_args@) {
                Err(e) => r == Err::<Option<&String>, HarnessError>(e),
                Ok(_) => r == Ok::<Option<&String>, HarnessError>(None) || (r matches Err(
                    HarnessError::UnexpectedReturn { line: l, .. },
                ) && l == line),
            },
        },
{
    match command {
        Command::Module { filename, .. } => Ok(Some(filename)),
        Command::AssertReturn { line, action, expected } => {
            let outcome = run_action(module, action)?;
            let expected = runtime_values(expected)?;
            check_return(*line, outcome, &expected)?;
            Ok(None)
        },
        Command::AssertTrap { line, action } => {
            let outcome = run_action(module, action)?;
            check_trap(*line, outcome)?;
            Ok(None)
        },
    }
}

} // verus!
