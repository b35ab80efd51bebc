use vstd::prelude::*;

verus! {

/// Type of a value at a call boundary.
#[derive(Debug, Clone, Copy, PartialEq, Eq, Structural)]
pub enum ValueType {
    I32,
    I64,
    F32,
    F64,
}

/// A tagged value passed to or returned from a function.
///
/// Floats are carried as their raw IEEE-754 bit patterns, so equality is
/// bitwise: NaN payloads and signed zero are kept exactly.
#[derive(Debug, Clone, Copy, PartialEq, Eq, Structural)]
pub enum RuntimeValue {
    I32(i32),
    I64(i64),
    F32(u32),
    F64(u64),
}

impl RuntimeValue {
    /// The float whose IEEE-754 bits are `bits`.
    pub fn decode_f32(bits: u32) -> (r: RuntimeValue)
        ensures
            r == RuntimeValue::F32(bits),
    {
        RuntimeValue::F32(bits)
    }

    /// The double whose IEEE-754 bits are `bits`.
    pub fn decode_f64(bits: u64) -> (r: RuntimeValue)
        ensures
            r == RuntimeValue::F64(bits),
    {
        RuntimeValue::F64(bits)
    }
}

} // verus!
