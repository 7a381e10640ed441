use vstd::prelude::*;
use crate::error::RuntimeError;

verus! {

/// Declared type of a value: of a formal parameter, a local slot or a result.
#[derive(Debug, Clone, Copy, PartialEq, Eq, Structural)]
pub enum ValueType {
    Bool,
    U8,
    U64,
    U128,
}

/// A literal argument handed to a script.
#[derive(Debug, Clone, Copy, PartialEq, Eq, Structural)]
pub enum Literal {
    Bool(bool),
    U8(u8),
    U64(u64),
    U128(u128),
}

/// Reference to a wire that the instruction capability allocated.
#[derive(Debug, Clone, Copy, PartialEq, Eq, Structural)]
pub struct WireRef {
    pub index: u64,
}

/// A runtime value: a scalar witness, which is absent when the circuit is
/// built without knowing the private inputs, the wire it is bound to, and
/// its declared type.
///
/// The scalar field holds every unsigned literal of at most 128 bits
/// injectively, so a witness is carried as that integer.
#[derive(Debug, Clone, Copy, PartialEq, Eq, Structural)]
pub struct Value {
    pub witness: Option<u128>,
    pub cell: WireRef,
    pub kind: ValueType,
}

/// The type a literal carries.
pub open spec fn literal_type(lit: Literal) -> ValueType {
    match lit {
        Literal::Bool(_) => ValueType::Bool,
        Literal::U8(_) => ValueType::U8,
        Literal::U64(_) => ValueType::U64,
        Literal::U128(_) => ValueType::U128,
    }
}

/// The scalar a literal denotes: `false` is 0, `true` is 1, an integer is itself.
pub open spec fn literal_scalar(lit: Literal) -> u128 {
    match lit {
        Literal::Bool(b) => if b { 1u128 } else { 0u128 },
        Literal::U8(n) => n as u128,
        Literal::U64(n) => n as u128,
        Literal::U128(n) => n,
    }
}

impl Literal {
    /// The type this literal carries.
    pub fn value_type(&self) -> (r: ValueType)
        ensures
            r == literal_type(*self),
    {
        match self {
            Literal::Bool(_) => ValueType::Bool,
            Literal::U8(_) => ValueType::U8,
            Literal::U64(_) => ValueType::U64,
            Literal::U128(_) => ValueType::U128,
        }
    }
}

/// Converts a literal into the scalar of a parameter declared of type `ty`.
/// A literal of another type is refused, never coerced.
pub fn convert_from(lit: Literal, ty: ValueType) -> (r: Result<u128, RuntimeError>)
    ensures
        literal_type(lit) == ty ==> r == Ok::<u128, RuntimeError>(literal_scalar(lit)),
        literal_type(lit) != ty ==> r == Err::<u128, RuntimeError>(RuntimeError::ArgumentTypeConversionFailure),
{
    if lit.value_type() != ty {
        return Err(RuntimeError::ArgumentTypeConversionFailure);
    }
    match lit {
        Literal::Bool(b) => Ok(if b { 1u128 } else { 0u128 }),
        Literal::U8(n) => Ok(n as u128),
        Literal::U64(n) => Ok(n as u128),
        Literal::U128(n) => Ok(n),
    }
}

impl Value {
    /// A value bound to the freshly allocated wire `cell`, whose witness is
    /// `witness` (absent when the private input is unknown).
    pub fn new_variable(witness: Option<u128>, cell: WireRef, kind: ValueType) -> (r: Value)
        ensures
            r == (Value { witness, cell, kind }),
    {
        Value { witness, cell, kind }
    }
}

} // verus!
