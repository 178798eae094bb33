//! "Values" represent typed ports in the jeff language.
//!
//! Internally, these are coalesced into a single array at the function
//! definition and each port contains an index into this array.

use vstd::prelude::*;

verus! {

/// Value type.
#[derive(Clone, Copy, Debug, PartialEq, Eq, Structural)]
pub enum Type {
    /// Quantum bit.
    ///
    /// Qubits are linear types.
    Qubit,
    /// Quantum registers.
    ///
    /// A quantum register is an array of slots that can hold qubits.
    /// Slots of a quantum register can either be empty or filled with a qubit.
    ///
    /// Quantum registers are linear types.
    QubitRegister,
    /// Integers.
    ///
    /// The type does not distinguish between signed and unsigned integers.
    /// Instead it is up to the operation to interpret the integer as signed or
    /// unsigned. Signed integers are represented using two's complement.
    ///
    /// Integers of bitwidth 1 can be used as classical bits or boolean values.
    Int {
        /// Bitwidth of the integer.
        bits: u8,
    },
    /// Integer array.
    ///
    /// The length of the array is not known at compile time, but fixed at
    /// runtime.
    IntArray {
        /// Bitwidth of the integers.
        bits: u8,
    },
    /// Floating point numbers.
    Float {
        /// Precision of the floating point number.
        precision: FloatPrecision,
    },
    /// Array of floating point numbers.
    ///
    /// The length of the array is not known at compile time, but fixed at
    /// runtime.
    FloatArray {
        /// Precision of the floating point numbers.
        precision: FloatPrecision,
    },
}

impl Type {
    /// Create a new integer type.
    pub fn new_int(bits: u8) -> (r: Type)
        ensures
            r == (Type::Int { bits }),
    {
        Type::Int { bits }
    }

    /// Create a new boolean type.
    pub fn new_bool() -> (r: Type)
        ensures
            r == (Type::Int { bits: 1u8 }),
    {
        Type::Int { bits: 1 }
    }

    /// Create a new integer array type.
    pub fn int_array(bits: u8) -> (r: Type)
        ensures
            r == (Type::IntArray { bits }),
    {
        Type::IntArray { bits }
    }

    /// Create a new floating point type.
    pub fn new_float(precision: FloatPrecision) -> (r: Type)
        ensures
            r == (Type::Float { precision }),
    {
        Type::Float { precision }
    }

    /// Create a new floating point array type.
    pub fn float_array(precision: FloatPrecision) -> (r: Type)
        ensures
            r == (Type::FloatArray { precision }),
    {
        Type::FloatArray { precision }
    }
}

/// Precision of floating point number.
#[derive(Clone, Copy, Debug, PartialEq, Eq, Structural)]
pub enum FloatPrecision {
    /// 32-bit floating point number.
    Float32,
    /// 64-bit floating point number.
    Float64,
}

impl FloatPrecision {
    /// Returns the bitwidth of the floating point number.
    pub fn bits(self) -> (r: u8)
        ensures
            r == (match self {
                FloatPrecision::Float32 => 32u8,
                FloatPrecision::Float64 => 64u8,
            }),
    {
        match self {
            FloatPrecision::Float32 => 32,
            FloatPrecision::Float64 => 64,
        }
    }
}

} // verus!
