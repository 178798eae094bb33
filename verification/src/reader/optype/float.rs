//! Floating point operations
//!
//! Constant payloads carry the IEEE-754 bit patterns of the values; this
//! layer never interprets them numerically.

use vstd::prelude::*;

use super::const_val::ConstArray;
use crate::model::FloatArrayOpModel;
use crate::types::FloatPrecision;

verus! {

/// An operation over floating point numbers.
#[derive(Clone, Copy, Debug, PartialEq, Eq, Structural)]
pub enum FloatOp {
    /// Create a constant 32 bit float, given as its IEEE-754 bit pattern.
    Const32(u32),
    /// Create a constant 64 bit float, given as its IEEE-754 bit pattern.
    Const64(u64),
    /// Add two floats.
    Add,
    /// Subtract two floats.
    Sub,
    /// Multiply two floats.
    Mul,
    /// Calculate one float raised to the power of another.
    Pow,
    /// Test two floats for equality.
    Eq,
    /// Check if one float is strictly less than another.
    Lt,
    /// Check if one float is less than or equal to another.
    Lte,
    /// Calculate the square root of a float.
    Sqrt,
    /// Calculate the absolute value of a float.
    Abs,
    /// Round a float up to the nearest integer.
    Ceil,
    /// Round a float down to the nearest integer.
    Floor,
    /// Check if a float is NaN.
    IsNan,
    /// Check if a float is infinite.
    IsInf,
    /// Calculate e raised to the power of a float.
    Exp,
    /// Calculate the natural logarithm of a float.
    Log,
    /// Calculate the sine of a float.
    Sin,
    /// Calculate the cosine of a float.
    Cos,
    /// Calculate the tangent of a float.
    Tan,
    /// Calculate the arcsine of a float.
    Asin,
    /// Calculate the arccosine of a float.
    Acos,
    /// Calculate the arctangent of a float.
    Atan,
    /// Calculate the 2-argument arctangent.
    Atan2,
    /// Calculate the hyperbolic sine of a float.
    Sinh,
    /// Calculate the hyperbolic cosine of a float.
    Cosh,
    /// Calculate the hyperbolic tangent of a float.
    Tanh,
    /// Calculate the inverse hyperbolic sine of a float.
    Asinh,
    /// Calculate the inverse hyperbolic cosine of a float.
    Acosh,
    /// Calculate the inverse hyperbolic tangent of a float.
    Atanh,
    /// Maximum of two floats.
    Max,
    /// Minimum of two floats.
    Min,
}

/// An operation over floating point arrays.
#[derive(Clone, Copy, Debug)]
pub enum FloatArrayOp<'a> {
    /// Create a constant 32 bit float array, elements given as IEEE-754 bit
    /// patterns.
    Const32(ConstArray<'a, u32>),
    /// Create a constant 64 bit float array, elements given as IEEE-754 bit
    /// patterns.
    Const64(ConstArray<'a, u64>),
    /// Create a zeroed float array of a given precision with dynamic length.
    Zero {
        /// The precision of the floats in the array.
        precision: FloatPrecision,
    },
    /// Get the value of a float array at a given index.
    GetIndex,
    /// Set the value of a float array at a given index.
    SetIndex,
    /// Get the length of a float array.
    Length,
    /// Creates a float array from a variable number of input values.
    Create,
}

impl<'a> View for FloatArrayOp<'a> {
    type V = FloatArrayOpModel;

    open spec fn view(&self) -> FloatArrayOpModel {
        match *self {
            FloatArrayOp::Const32(a) => FloatArrayOpModel::Const32(a@),
            FloatArrayOp::Const64(a) => FloatArrayOpModel::Const64(a@),
            FloatArrayOp::Zero { precision } => FloatArrayOpModel::Zero { precision },
            FloatArrayOp::GetIndex => FloatArrayOpModel::GetIndex,
            FloatArrayOp::SetIndex => FloatArrayOpModel::SetIndex,
            FloatArrayOp::Length => FloatArrayOpModel::Length,
            FloatArrayOp::Create => FloatArrayOpModel::Create,
        }
    }
}

} // verus!
