//! Integer operations

use vstd::prelude::*;

use super::const_val::ConstArray;
use crate::model::IntArrayOpModel;

verus! {

/// An operation over integers.
#[derive(Clone, Copy, Debug, PartialEq, Eq, Structural)]
pub enum IntOp {
    /// Create a constant 1 bit integer.
    Const1(bool),
    /// Create a constant 8 bit integer.
    Const8(u8),
    /// Create a constant 16 bit integer.
    Const16(u16),
    /// Create a constant 32 bit integer.
    Const32(u32),
    /// Create a constant 64 bit integer.
    Const64(u64),
    /// Add two integers.
    Add,
    /// Subtract two integers.
    Sub,
    /// Multiply two integers.
    Mul,
    /// Divide two signed integers.
    DivS,
    /// Divide two unsigned integers.
    DivU,
    /// Take the power of an integer.
    Pow,
    /// Logical bitwise AND.
    And,
    /// Logical bitwise OR.
    Or,
    /// Logical bitwise XOR.
    Xor,
    /// Logical bitwise NOT.
    Not,
    /// Minimum of two signed integers.
    MinS,
    /// Minimum of two unsigned integers.
    MinU,
    /// Maximum of two signed integers.
    MaxS,
    /// Maximum of two unsigned integers.
    MaxU,
    /// Test two integers for equality.
    Eq,
    /// Check if one signed integer is strictly less than another.
    LtS,
    /// Check if one signed integer is less than or equal to another.
    LteS,
    /// Check if one unsigned integer is strictly less than another.
    LtU,
    /// Check if one unsigned integer is less than or equal to another.
    LteU,
    /// Take the absolute value of a signed integer.
    Abs,
    /// Remainder of a division of two signed integers.
    RemS,
    /// Remainder of a division of two unsigned integers.
    RemU,
    /// Logical shift left.
    Shl,
    /// Logical shift right.
    Shr,
}

/// An operation over integer arrays.
#[derive(Clone, Copy, Debug)]
pub enum IntArrayOp<'a> {
    /// Create a constant 1 bit integer array.
    ConstArray1(ConstArray<'a, bool>),
    /// Create a constant 8 bit integer array.
    ConstArray8(ConstArray<'a, u8>),
    /// Create a constant 16 bit integer array.
    ConstArray16(ConstArray<'a, u16>),
    /// Create a constant 32 bit integer array.
    ConstArray32(ConstArray<'a, u32>),
    /// Create a constant 64 bit integer array.
    ConstArray64(ConstArray<'a, u64>),
    /// Create a zeroed integer array of a given bitwidth with dynamic length.
    Zero {
        /// The number of bits in each integer in the array.
        bits: u8,
    },
    /// Get the value of an integer array at a given index.
    GetIndex,
    /// Set the value of an integer array at a given index.
    SetIndex,
    /// Get the length of an integer array.
    Length,
    /// Creates an integer array from a variable number of input values.
    Create,
}

impl<'a> View for IntArrayOp<'a> {
    type V = IntArrayOpModel;

    open spec fn view(&self) -> IntArrayOpModel {
        match *self {
            IntArrayOp::ConstArray1(a) => IntArrayOpModel::ConstArray1(a@),
            IntArrayOp::ConstArray8(a) => IntArrayOpModel::ConstArray8(a@),
            IntArrayOp::ConstArray16(a) => IntArrayOpModel::ConstArray16(a@),
            IntArrayOp::ConstArray32(a) => IntArrayOpModel::ConstArray32(a@),
            IntArrayOp::ConstArray64(a) => IntArrayOpModel::ConstArray64(a@),
            IntArrayOp::Zero { bits } => IntArrayOpModel::Zero { bits },
            IntArrayOp::GetIndex => IntArrayOpModel::GetIndex,
            IntArrayOp::SetIndex => IntArrayOpModel::SetIndex,
            IntArrayOp::Length => IntArrayOpModel::Length,
            IntArrayOp::Create => IntArrayOpModel::Create,
        }
    }
}

} // verus!
