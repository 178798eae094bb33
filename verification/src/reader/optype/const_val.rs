//! Operations returning a constant value.

use vstd::prelude::*;

verus! {

/// An array of constant values of a primitive type.
#[derive(Clone, Copy, Debug)]
pub struct ConstArray<'a, T> {
    /// The constant values.
    values: &'a Vec<T>,
}

impl<'a, T> View for ConstArray<'a, T> {
    type V = Seq<T>;

    closed spec fn view(&self) -> Seq<T> {
        self.values@
    }
}

impl<'a, T: Copy> ConstArray<'a, T> {
    /// Create a new constant array over a list of values.
    pub fn new(values: &'a Vec<T>) -> (r: ConstArray<'a, T>)
        ensures
            r@ == values@,
    {
        ConstArray { values }
    }

    /// Returns the constant values, in order.
    pub fn values(&self) -> (r: &'a Vec<T>)
        ensures
            r@ == self@,
    {
        self.values
    }

    /// Returns the number of constant values.
    pub fn len(&self) -> (r: usize)
        ensures
            r == self@.len(),
    {
        self.values.len()
    }

    /// Returns `true` if the array is empty.
    pub fn is_empty(&self) -> (r: bool)
        ensures
            r == (self@.len() == 0),
    {
        self.values.len() == 0
    }

    /// Returns the constant value at the given index.
    pub fn get(&self, idx: usize) -> (r: T)
        requires
            idx < self@.len(),
        ensures
            r == self@[idx as int],
    {
        self.values[idx]
    }
}

} // verus!
