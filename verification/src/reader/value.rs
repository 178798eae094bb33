//! "Values" represent wire types in the jeff language with associated
//! metadata.
//!
//! There are two types of values:
//!
//! - [`WireValue`]s that correspond to typed hyperedges in dataflow regions.
//! - [`FunctionIOValue`]s, describing the inputs and outputs of a function.
//!
//! All regions inside a function share a single [`ValueTable`] listing all
//! the hyperedges in the function. These are indexed by their [`ValueId`]s.

use vstd::prelude::*;

pub mod function_io;
pub mod wire_value;

pub use function_io::FunctionIOValue;
pub use wire_value::WireValue;

use super::string_table::StringTable;
use super::ReadError;
use crate::data::ValueData;
use crate::model::ValueModel;

verus! {

/// The ID of a value hyperedge in the function's value table.
pub type ValueId = u32;

/// Table of values / typed hyperedges contained in a function.
#[derive(Clone, Copy, Debug)]
pub struct ValueTable<'a> {
    /// The value descriptors, in table order.
    values: &'a Vec<ValueData>,
    /// Module-level register of reused strings.
    strings: StringTable<'a>,
}

impl<'a> View for ValueTable<'a> {
    type V = Seq<ValueModel>;

    closed spec fn view(&self) -> Seq<ValueModel> {
        crate::data::values_view(self.values@)
    }
}

/// What [`ValueTable::get`] returns for id `id` of a table: the value at that
/// id, carrying the id itself, or [`ReadError::ValueOutOfBounds`].
pub open spec fn value_get_ok(
    r: Result<WireValue, ReadError>,
    values: Seq<ValueModel>,
    id: u32,
) -> bool {
    if (id as int) < values.len() {
        r matches Ok(wv) && wv@.id == id && wv@.value == values[id as int]
    } else {
        r matches Err(ReadError::ValueOutOfBounds { idx, count }) && idx == id && count
            == values.len()
    }
}

impl<'a> ValueTable<'a> {
    /// Create a new value table over a list of value descriptors.
    pub(crate) fn new(values: &'a Vec<ValueData>, strings: StringTable<'a>) -> (r: ValueTable<'a>)
        ensures
            r@ == crate::data::values_view(values@),
            r.strings_spec() == strings@,
    {
        ValueTable { values, strings }
    }

    /// The module string table the values resolve their metadata through.
    pub closed spec fn strings_spec(&self) -> Seq<Seq<u8>> {
        self.strings@
    }

    /// Returns the wire value at the given index.
    ///
    /// # Errors
    ///
    /// - [`ReadError::ValueOutOfBounds`] if the index is out of bounds.
    pub fn get(&self, idx: ValueId) -> (r: Result<WireValue<'a>, ReadError>)
        ensures
            value_get_ok(r, self@, idx),
            r matches Ok(wv) ==> wv.strings_spec() == self.strings_spec(),
    {
        if (idx as usize) < self.values.len() {
            let value: &ValueData = &self.values[idx as usize];
            Ok(WireValue::new(idx, value, self.strings))
        } else {
            Err(ReadError::ValueOutOfBounds { idx, count: self.values.len() })
        }
    }

    /// Returns the wire values in this table, each with its id, in table
    /// order.
    pub fn iter(&self) -> (r: Vec<(ValueId, WireValue<'a>)>)
        requires
            self@.len() <= u32::MAX,
        ensures
            r@.len() == self@.len(),
            forall|i: int|
                0 <= i < r@.len() ==> {
                    &&& #[trigger] r@[i].0 == i as u32
                    &&& r@[i].1@.id == i as u32
                    &&& r@[i].1@.value == self@[i]
                },
    {
        let n: usize = self.values.len();
        let mut out: Vec<(ValueId, WireValue<'a>)> = Vec::new();
        let mut i: usize = 0;
        while i < n
            invariant
                n == self@.len(),
                n <= u32::MAX,
                i <= n,
                out@.len() == i,
                forall|j: int|
                    0 <= j < i ==> {
                        &&& #[trigger] out@[j].0 == j as u32
                        &&& out@[j].1@.id == j as u32
                        &&& out@[j].1@.value == self@[j]
                    },
            decreases n - i,
        {
            let value: &ValueData = &self.values[i];
            out.push((i as u32, WireValue::new(i as u32, value, self.strings)));
            i = i + 1;
        }
        out
    }

    /// Returns the number of values in this table.
    pub fn len(&self) -> (r: usize)
        ensures
            r == self@.len(),
    {
        self.values.len()
    }

    /// Returns `true` if the table is empty.
    pub fn is_empty(&self) -> (r: bool)
        ensures
            r == (self@.len() == 0),
    {
        self.values.len() == 0
    }
}

} // verus!
