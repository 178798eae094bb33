//! Wire values representing typed hyperedges in dataflow regions.

use vstd::prelude::*;

use super::ValueId;
use crate::data::ValueData;
use crate::model::ValueModel;
use crate::reader::string_table::StringTable;
use crate::types::Type;

verus! {

/// Model of a [`WireValue`]: a value descriptor together with the id it was
/// fetched by.
pub ghost struct WireValueModel {
    /// The id of the value in the function's value table.
    pub id: u32,
    /// The value descriptor.
    pub value: ValueModel,
}

/// Wire type and associated metadata.
///
/// Ports in the dataflow graph reference these values by their index in the
/// function's value array.
///
/// This corresponds to a jeff format `WireValue`, with a defined ID
/// identifying it in a [`ValueTable`][super::ValueTable].
#[derive(Clone, Copy, Debug)]
pub struct WireValue<'a> {
    /// The ID of this value in the function's value table.
    id: ValueId,
    /// The underlying value descriptor.
    value: &'a ValueData,
    /// Module-level register of reused strings.
    strings: StringTable<'a>,
}

impl<'a> View for WireValue<'a> {
    type V = WireValueModel;

    closed spec fn view(&self) -> WireValueModel {
        WireValueModel { id: self.id, value: self.value@ }
    }
}

impl<'a> WireValue<'a> {
    /// Create a new wire value view over a value descriptor.
    pub(crate) fn new(id: ValueId, value: &'a ValueData, strings: StringTable<'a>) -> (r:
        WireValue<'a>)
        ensures
            r@ == (WireValueModel { id, value: value@ }),
            r.strings_spec() == strings@,
    {
        WireValue { id, value, strings }
    }

    /// The module string table this value resolves its metadata through.
    pub closed spec fn strings_spec(&self) -> Seq<Seq<u8>> {
        self.strings@
    }

    /// Returns the ID of this value in the containing function's value table.
    pub fn id(&self) -> (r: ValueId)
        ensures
            r == self@.id,
    {
        self.id
    }

    /// Returns the type of this value.
    pub fn ty(&self) -> (r: Type)
        ensures
            r == self@.value.ty,
    {
        self.value.ty
    }

    /// View this wire value as a function io value, dropping the table id.
    pub(crate) fn as_io(self) -> (r: super::FunctionIOValue<'a>)
        ensures
            r@ == self@.value,
            r.strings_spec() == self.strings_spec(),
    {
        super::FunctionIOValue::new(self.value, self.strings)
    }

    /// Returns the number of metadata entries attached to this value.
    pub fn metadata_count(&self) -> (r: usize)
        ensures
            r == self@.value.metadata.len(),
    {
        crate::reader::metadata::meta_count(&self.value.metadata)
    }

    /// Returns the `n`-th metadata entry attached to this value.
    pub fn metadata(&self, n: usize) -> (r: Result<
        crate::reader::Metadata<'a>,
        crate::reader::ReadError,
    >)
        requires
            n < self@.value.metadata.len(),
        ensures
            crate::reader::metadata::meta_get_ok(
                r,
                self@.value.metadata,
                self.strings_spec(),
                n as int,
            ),
    {
        crate::reader::metadata::meta_get(&self.value.metadata, self.strings, n)
    }

    /// Returns the `n`-th metadata entry attached to this value, or `None` if
    /// `n` is out of range.
    pub fn try_metadata(&self, n: usize) -> (r: Option<
        Result<crate::reader::Metadata<'a>, crate::reader::ReadError>,
    >)
        ensures
            crate::reader::metadata::meta_try_get_ok(
                r,
                self@.value.metadata,
                self.strings_spec(),
                n as int,
            ),
    {
        crate::reader::metadata::meta_try_get(&self.value.metadata, self.strings, n)
    }
}

} // verus!
