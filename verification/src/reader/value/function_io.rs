//! Input/output types and metadata for functions.

use vstd::prelude::*;

use super::WireValue;
use crate::data::ValueData;
use crate::model::ValueModel;
use crate::reader::string_table::StringTable;
use crate::types::Type;

verus! {

/// Input/output type for a function, with associated metadata.
///
/// This corresponds to a jeff format `Value`: a typed hyperedge with no table
/// id, as used in declaration signatures.
#[derive(Clone, Copy, Debug)]
pub struct FunctionIOValue<'a> {
    /// The underlying value descriptor.
    value: &'a ValueData,
    /// Module-level register of reused strings.
    strings: StringTable<'a>,
}

impl<'a> View for FunctionIOValue<'a> {
    type V = ValueModel;

    closed spec fn view(&self) -> ValueModel {
        self.value@
    }
}

impl<'a> FunctionIOValue<'a> {
    /// Create a new function io value view over a value descriptor.
    pub(crate) fn new(value: &'a ValueData, strings: StringTable<'a>) -> (r: FunctionIOValue<'a>)
        ensures
            r@ == value@,
            r.strings_spec() == strings@,
    {
        FunctionIOValue { value, strings }
    }

    /// The module string table this value resolves its metadata through.
    pub closed spec fn strings_spec(&self) -> Seq<Seq<u8>> {
        self.strings@
    }

    /// Returns the type of this value.
    pub fn ty(&self) -> (r: Type)
        ensures
            r == self@.ty,
    {
        self.value.ty
    }

    /// Returns the number of metadata entries attached to this value.
    pub fn metadata_count(&self) -> (r: usize)
        ensures
            r == self@.metadata.len(),
    {
        crate::reader::metadata::meta_count(&self.value.metadata)
    }

    /// Returns the `n`-th metadata entry attached to this value.
    pub fn metadata(&self, n: usize) -> (r: Result<
        crate::reader::Metadata<'a>,
        crate::reader::ReadError,
    >)
        requires
            n < self@.metadata.len(),
        ensures
            crate::reader::metadata::meta_get_ok(r, self@.metadata, self.strings_spec(), n as int),
    {
        crate::reader::metadata::meta_get(&self.value.metadata, self.strings, n)
    }

    /// Returns the `n`-th metadata entry attached to this value, or `None` if
    /// `n` is out of range.
    pub fn try_metadata(&self, n: usize) -> (r: Option<
        Result<crate::reader::Metadata<'a>, crate::reader::ReadError>,
    >)
        ensures
            crate::reader::metadata::meta_try_get_ok(
                r,
                self@.metadata,
                self.strings_spec(),
                n as int,
            ),
    {
        crate::reader::metadata::meta_try_get(&self.value.metadata, self.strings, n)
    }

    /// View a wire value as a function io value, dropping its table id.
    pub fn from_wire(wire_value: WireValue<'a>) -> (r: FunctionIOValue<'a>)
        ensures
            r@ == wire_value@.value,
            r.strings_spec() == wire_value.strings_spec(),
    {
        wire_value.as_io()
    }
}

} // verus!
