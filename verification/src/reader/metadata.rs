//! Metadata associated with jeff elements.
//!
//! Module, function, region, operation and value views all expose the same
//! accessors (`metadata_count`, `metadata`, `try_metadata`), implemented over
//! the shared helpers in this module.

use vstd::prelude::*;
use vstd::utf8::decode_utf8;
use vstd::utf8::valid_utf8;

use super::string_table::StringTable;
use super::ReadError;
use crate::data::MetaEntry;
use crate::model::MetaModel;
use crate::strutil::bytes_to_str;

verus! {

/// Model of a resolved [`Metadata`] entry: its decoded name and raw value.
pub ghost struct MetadataModel {
    /// The decoded name of the entry.
    pub name: Seq<char>,
    /// Raw bytes of the entry's value.
    pub value: Seq<u8>,
}

/// A metadata entry, consisting of a name and a value.
///
/// The name has already been resolved through the module string table; the
/// value is an opaque blob of which only a string interpretation is offered.
#[derive(Clone, Copy, Debug)]
pub struct Metadata<'a> {
    /// The resolved name of the entry.
    name: &'a str,
    /// Raw bytes of the entry's value.
    value: &'a Vec<u8>,
}

impl<'a> View for Metadata<'a> {
    type V = MetadataModel;

    closed spec fn view(&self) -> MetadataModel {
        MetadataModel { name: self.name@, value: self.value@ }
    }
}

impl<'a> Metadata<'a> {
    /// Returns the name of this metadata entry.
    pub fn name(&self) -> (r: &'a str)
        ensures
            r@ == self@.name,
    {
        self.name
    }

    /// Returns the raw bytes of the value of this metadata entry.
    pub fn value_bytes(&self) -> (r: &'a Vec<u8>)
        ensures
            r@ == self@.value,
    {
        self.value
    }

    /// Returns the value as a string.
    ///
    /// Returns `None` if the value is not valid UTF-8.
    pub fn value_str(&self) -> (r: Option<&'a str>)
        ensures
            r is Some <==> valid_utf8(self@.value),
            r matches Some(s) ==> s@ == decode_utf8(self@.value),
    {
        bytes_to_str(self.value)
    }
}

/// What resolving the `n`-th entry of a metadata list returns: the entry with
/// its name decoded through the string table, or the exact typed error.
pub open spec fn meta_get_ok(
    r: Result<Metadata, ReadError>,
    metas: Seq<MetaModel>,
    strings: Seq<Seq<u8>>,
    n: int,
) -> bool {
    let m = metas[n];
    if m.name as int >= strings.len() {
        r matches Err(ReadError::StringOutOfBounds { context, idx, count }) && context@
            == "metadata name"@ && idx == m.name as u32 && count == strings.len()
    } else if !valid_utf8(strings[m.name as int]) {
        r matches Err(ReadError::StringNotUtf8 { context, idx }) && context@ == "metadata name"@
            && idx == m.name as u32
    } else {
        r matches Ok(md) && md@.name == decode_utf8(strings[m.name as int]) && md@.value == m.value
    }
}

/// What the `try` variant returns: `None` exactly when `n` is out of range.
pub open spec fn meta_try_get_ok(
    r: Option<Result<Metadata, ReadError>>,
    metas: Seq<MetaModel>,
    strings: Seq<Seq<u8>>,
    n: int,
) -> bool {
    if n < metas.len() {
        r matches Some(inner) && meta_get_ok(inner, metas, strings, n)
    } else {
        r is None
    }
}

/// Returns the number of entries of a metadata list.
pub(crate) fn meta_count(metas: &Vec<MetaEntry>) -> (r: usize)
    ensures
        r == crate::data::metas_view(metas@).len(),
{
    metas.len()
}

/// Resolves the `n`-th entry of a metadata list through the string table.
pub(crate) fn meta_get<'a>(metas: &'a Vec<MetaEntry>, strings: StringTable<'a>, n: usize) -> (r:
    Result<Metadata<'a>, ReadError>)
    requires
        n < metas@.len(),
    ensures
        meta_get_ok(r, crate::data::metas_view(metas@), strings@, n as int),
{
    let entry: &MetaEntry = &metas[n];
    match strings.get(entry.name, "metadata name") {
        Ok(name) => Ok(Metadata { name, value: &entry.value }),
        Err(e) => Err(e),
    }
}

/// Each element of `r` resolves the corresponding entry of the metadata
/// list.
pub open spec fn meta_entries_ok(
    r: Seq<Result<Metadata, ReadError>>,
    metas: Seq<MetaModel>,
    strings: Seq<Seq<u8>>,
) -> bool {
    &&& r.len() == metas.len()
    &&& forall|i: int| 0 <= i < metas.len() ==> meta_get_ok(#[trigger] r[i], metas, strings, i)
}

/// Resolves every entry of a metadata list through the string table.
pub(crate) fn meta_entries<'a>(metas: &'a Vec<MetaEntry>, strings: StringTable<'a>) -> (r: Vec<
    Result<Metadata<'a>, ReadError>,
>)
    ensures
        meta_entries_ok(r@, crate::data::metas_view(metas@), strings@),
{
    let n: usize = metas.len();
    let mut out: Vec<Result<Metadata<'a>, ReadError>> = Vec::new();
    let mut i: usize = 0;
    while i < n
        invariant
            n == metas@.len(),
            i <= n,
            out@.len() == i,
            forall|j: int|
                0 <= j < i ==> meta_get_ok(
                    #[trigger] out@[j],
                    crate::data::metas_view(metas@),
                    strings@,
                    j,
                ),
        decreases n - i,
    {
        out.push(meta_get(metas, strings, i));
        i = i + 1;
    }
    out
}

/// Resolves the `n`-th entry of a metadata list, or returns `None` if `n` is
/// out of range.
pub(crate) fn meta_try_get<'a>(metas: &'a Vec<MetaEntry>, strings: StringTable<'a>, n: usize) -> (r:
    Option<Result<Metadata<'a>, ReadError>>)
    ensures
        meta_try_get_ok(r, crate::data::metas_view(metas@), strings@, n as int),
{
    if n < metas.len() {
        Some(meta_get(metas, strings, n))
    } else {
        None
    }
}

} // verus!
