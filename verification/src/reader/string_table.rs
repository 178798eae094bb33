//! Common string table stored at the module level.

use vstd::prelude::*;
use vstd::utf8::decode_utf8;
use vstd::utf8::valid_utf8;

use super::ReadError;
use crate::strutil::bytes_to_str;

verus! {

/// A string table stored at the module level.
///
/// Strings are kept as raw bytes; each lookup re-validates the entry as
/// UTF-8.
#[derive(Clone, Copy, Debug)]
pub struct StringTable<'a> {
    /// The interned strings, as raw bytes.
    strings: &'a Vec<Vec<u8>>,
}

impl<'a> View for StringTable<'a> {
    type V = Seq<Seq<u8>>;

    closed spec fn view(&self) -> Seq<Seq<u8>> {
        crate::data::strings_view(self.strings@)
    }
}

/// What [`StringTable::get`] returns for index `idx` of a table: the decoded
/// string for a valid index holding valid UTF-8, and the exact typed error
/// otherwise.
pub open spec fn string_get_ok(
    r: Result<&str, ReadError>,
    strings: Seq<Seq<u8>>,
    idx: u16,
    context: Seq<char>,
) -> bool {
    if idx as int >= strings.len() {
        r matches Err(ReadError::StringOutOfBounds { context: c, idx: i, count }) && c@ == context
            && i == idx as u32 && count == strings.len()
    } else if !valid_utf8(strings[idx as int]) {
        r matches Err(ReadError::StringNotUtf8 { context: c, idx: i }) && c@ == context && i == idx
            as u32
    } else {
        r matches Ok(s) && s@ == decode_utf8(strings[idx as int])
    }
}

impl<'a> StringTable<'a> {
    /// Create a new string table over a list of raw strings.
    pub(crate) fn new(strings: &'a Vec<Vec<u8>>) -> (r: StringTable<'a>)
        ensures
            r@ == crate::data::strings_view(strings@),
    {
        StringTable { strings }
    }

    /// Returns the string at the given index.
    ///
    /// `access_context` is a static label identifying the call site, used
    /// purely for diagnostics.
    ///
    /// # Errors
    ///
    /// - [`ReadError::StringOutOfBounds`] if the index is out of bounds.
    /// - [`ReadError::StringNotUtf8`] if the string is not valid UTF-8.
    pub fn get(&self, idx: u16, access_context: &'static str) -> (r: Result<&'a str, ReadError>)
        ensures
            string_get_ok(r, self@, idx, access_context@),
    {
        if idx as usize >= self.strings.len() {
            return Err(
                ReadError::StringOutOfBounds {
                    context: access_context,
                    idx: idx as u32,
                    count: self.strings.len(),
                },
            );
        }
        let bytes: &Vec<u8> = &self.strings[idx as usize];
        assert(bytes@ == self@[idx as int]);
        match bytes_to_str(bytes) {
            Some(s) => Ok(s),
            None => Err(ReadError::StringNotUtf8 { context: access_context, idx: idx as u32 }),
        }
    }

    /// Returns the number of strings in this table.
    pub fn len(&self) -> (r: usize)
        ensures
            r == self@.len(),
    {
        self.strings.len()
    }
}

} // verus!
