//! View of jeff data.
//!
//! Programs are composed of a top-level [`Module`] that contains a list of
//! [`Function`]s.

use vstd::prelude::*;

pub mod function;
pub mod metadata;
pub mod module;
pub mod op;
pub mod optype;
pub mod region;
pub mod string_table;
pub mod value;

pub use function::Function;
pub use function::FunctionDeclaration;
pub use function::FunctionDefinition;
pub use function::FunctionId;
pub use metadata::Metadata;
pub use module::Module;
pub use op::Operation;
pub use region::Region;
pub use string_table::StringTable;
pub use value::FunctionIOValue;
pub use value::ValueId;
pub use value::ValueTable;
pub use value::WireValue;

verus! {

/// Errors that can occur when accessing a jeff program.
#[derive(Clone, Copy, Debug, PartialEq, Eq)]
pub enum ReadError {
    /// String index into the module's string table was out of bounds.
    StringOutOfBounds {
        /// The context in which the error occurred.
        context: &'static str,
        /// The requested index into the module's strings.
        idx: u32,
        /// The total number of entries in the module's strings.
        count: usize,
    },
    /// The encoded string was not valid UTF-8.
    StringNotUtf8 {
        /// The context in which the error occurred.
        context: &'static str,
        /// The requested index into the module's strings.
        idx: u32,
    },
    /// Value index into the function's value table was out of bounds.
    ValueOutOfBounds {
        /// The requested index into the function values.
        idx: u32,
        /// The total number of entries in the function values.
        count: usize,
    },
}

} // verus!
