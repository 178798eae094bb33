//! Top-level module definition in a jeff program.

use vstd::prelude::*;
use vstd::utf8::decode_utf8;
use vstd::utf8::valid_utf8;

use super::function::Function;
use super::function::FunctionDeclaration;
use super::function::FunctionDefinition;
use super::function::FunctionId;
use super::metadata::meta_get_ok;
use super::metadata::meta_try_get_ok;
use super::string_table::StringTable;
use super::ReadError;
use crate::data::FunctionData;
use crate::data::ModuleData;
use crate::model::function_wf;
use crate::model::module_wf;
use crate::model::ModuleModel;

verus! {

/// Top-level module definition in a jeff program.
#[derive(Clone, Copy, Debug)]
pub struct Module<'a> {
    /// The decoded module.
    data: &'a ModuleData,
}

impl<'a> View for Module<'a> {
    type V = ModuleModel;

    closed spec fn view(&self) -> ModuleModel {
        self.data@
    }
}

impl<'a> Module<'a> {
    /// Every function definition of the module has a body region and only
    /// in-range region references.
    pub open spec fn wf(&self) -> bool {
        module_wf(self@)
    }

    /// Create a view of a decoded module.
    pub(crate) fn new(data: &'a ModuleData) -> (r: Module<'a>)
        ensures
            r@ == data@,
    {
        Module { data }
    }

    /// Version of the jeff protocol used in this module.
    pub fn version(&self) -> (r: u32)
        ensures
            r == self@.version,
    {
        self.data.version
    }

    /// Returns the functions defined in this module, in declared order.
    pub fn functions(&self) -> (r: Vec<Function<'a>>)
        requires
            self.wf(),
        ensures
            r@.len() == self@.functions.len(),
            forall|i: int|
                0 <= i < r@.len() ==> {
                    &&& (#[trigger] r@[i])@ == self@.functions[i]
                    &&& r@[i].wf()
                    &&& r@[i].strings_spec() == self@.strings
                },
    {
        let n: usize = self.data.functions.len();
        let mut out: Vec<Function<'a>> = Vec::new();
        let mut i: usize = 0;
        while i < n
            invariant
                n == self@.functions.len(),
                i <= n,
                out@.len() == i,
                self.wf(),
                forall|j: int|
                    0 <= j < i ==> {
                        &&& (#[trigger] out@[j])@ == self@.functions[j]
                        &&& out@[j].wf()
                        &&& out@[j].strings_spec() == self@.strings
                    },
            decreases n - i,
        {
            out.push(self.function_at(i));
            i = i + 1;
        }
        out
    }

    /// Returns the number of functions defined in this module.
    pub fn function_count(&self) -> (r: usize)
        ensures
            r == self@.functions.len(),
    {
        self.data.functions.len()
    }

    /// Returns the `n`-th function defined in this module.
    pub fn function(&self, n: FunctionId) -> (r: Function<'a>)
        requires
            self.wf(),
            n < self@.functions.len(),
        ensures
            r@ == self@.functions[n as int],
            r.wf(),
            r.strings_spec() == self@.strings,
    {
        self.function_at(n as usize)
    }

    /// Returns the `n`-th function defined in this module, or `None` if `n`
    /// is equal or greater than the function count.
    pub fn try_function(&self, n: FunctionId) -> (r: Option<Function<'a>>)
        requires
            self.wf(),
        ensures
            (n as int) < self@.functions.len() ==> (r matches Some(f) && f@ == self@.functions[
                n as int] && f.wf() && f.strings_spec() == self@.strings),
            n as int >= self@.functions.len() ==> r is None,
    {
        if (n as usize) < self.data.functions.len() {
            Some(self.function_at(n as usize))
        } else {
            None
        }
    }

    /// Returns the `n`-th function of the module.
    fn function_at(&self, n: usize) -> (r: Function<'a>)
        requires
            self.wf(),
            n < self@.functions.len(),
        ensures
            r@ == self@.functions[n as int],
            r.wf(),
            r.strings_spec() == self@.strings,
    {
        proof {
            assert(function_wf(self@.functions[n as int]));
        }
        let strings = self.strings();
        match &self.data.functions[n] {
            FunctionData::Definition(def) => Function::Definition(
                FunctionDefinition::new(def, strings),
            ),
            FunctionData::Declaration(decl) => Function::Declaration(
                FunctionDeclaration::new(decl, strings),
            ),
        }
    }

    /// Returns the internal storage of strings.
    pub fn strings(&self) -> (r: StringTable<'a>)
        ensures
            r@ == self@.strings,
    {
        StringTable::new(&self.data.strings)
    }

    /// Returns the [FunctionId] of the entrypoint function for this module.
    pub fn entrypoint_id(&self) -> (r: FunctionId)
        ensures
            r == self@.entrypoint,
    {
        self.data.entrypoint
    }

    /// Returns the entrypoint function for this module: the function at
    /// index [`Module::entrypoint_id`].
    pub fn entrypoint(&self) -> (r: Function<'a>)
        requires
            self.wf(),
            self@.entrypoint < self@.functions.len(),
        ensures
            r@ == self@.functions[self@.entrypoint as int],
            r.wf(),
            r.strings_spec() == self@.strings,
    {
        self.function(self.data.entrypoint)
    }

    /// Returns the tool name used to generate this program, or the empty
    /// string if it is not valid UTF-8.
    ///
    /// See [`Module::tool_version`].
    pub fn tool(&self) -> (r: &'a str)
        ensures
            valid_utf8(self@.tool) ==> r@ == decode_utf8(self@.tool),
            !valid_utf8(self@.tool) ==> r@ == Seq::<char>::empty(),
    {
        match crate::strutil::bytes_to_str(&self.data.tool) {
            Some(s) => s,
            None => {
                proof {
                    reveal_strlit("");
                }
                assert(""@ =~= Seq::<char>::empty());
                ""
            },
        }
    }

    /// Returns the tool version used to generate this program, or the empty
    /// string if it is not valid UTF-8.
    ///
    /// See [`Module::tool`].
    pub fn tool_version(&self) -> (r: &'a str)
        ensures
            valid_utf8(self@.tool_version) ==> r@ == decode_utf8(self@.tool_version),
            !valid_utf8(self@.tool_version) ==> r@ == Seq::<char>::empty(),
    {
        match crate::strutil::bytes_to_str(&self.data.tool_version) {
            Some(s) => s,
            None => {
                proof {
                    reveal_strlit("");
                }
                assert(""@ =~= Seq::<char>::empty());
                ""
            },
        }
    }

    /// Returns the number of metadata entries attached to this module.
    pub fn metadata_count(&self) -> (r: usize)
        ensures
            r == self@.metadata.len(),
    {
        super::metadata::meta_count(&self.data.metadata)
    }

    /// Returns all metadata entries attached to this module, in order.
    pub fn metadata_entries(&self) -> (r: Vec<Result<super::Metadata<'a>, ReadError>>)
        ensures
            super::metadata::meta_entries_ok(r@, self@.metadata, self@.strings),
    {
        super::metadata::meta_entries(&self.data.metadata, self.strings())
    }

    /// Returns the `n`-th metadata entry attached to this module.
    pub fn metadata(&self, n: usize) -> (r: Result<super::Metadata<'a>, ReadError>)
        requires
            n < self@.metadata.len(),
        ensures
            meta_get_ok(r, self@.metadata, self@.strings, n as int),
    {
        super::metadata::meta_get(&self.data.metadata, self.strings(), n)
    }

    /// Returns the `n`-th metadata entry attached to this module, or `None`
    /// if `n` is out of range.
    pub fn try_metadata(&self, n: usize) -> (r: Option<Result<super::Metadata<'a>, ReadError>>)
        ensures
            meta_try_get_ok(r, self@.metadata, self@.strings, n as int),
    {
        super::metadata::meta_try_get(&self.data.metadata, self.strings(), n)
    }
}

} // verus!
