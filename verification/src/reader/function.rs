//! Function definition in a jeff program.

use vstd::prelude::*;

use super::metadata::meta_get_ok;
use super::metadata::meta_try_get_ok;
use super::region::boundary_results_ok;
use super::region::Region;
use super::string_table::string_get_ok;
use super::string_table::StringTable;
use super::value::value_get_ok;
use super::value::FunctionIOValue;
use super::value::ValueTable;
use super::value::WireValue;
use super::ReadError;
use crate::data::DeclarationData;
use crate::data::DefinitionData;
use crate::model::def_wf;
use crate::model::DeclarationModel;
use crate::model::DefinitionModel;
use crate::model::FunctionModel;
use crate::model::ValueModel;

verus! {

/// Function index into the module's function table.
pub type FunctionId = u32;

/// Each element of `r` is `Ok` with the value found for the corresponding id
/// of `ids` in the value table `values`, as a function io value, or the
/// lookup error.
pub open spec fn io_results_ok(
    r: Seq<Result<FunctionIOValue, ReadError>>,
    ids: Seq<u32>,
    values: Seq<ValueModel>,
) -> bool {
    &&& r.len() == ids.len()
    &&& forall|i: int|
        0 <= i < ids.len() ==> {
            if (ids[i] as int) < values.len() {
                (#[trigger] r[i]) matches Ok(v) && v@ == values[ids[i] as int]
            } else {
                r[i] matches Err(ReadError::ValueOutOfBounds { idx, count }) && idx == ids[i]
                    && count == values.len()
            }
        }
}

/// Function in a jeff module.
#[derive(Clone, Copy, Debug)]
pub enum Function<'a> {
    /// Function definition with a body.
    Definition(FunctionDefinition<'a>),
    /// Function declaration with only a signature.
    Declaration(FunctionDeclaration<'a>),
}

impl<'a> View for Function<'a> {
    type V = FunctionModel;

    open spec fn view(&self) -> FunctionModel {
        match *self {
            Function::Definition(def) => FunctionModel::Definition(def@),
            Function::Declaration(decl) => FunctionModel::Declaration(decl@),
        }
    }
}

impl<'a> Function<'a> {
    /// The module string table.
    pub open spec fn strings_spec(&self) -> Seq<Seq<u8>> {
        match *self {
            Function::Definition(def) => def.strings_spec(),
            Function::Declaration(decl) => decl.strings_spec(),
        }
    }

    /// A definition's region arena is non-empty and has no dangling region
    /// references.
    pub open spec fn wf(&self) -> bool {
        match *self {
            Function::Definition(def) => def.wf(),
            Function::Declaration(_) => true,
        }
    }

    /// Returns the name of this function, resolved through the module string
    /// table.
    ///
    /// # Errors
    ///
    /// - [`ReadError::StringOutOfBounds`] if the name index is out of bounds.
    /// - [`ReadError::StringNotUtf8`] if the name is not valid UTF-8.
    pub fn name(&self) -> (r: Result<&'a str, ReadError>)
        ensures
            string_get_ok(r, self.strings_spec(), self@.name_idx(), "function name"@),
    {
        match self {
            Function::Definition(def) => def.name(),
            Function::Declaration(decl) => decl.name(),
        }
    }

    /// Returns the input types of this function.
    ///
    /// For a definition these are the boundary sources of its body region;
    /// for a declaration, its stored input list.
    ///
    /// # Errors
    ///
    /// - [`ReadError::ValueOutOfBounds`] if an encoded value of a definition
    ///   body references an invalid index in the value table.
    pub fn input_types(&self) -> (r: Vec<Result<FunctionIOValue<'a>, ReadError>>)
        requires
            self.wf(),
        ensures
            (self@ matches FunctionModel::Definition(d) ==> io_results_ok(
                r@,
                d.regions[0].sources,
                d.values,
            )),
            (self@ matches FunctionModel::Declaration(d) ==> all_io_values(r@, d.inputs)),
    {
        match self {
            Function::Definition(def) => def.io_values(true),
            Function::Declaration(decl) => decl.input_types(),
        }
    }

    /// Returns the output types of this function.
    ///
    /// For a definition these are the boundary targets of its body region;
    /// for a declaration, its stored output list.
    ///
    /// # Errors
    ///
    /// - [`ReadError::ValueOutOfBounds`] if an encoded value of a definition
    ///   body references an invalid index in the value table.
    pub fn output_types(&self) -> (r: Vec<Result<FunctionIOValue<'a>, ReadError>>)
        requires
            self.wf(),
        ensures
            (self@ matches FunctionModel::Definition(d) ==> io_results_ok(
                r@,
                d.regions[0].targets,
                d.values,
            )),
            (self@ matches FunctionModel::Declaration(d) ==> all_io_values(r@, d.outputs)),
    {
        match self {
            Function::Definition(def) => def.io_values(false),
            Function::Declaration(decl) => decl.output_types(),
        }
    }

    /// Returns the number of metadata entries attached to this function.
    pub fn metadata_count(&self) -> (r: usize)
        ensures
            r == self@.metadata_spec().len(),
    {
        match self {
            Function::Definition(def) => def.metadata_count(),
            Function::Declaration(decl) => decl.metadata_count(),
        }
    }

    /// Returns the `n`-th metadata entry attached to this function.
    pub fn metadata(&self, n: usize) -> (r: Result<super::Metadata<'a>, ReadError>)
        requires
            n < self@.metadata_spec().len(),
        ensures
            meta_get_ok(r, self@.metadata_spec(), self.strings_spec(), n as int),
    {
        match self {
            Function::Definition(def) => def.metadata(n),
            Function::Declaration(decl) => decl.metadata(n),
        }
    }

    /// Returns the `n`-th metadata entry attached to this function, or
    /// `None` if `n` is out of range.
    pub fn try_metadata(&self, n: usize) -> (r: Option<Result<super::Metadata<'a>, ReadError>>)
        ensures
            meta_try_get_ok(r, self@.metadata_spec(), self.strings_spec(), n as int),
    {
        match self {
            Function::Definition(def) => def.try_metadata(n),
            Function::Declaration(decl) => decl.try_metadata(n),
        }
    }
}

impl FunctionModel {
    /// The string-table index of the function's name.
    pub open spec fn name_idx(&self) -> u16 {
        match *self {
            FunctionModel::Definition(d) => d.name,
            FunctionModel::Declaration(d) => d.name,
        }
    }

    /// The function's metadata entries.
    pub open spec fn metadata_spec(&self) -> Seq<crate::model::MetaModel> {
        match *self {
            FunctionModel::Definition(d) => d.metadata,
            FunctionModel::Declaration(d) => d.metadata,
        }
    }
}

/// Each element of `r` is `Ok` with the corresponding value of `values`.
pub open spec fn all_io_values(
    r: Seq<Result<FunctionIOValue, ReadError>>,
    values: Seq<ValueModel>,
) -> bool {
    &&& r.len() == values.len()
    &&& forall|i: int|
        0 <= i < values.len() ==> ((#[trigger] r[i]) matches Ok(v) && v@ == values[i])
}

/// A definition's signature is its body region's boundary: results that
/// satisfy the contract of [`Function::input_types`] (or
/// [`Function::output_types`]) agree pointwise with results that satisfy the
/// contract of the body's boundary accessors ([`Region::sources`] or
/// [`Region::targets`]) over the same hyperedge ids and value table: the
/// same lookups succeed, successes carry the same value descriptor, and
/// failures carry the same error.
pub proof fn lemma_signature_matches_body_boundary(
    r_io: Seq<Result<FunctionIOValue, ReadError>>,
    r_wire: Seq<Result<WireValue, ReadError>>,
    ids: Seq<u32>,
    values: Seq<crate::model::ValueModel>,
)
    requires
        io_results_ok(r_io, ids, values),
        boundary_results_ok(r_wire, ids, values),
    ensures
        r_io.len() == r_wire.len(),
        forall|i: int|
            0 <= i < ids.len() ==> match (#[trigger] r_io[i], #[trigger] r_wire[i]) {
                (Ok(v), Ok(w)) => v@ == w@.value,
                (Err(e1), Err(e2)) => e1 == e2,
                _ => false,
            },
{
    assert forall|i: int| 0 <= i < ids.len() implies match (
        #[trigger] r_io[i],
        #[trigger] r_wire[i],
    ) {
        (Ok(v), Ok(w)) => v@ == w@.value,
        (Err(e1), Err(e2)) => e1 == e2,
        _ => false,
    } by {
        assert(value_get_ok(r_wire[i], values, ids[i]));
    }
}

/// Function definition in a jeff module.
#[derive(Clone, Copy, Debug)]
pub struct FunctionDefinition<'a> {
    /// The underlying function definition data.
    def: &'a DefinitionData,
    /// Module-level register of reused strings.
    strings: StringTable<'a>,
}

impl<'a> View for FunctionDefinition<'a> {
    type V = DefinitionModel;

    closed spec fn view(&self) -> DefinitionModel {
        self.def@
    }
}

impl<'a> FunctionDefinition<'a> {
    /// The module string table.
    pub closed spec fn strings_spec(&self) -> Seq<Seq<u8>> {
        self.strings@
    }

    /// The region arena is non-empty and has no dangling region references.
    pub open spec fn wf(&self) -> bool {
        def_wf(self@)
    }

    /// Create a view of a function definition.
    pub(crate) fn new(def: &'a DefinitionData, strings: StringTable<'a>) -> (r:
        FunctionDefinition<'a>)
        ensures
            r@ == def@,
            r.strings_spec() == strings@,
    {
        FunctionDefinition { def, strings }
    }

    /// Returns the name of this function, resolved through the module string
    /// table.
    ///
    /// # Errors
    ///
    /// - [`ReadError::StringOutOfBounds`] if the name index is out of bounds.
    /// - [`ReadError::StringNotUtf8`] if the name is not valid UTF-8.
    pub fn name(&self) -> (r: Result<&'a str, ReadError>)
        ensures
            string_get_ok(r, self.strings_spec(), self@.name, "function name"@),
    {
        self.strings.get(self.def.name, "function name")
    }

    /// Returns the dataflow region associated with this function.
    pub fn body(&self) -> (r: Region<'a>)
        requires
            self.wf(),
        ensures
            r@ == self@.regions[0],
            r.idx_spec() == 0,
            r.wf(),
            r.arena() == self@.regions,
            r.strings_spec() == self.strings_spec(),
            r.values_spec() == self@.values,
    {
        Region::new(&self.def.regions, 0, self.strings, self.values())
    }

    /// Returns the value table associated with this function.
    pub fn values(&self) -> (r: ValueTable<'a>)
        ensures
            r@ == self@.values,
            r.strings_spec() == self.strings_spec(),
    {
        ValueTable::new(&self.def.values, self.strings)
    }

    /// Returns the input types of this function: the boundary sources of its
    /// body region, resolved through the value table.
    ///
    /// # Errors
    ///
    /// - [`ReadError::ValueOutOfBounds`] if an encoded value references an
    ///   invalid index in the value table.
    pub fn input_types(&self) -> (r: Vec<Result<WireValue<'a>, ReadError>>)
        requires
            self.wf(),
        ensures
            boundary_results_ok(r@, self@.regions[0].sources, self@.values),
    {
        self.body().sources()
    }

    /// Returns the output types of this function: the boundary targets of
    /// its body region, resolved through the value table.
    ///
    /// # Errors
    ///
    /// - [`ReadError::ValueOutOfBounds`] if an encoded value references an
    ///   invalid index in the value table.
    pub fn output_types(&self) -> (r: Vec<Result<WireValue<'a>, ReadError>>)
        requires
            self.wf(),
        ensures
            boundary_results_ok(r@, self@.regions[0].targets, self@.values),
    {
        self.body().targets()
    }

    /// Returns the boundary values of the body region in one direction, as
    /// function io values.
    fn io_values(&self, incoming: bool) -> (r: Vec<Result<FunctionIOValue<'a>, ReadError>>)
        requires
            self.wf(),
        ensures
            incoming ==> io_results_ok(r@, self@.regions[0].sources, self@.values),
            !incoming ==> io_results_ok(r@, self@.regions[0].targets, self@.values),
    {
        let wires: Vec<Result<WireValue<'a>, ReadError>> = if incoming {
            self.input_types()
        } else {
            self.output_types()
        };
        let ghost ids: Seq<u32> = if incoming {
            self@.regions[0].sources
        } else {
            self@.regions[0].targets
        };
        let n: usize = wires.len();
        let mut out: Vec<Result<FunctionIOValue<'a>, ReadError>> = Vec::new();
        let mut i: usize = 0;
        while i < n
            invariant
                n == wires@.len(),
                i <= n,
                out@.len() == i,
                boundary_results_ok(wires@, ids, self@.values),
                forall|j: int|
                    0 <= j < i ==> {
                        if (ids[j] as int) < self@.values.len() {
                            (#[trigger] out@[j]) matches Ok(v) && v@ == self@.values[ids[j] as int]
                        } else {
                            out@[j] matches Err(ReadError::ValueOutOfBounds { idx, count }) && idx
                                == ids[j] && count == self@.values.len()
                        }
                    },
            decreases n - i,
        {
            proof {
                assert(value_get_ok(wires@[i as int], self@.values, ids[i as int]));
            }
            let entry: Result<FunctionIOValue<'a>, ReadError> = match &wires[i] {
                Ok(wv) => Ok(FunctionIOValue::from_wire(*wv)),
                Err(e) => Err(*e),
            };
            out.push(entry);
            i = i + 1;
        }
        out
    }

    /// Returns the number of metadata entries attached to this function.
    pub fn metadata_count(&self) -> (r: usize)
        ensures
            r == self@.metadata.len(),
    {
        super::metadata::meta_count(&self.def.metadata)
    }

    /// Returns the `n`-th metadata entry attached to this function.
    pub fn metadata(&self, n: usize) -> (r: Result<super::Metadata<'a>, ReadError>)
        requires
            n < self@.metadata.len(),
        ensures
            meta_get_ok(r, self@.metadata, self.strings_spec(), n as int),
    {
        super::metadata::meta_get(&self.def.metadata, self.strings, n)
    }

    /// Returns the `n`-th metadata entry attached to this function, or
    /// `None` if `n` is out of range.
    pub fn try_metadata(&self, n: usize) -> (r: Option<Result<super::Metadata<'a>, ReadError>>)
        ensures
            meta_try_get_ok(r, self@.metadata, self.strings_spec(), n as int),
    {
        super::metadata::meta_try_get(&self.def.metadata, self.strings, n)
    }
}

/// Function declaration in a jeff module.
#[derive(Clone, Copy, Debug)]
pub struct FunctionDeclaration<'a> {
    /// The underlying function declaration data.
    decl: &'a DeclarationData,
    /// Module-level register of reused strings.
    strings: StringTable<'a>,
}

impl<'a> View for FunctionDeclaration<'a> {
    type V = DeclarationModel;

    closed spec fn view(&self) -> DeclarationModel {
        self.decl@
    }
}

impl<'a> FunctionDeclaration<'a> {
    /// The module string table.
    pub closed spec fn strings_spec(&self) -> Seq<Seq<u8>> {
        self.strings@
    }

    /// Create a view of a function declaration.
    pub(crate) fn new(decl: &'a DeclarationData, strings: StringTable<'a>) -> (r:
        FunctionDeclaration<'a>)
        ensures
            r@ == decl@,
            r.strings_spec() == strings@,
    {
        FunctionDeclaration { decl, strings }
    }

    /// Returns the name of this function, resolved through the module string
    /// table.
    ///
    /// # Errors
    ///
    /// - [`ReadError::StringOutOfBounds`] if the name index is out of bounds.
    /// - [`ReadError::StringNotUtf8`] if the name is not valid UTF-8.
    pub fn name(&self) -> (r: Result<&'a str, ReadError>)
        ensures
            string_get_ok(r, self.strings_spec(), self@.name, "function name"@),
    {
        self.strings.get(self.decl.name, "function name")
    }

    /// Returns the input types of this function, from its stored input list.
    /// These never fail: declaration signatures are table-free lists.
    pub fn input_types(&self) -> (r: Vec<Result<FunctionIOValue<'a>, ReadError>>)
        ensures
            all_io_values(r@, self@.inputs),
    {
        io_list(&self.decl.inputs, self.strings)
    }

    /// Returns the output types of this function, from its stored output
    /// list. These never fail: declaration signatures are table-free lists.
    pub fn output_types(&self) -> (r: Vec<Result<FunctionIOValue<'a>, ReadError>>)
        ensures
            all_io_values(r@, self@.outputs),
    {
        io_list(&self.decl.outputs, self.strings)
    }

    /// Returns the number of metadata entries attached to this function.
    pub fn metadata_count(&self) -> (r: usize)
        ensures
            r == self@.metadata.len(),
    {
        super::metadata::meta_count(&self.decl.metadata)
    }

    /// Returns the `n`-th metadata entry attached to this function.
    pub fn metadata(&self, n: usize) -> (r: Result<super::Metadata<'a>, ReadError>)
        requires
            n < self@.metadata.len(),
        ensures
            meta_get_ok(r, self@.metadata, self.strings_spec(), n as int),
    {
        super::metadata::meta_get(&self.decl.metadata, self.strings, n)
    }

    /// Returns the `n`-th metadata entry attached to this function, or
    /// `None` if `n` is out of range.
    pub fn try_metadata(&self, n: usize) -> (r: Option<Result<super::Metadata<'a>, ReadError>>)
        ensures
            meta_try_get_ok(r, self@.metadata, self.strings_spec(), n as int),
    {
        super::metadata::meta_try_get(&self.decl.metadata, self.strings, n)
    }
}

/// Wraps each value of a list as an `Ok` function io value.
fn io_list<'a>(values: &'a Vec<crate::data::ValueData>, strings: StringTable<'a>) -> (r: Vec<
    Result<FunctionIOValue<'a>, ReadError>,
>)
    ensures
        all_io_values(r@, crate::data::values_view(values@)),
{
    let n: usize = values.len();
    let mut out: Vec<Result<FunctionIOValue<'a>, ReadError>> = Vec::new();
    let mut i: usize = 0;
    while i < n
        invariant
            n == values@.len(),
            i <= n,
            out@.len() == i,
            forall|j: int|
                0 <= j < i ==> ((#[trigger] out@[j]) matches Ok(v) && v@
                    == crate::data::values_view(values@)[j]),
        decreases n - i,
    {
        out.push(Ok(FunctionIOValue::new(&values[i], strings)));
        i = i + 1;
    }
    out
}

} // verus!
