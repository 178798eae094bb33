//! Node operation definitions.

use vstd::prelude::*;

use super::metadata::meta_get_ok;
use super::metadata::meta_try_get_ok;
use super::optype::OpType;
use super::region::arena_wf;
use super::region::boundary_results_ok;
use super::string_table::StringTable;
use super::value::value_get_ok;
use super::value::ValueTable;
use super::value::WireValue;
use super::ReadError;
use crate::data::OpData;
use crate::data::RegionData;
use crate::model::op_type_refs_ok;
use crate::model::OpModel;
use crate::model::RegionModel;
use crate::model::ValueModel;
use crate::types::Type;
use crate::Direction;

verus! {

/// Each element of `r` is the type of the value found for the corresponding
/// id of `ids` in the value table `values`, or the lookup error.
pub open spec fn type_results_ok(
    r: Seq<Result<Type, ReadError>>,
    ids: Seq<u32>,
    values: Seq<ValueModel>,
) -> bool {
    &&& r.len() == ids.len()
    &&& forall|i: int|
        0 <= i < ids.len() ==> {
            if (ids[i] as int) < values.len() {
                (#[trigger] r[i]) matches Ok(t) && t == values[ids[i] as int].ty
            } else {
                r[i] matches Err(ReadError::ValueOutOfBounds { idx, count }) && idx == ids[i]
                    && count == values.len()
            }
        }
}

/// Operation in a dataflow graph.
#[derive(Clone, Copy, Debug)]
pub struct Operation<'a> {
    /// The underlying operation data.
    op: &'a OpData,
    /// The owning function's region arena.
    regions: &'a Vec<RegionData>,
    /// Module-level register of reused strings.
    strings: StringTable<'a>,
    /// Function-level register of typed hyperedges.
    values: ValueTable<'a>,
}

impl<'a> View for Operation<'a> {
    type V = OpModel;

    closed spec fn view(&self) -> OpModel {
        self.op@
    }
}

impl<'a> Operation<'a> {
    /// The owning function's region arena.
    pub closed spec fn arena(&self) -> Seq<RegionModel> {
        crate::data::regions_view(self.regions@)
    }

    /// The function's value table.
    pub closed spec fn values_spec(&self) -> Seq<ValueModel> {
        self.values@
    }

    /// The module string table.
    pub closed spec fn strings_spec(&self) -> Seq<Seq<u8>> {
        self.strings@
    }

    /// The operation's child-region references stay inside the arena, and
    /// the arena has no dangling region references of its own.
    pub open spec fn wf(&self) -> bool {
        &&& op_type_refs_ok(self@.op_type, self.arena().len() as int)
        &&& arena_wf(self.arena())
    }

    /// Create a view of an operation of a region of the arena.
    pub(crate) fn new(
        op: &'a OpData,
        regions: &'a Vec<RegionData>,
        strings: StringTable<'a>,
        values: ValueTable<'a>,
    ) -> (r: Operation<'a>)
        ensures
            r@ == op@,
            r.arena() == crate::data::regions_view(regions@),
            r.strings_spec() == strings@,
            r.values_spec() == values@,
    {
        Operation { op, regions, strings, values }
    }

    /// Returns the type of this operation.
    pub fn op_type(&self) -> (r: OpType<'a>)
        requires
            self.wf(),
        ensures
            r@ == self@.op_type,
            r.wf(),
            r.links(self.arena(), self.strings_spec(), self.values_spec()),
    {
        OpType::new(&self.op.op_type, self.regions, self.strings, self.values)
    }

    /// The boundary ids of this operation in the given direction: inputs for
    /// incoming, outputs for outgoing.
    pub open spec fn boundary_ids(&self, direction: Direction) -> Seq<u32> {
        match direction {
            Direction::Incoming => self@.inputs,
            Direction::Outgoing => self@.outputs,
        }
    }

    /// Returns the input or output values of this operation, resolved
    /// through the function's value table.
    ///
    /// # Errors
    ///
    /// - [`ReadError::ValueOutOfBounds`] if an encoded value references an
    ///   invalid index in the value table.
    pub fn boundary(&self, direction: Direction) -> (r: Vec<Result<WireValue<'a>, ReadError>>)
        ensures
            boundary_results_ok(r@, self.boundary_ids(direction), self.values_spec()),
    {
        let ids: &Vec<u32> = match direction {
            Direction::Incoming => &self.op.inputs,
            Direction::Outgoing => &self.op.outputs,
        };
        assert(ids@ == self.boundary_ids(direction));
        let n: usize = ids.len();
        let mut out: Vec<Result<WireValue<'a>, ReadError>> = Vec::new();
        let mut i: usize = 0;
        while i < n
            invariant
                n == ids@.len(),
                i <= n,
                out@.len() == i,
                self.values@ == self.values_spec(),
                forall|j: int|
                    0 <= j < i ==> value_get_ok(#[trigger] out@[j], self.values_spec(), ids@[j]),
            decreases n - i,
        {
            out.push(self.values.get(ids[i]));
            i = i + 1;
        }
        out
    }

    /// Return the input values of this operation.
    ///
    /// # Errors
    ///
    /// - [`ReadError::ValueOutOfBounds`] if an encoded value references an
    ///   invalid index in the value table.
    pub fn inputs(&self) -> (r: Vec<Result<WireValue<'a>, ReadError>>)
        ensures
            boundary_results_ok(r@, self@.inputs, self.values_spec()),
    {
        self.boundary(Direction::Incoming)
    }

    /// Return the output values of this operation.
    ///
    /// # Errors
    ///
    /// - [`ReadError::ValueOutOfBounds`] if an encoded value references an
    ///   invalid index in the value table.
    pub fn outputs(&self) -> (r: Vec<Result<WireValue<'a>, ReadError>>)
        ensures
            boundary_results_ok(r@, self@.outputs, self.values_spec()),
    {
        self.boundary(Direction::Outgoing)
    }

    /// Returns the number of input or output values in this operation.
    pub fn boundary_count(&self, direction: Direction) -> (r: usize)
        ensures
            r == self.boundary_ids(direction).len(),
    {
        match direction {
            Direction::Incoming => self.op.inputs.len(),
            Direction::Outgoing => self.op.outputs.len(),
        }
    }

    /// Returns the number of input values in this operation.
    pub fn input_count(&self) -> (r: usize)
        ensures
            r == self@.inputs.len(),
    {
        self.boundary_count(Direction::Incoming)
    }

    /// Returns the number of output values in this operation.
    pub fn output_count(&self) -> (r: usize)
        ensures
            r == self@.outputs.len(),
    {
        self.boundary_count(Direction::Outgoing)
    }

    /// Returns the boundary value at the given index, or `None` if the index
    /// is out of bounds.
    ///
    /// # Errors
    ///
    /// - [`ReadError::ValueOutOfBounds`] if the encoded value references an
    ///   invalid index in the value table.
    pub fn boundary_value(&self, direction: Direction, idx: usize) -> (r: Option<
        Result<WireValue<'a>, ReadError>,
    >)
        ensures
            idx < self.boundary_ids(direction).len() ==> (r matches Some(res) && value_get_ok(
                res,
                self.values_spec(),
                self.boundary_ids(direction)[idx as int],
            )),
            idx >= self.boundary_ids(direction).len() ==> r is None,
    {
        let ids: &Vec<u32> = match direction {
            Direction::Incoming => &self.op.inputs,
            Direction::Outgoing => &self.op.outputs,
        };
        assert(ids@ == self.boundary_ids(direction));
        if idx >= ids.len() {
            return None;
        }
        Some(self.values.get(ids[idx]))
    }

    /// Returns the input value at the given index, or `None` if the index is
    /// out of bounds.
    ///
    /// # Errors
    ///
    /// - [`ReadError::ValueOutOfBounds`] if the encoded value references an
    ///   invalid index in the value table.
    pub fn input(&self, idx: usize) -> (r: Option<Result<WireValue<'a>, ReadError>>)
        ensures
            idx < self@.inputs.len() ==> (r matches Some(res) && value_get_ok(
                res,
                self.values_spec(),
                self@.inputs[idx as int],
            )),
            idx >= self@.inputs.len() ==> r is None,
    {
        self.boundary_value(Direction::Incoming, idx)
    }

    /// Returns the output value at the given index, or `None` if the index
    /// is out of bounds.
    ///
    /// # Errors
    ///
    /// - [`ReadError::ValueOutOfBounds`] if the encoded value references an
    ///   invalid index in the value table.
    pub fn output(&self, idx: usize) -> (r: Option<Result<WireValue<'a>, ReadError>>)
        ensures
            idx < self@.outputs.len() ==> (r matches Some(res) && value_get_ok(
                res,
                self.values_spec(),
                self@.outputs[idx as int],
            )),
            idx >= self@.outputs.len() ==> r is None,
    {
        self.boundary_value(Direction::Outgoing, idx)
    }

    /// Returns the types of the input values of this operation.
    ///
    /// # Errors
    ///
    /// - [`ReadError::ValueOutOfBounds`] if an encoded value references an
    ///   invalid index in the value table.
    pub fn input_types(&self) -> (r: Vec<Result<Type, ReadError>>)
        ensures
            type_results_ok(r@, self@.inputs, self.values_spec()),
    {
        self.boundary_types(Direction::Incoming)
    }

    /// Returns the types of the output values of this operation.
    ///
    /// # Errors
    ///
    /// - [`ReadError::ValueOutOfBounds`] if an encoded value references an
    ///   invalid index in the value table.
    pub fn output_types(&self) -> (r: Vec<Result<Type, ReadError>>)
        ensures
            type_results_ok(r@, self@.outputs, self.values_spec()),
    {
        self.boundary_types(Direction::Outgoing)
    }

    /// Returns the types of the boundary values of this operation in the
    /// given direction.
    fn boundary_types(&self, direction: Direction) -> (r: Vec<Result<Type, ReadError>>)
        ensures
            type_results_ok(r@, self.boundary_ids(direction), self.values_spec()),
    {
        let resolved: Vec<Result<WireValue<'a>, ReadError>> = self.boundary(direction);
        let n: usize = resolved.len();
        let mut out: Vec<Result<Type, ReadError>> = Vec::new();
        let mut i: usize = 0;
        while i < n
            invariant
                n == resolved@.len(),
                i <= n,
                out@.len() == i,
                boundary_results_ok(resolved@, self.boundary_ids(direction), self.values_spec()),
                forall|j: int|
                    0 <= j < i ==> {
                        if (self.boundary_ids(direction)[j] as int) < self.values_spec().len() {
                            (#[trigger] out@[j]) matches Ok(t) && t == self.values_spec()[
                                self.boundary_ids(direction)[j] as int].ty
                        } else {
                            out@[j] matches Err(ReadError::ValueOutOfBounds { idx, count }) && idx
                                == self.boundary_ids(direction)[j] && count
                                == self.values_spec().len()
                        }
                    },
            decreases n - i,
        {
            let entry: Result<Type, ReadError> = match &resolved[i] {
                Ok(wv) => Ok(wv.ty()),
                Err(e) => Err(*e),
            };
            out.push(entry);
            i = i + 1;
        }
        out
    }

    /// Returns the number of metadata entries attached to this operation.
    pub fn metadata_count(&self) -> (r: usize)
        ensures
            r == self@.metadata.len(),
    {
        super::metadata::meta_count(&self.op.metadata)
    }

    /// Returns all metadata entries attached to this operation, in order.
    pub fn metadata_entries(&self) -> (r: Vec<Result<super::Metadata<'a>, ReadError>>)
        ensures
            super::metadata::meta_entries_ok(r@, self@.metadata, self.strings_spec()),
    {
        super::metadata::meta_entries(&self.op.metadata, self.strings)
    }

    /// Returns the `n`-th metadata entry attached to this operation.
    pub fn metadata(&self, n: usize) -> (r: Result<super::Metadata<'a>, ReadError>)
        requires
            n < self@.metadata.len(),
        ensures
            meta_get_ok(r, self@.metadata, self.strings_spec(), n as int),
    {
        super::metadata::meta_get(&self.op.metadata, self.strings, n)
    }

    /// Returns the `n`-th metadata entry attached to this operation, or
    /// `None` if `n` is out of range.
    pub fn try_metadata(&self, n: usize) -> (r: Option<Result<super::Metadata<'a>, ReadError>>)
        ensures
            meta_try_get_ok(r, self@.metadata, self.strings_spec(), n as int),
    {
        super::metadata::meta_try_get(&self.op.metadata, self.strings, n)
    }
}

} // verus!
