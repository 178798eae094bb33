//! Dataflow region definition in a jeff program.

use vstd::prelude::*;

use super::metadata::meta_get_ok;
use super::metadata::meta_try_get_ok;
use super::op::Operation;
use super::string_table::StringTable;
use super::value::value_get_ok;
use super::value::ValueTable;
use super::value::WireValue;
use super::ReadError;
use crate::data::RegionData;
use crate::model::region_refs_ok;
use crate::model::RegionModel;
use crate::model::ValueModel;
use crate::Direction;

verus! {

/// Every region of an arena refers only to regions inside the arena.
pub open spec fn arena_wf(regions: Seq<RegionModel>) -> bool {
    forall|i: int|
        0 <= i < regions.len() ==> region_refs_ok(#[trigger] regions[i], regions.len() as int)
}

/// Each element of `r` is the lookup of the corresponding id of `ids` in the
/// value table `values`.
pub open spec fn boundary_results_ok(
    r: Seq<Result<WireValue, ReadError>>,
    ids: Seq<u32>,
    values: Seq<ValueModel>,
) -> bool {
    &&& r.len() == ids.len()
    &&& forall|i: int| 0 <= i < ids.len() ==> value_get_ok(#[trigger] r[i], values, ids[i])
}

/// Dataflow region defined in a jeff module.
///
/// A region is a view into the owning function definition's region arena;
/// nested regions of control-flow operations are views into the same arena.
#[derive(Clone, Copy, Debug)]
pub struct Region<'a> {
    /// The owning function's region arena.
    regions: &'a Vec<RegionData>,
    /// Index of this region in the arena.
    idx: usize,
    /// Module-level register of reused strings.
    strings: StringTable<'a>,
    /// Function-level register of typed hyperedges.
    values: ValueTable<'a>,
}

impl<'a> View for Region<'a> {
    type V = RegionModel;

    closed spec fn view(&self) -> RegionModel {
        crate::data::regions_view(self.regions@)[self.idx as int]
    }
}

impl<'a> Region<'a> {
    /// The owning function's region arena.
    pub closed spec fn arena(&self) -> Seq<RegionModel> {
        crate::data::regions_view(self.regions@)
    }

    /// Index of this region in the arena.
    pub closed spec fn idx_spec(&self) -> int {
        self.idx as int
    }

    /// The function's value table.
    pub closed spec fn values_spec(&self) -> Seq<ValueModel> {
        self.values@
    }

    /// The module string table.
    pub closed spec fn strings_spec(&self) -> Seq<Seq<u8>> {
        self.strings@
    }

    /// The region denotes an arena entry and the arena has no dangling
    /// region references.
    pub open spec fn wf(&self) -> bool {
        &&& self.idx_spec() < self.arena().len()
        &&& arena_wf(self.arena())
    }

    /// Create a view of the `idx`-th region of an arena.
    pub(crate) fn new(
        regions: &'a Vec<RegionData>,
        idx: usize,
        strings: StringTable<'a>,
        values: ValueTable<'a>,
    ) -> (r: Region<'a>)
        ensures
            r.arena() == crate::data::regions_view(regions@),
            r.idx_spec() == idx as int,
            r.strings_spec() == strings@,
            r.values_spec() == values@,
            r@ == crate::data::regions_view(regions@)[idx as int],
    {
        Region { regions, idx, strings, values }
    }

    /// The boundary ids of this region in the given direction: sources for
    /// incoming, targets for outgoing.
    pub open spec fn boundary_ids(&self, direction: Direction) -> Seq<u32> {
        match direction {
            Direction::Incoming => self@.sources,
            Direction::Outgoing => self@.targets,
        }
    }

    /// Returns the sources or target values of this region, resolved through
    /// the function's value table.
    ///
    /// # Errors
    ///
    /// - [`ReadError::ValueOutOfBounds`] if an encoded value references an
    ///   invalid index in the value table.
    pub fn boundary(&self, direction: Direction) -> (r: Vec<Result<WireValue<'a>, ReadError>>)
        requires
            self.wf(),
        ensures
            boundary_results_ok(r@, self.boundary_ids(direction), self.values_spec()),
    {
        let region: &RegionData = &self.regions[self.idx];
        let ids: &Vec<u32> = match direction {
            Direction::Incoming => &region.sources,
            Direction::Outgoing => &region.targets,
        };
        assert(ids@ == self.boundary_ids(direction));
        let n: usize = ids.len();
        let mut out: Vec<Result<WireValue<'a>, ReadError>> = Vec::new();
        let mut i: usize = 0;
        while i < n
            invariant
                n == ids@.len(),
                i <= n,
                out@.len() == i,
                self.values@ == self.values_spec(),
                forall|j: int| 0 <= j < i ==> value_get_ok(#[trigger] out@[j], self.values_spec(), ids@[j]),
            decreases n - i,
        {
            out.push(self.values.get(ids[i]));
            i = i + 1;
        }
        out
    }

    /// Return the source values of this region.
    ///
    /// # Errors
    ///
    /// - [`ReadError::ValueOutOfBounds`] if an encoded value references an
    ///   invalid index in the value table.
    pub fn sources(&self) -> (r: Vec<Result<WireValue<'a>, ReadError>>)
        requires
            self.wf(),
        ensures
            boundary_results_ok(r@, self@.sources, self.values_spec()),
    {
        self.boundary(Direction::Incoming)
    }

    /// Return the target values of this region.
    ///
    /// # Errors
    ///
    /// - [`ReadError::ValueOutOfBounds`] if an encoded value references an
    ///   invalid index in the value table.
    pub fn targets(&self) -> (r: Vec<Result<WireValue<'a>, ReadError>>)
        requires
            self.wf(),
        ensures
            boundary_results_ok(r@, self@.targets, self.values_spec()),
    {
        self.boundary(Direction::Outgoing)
    }

    /// Returns the number of sources or target values in this region.
    pub fn boundary_count(&self, direction: Direction) -> (r: usize)
        requires
            self.wf(),
        ensures
            r == self.boundary_ids(direction).len(),
    {
        let region: &RegionData = &self.regions[self.idx];
        match direction {
            Direction::Incoming => region.sources.len(),
            Direction::Outgoing => region.targets.len(),
        }
    }

    /// Returns the number of source values in this region.
    pub fn source_count(&self) -> (r: usize)
        requires
            self.wf(),
        ensures
            r == self@.sources.len(),
    {
        self.boundary_count(Direction::Incoming)
    }

    /// Returns the number of target values in this region.
    pub fn target_count(&self) -> (r: usize)
        requires
            self.wf(),
        ensures
            r == self@.targets.len(),
    {
        self.boundary_count(Direction::Outgoing)
    }

    /// Returns the boundary value at the given index, or `None` if the index
    /// is out of bounds.
    ///
    /// # Errors
    ///
    /// - [`ReadError::ValueOutOfBounds`] if the encoded value references an
    ///   invalid index in the value table.
    pub fn boundary_value(&self, direction: Direction, idx: usize) -> (r: Option<
        Result<WireValue<'a>, ReadError>,
    >)
        requires
            self.wf(),
        ensures
            idx < self.boundary_ids(direction).len() ==> (r matches Some(res) && value_get_ok(
                res,
                self.values_spec(),
                self.boundary_ids(direction)[idx as int],
            )),
            idx >= self.boundary_ids(direction).len() ==> r is None,
    {
        let region: &RegionData = &self.regions[self.idx];
        let ids: &Vec<u32> = match direction {
            Direction::Incoming => &region.sources,
            Direction::Outgoing => &region.targets,
        };
        assert(ids@ == self.boundary_ids(direction));
        if idx >= ids.len() {
            return None;
        }
        Some(self.values.get(ids[idx]))
    }

    /// Returns the source value at the given index, or `None` if the index is
    /// out of bounds.
    ///
    /// # Errors
    ///
    /// - [`ReadError::ValueOutOfBounds`] if the encoded value references an
    ///   invalid index in the value table.
    pub fn source(&self, idx: usize) -> (r: Option<Result<WireValue<'a>, ReadError>>)
        requires
            self.wf(),
        ensures
            idx < self@.sources.len() ==> (r matches Some(res) && value_get_ok(
                res,
                self.values_spec(),
                self@.sources[idx as int],
            )),
            idx >= self@.sources.len() ==> r is None,
    {
        self.boundary_value(Direction::Incoming, idx)
    }

    /// Returns the target value at the given index, or `None` if the index is
    /// out of bounds.
    ///
    /// # Errors
    ///
    /// - [`ReadError::ValueOutOfBounds`] if the encoded value references an
    ///   invalid index in the value table.
    pub fn target(&self, idx: usize) -> (r: Option<Result<WireValue<'a>, ReadError>>)
        requires
            self.wf(),
        ensures
            idx < self@.targets.len() ==> (r matches Some(res) && value_get_ok(
                res,
                self.values_spec(),
                self@.targets[idx as int],
            )),
            idx >= self@.targets.len() ==> r is None,
    {
        self.boundary_value(Direction::Outgoing, idx)
    }

    /// Returns the operations in this region, in declared order.
    pub fn operations(&self) -> (r: Vec<Operation<'a>>)
        requires
            self.wf(),
        ensures
            r@.len() == self@.operations.len(),
            forall|i: int|
                0 <= i < r@.len() ==> {
                    &&& (#[trigger] r@[i])@ == self@.operations[i]
                    &&& r@[i].wf()
                    &&& r@[i].arena() == self.arena()
                    &&& r@[i].strings_spec() == self.strings_spec()
                    &&& r@[i].values_spec() == self.values_spec()
                },
    {
        let region: &RegionData = &self.regions[self.idx];
        let n: usize = region.operations.len();
        let mut out: Vec<Operation<'a>> = Vec::new();
        let mut i: usize = 0;
        while i < n
            invariant
                n == self@.operations.len(),
                region.operations@ =~= self.regions@[self.idx as int].operations@,
                crate::data::ops_view(region.operations@) =~= self@.operations,
                i <= n,
                out@.len() == i,
                self.wf(),
                self.values@ == self.values_spec(),
                self.strings@ == self.strings_spec(),
                forall|j: int|
                    0 <= j < i ==> {
                        &&& (#[trigger] out@[j])@ == self@.operations[j]
                        &&& out@[j].wf()
                        &&& out@[j].arena() == self.arena()
                        &&& out@[j].strings_spec() == self.strings_spec()
                        &&& out@[j].values_spec() == self.values_spec()
                    },
            decreases n - i,
        {
            let op = Operation::new(&region.operations[i], self.regions, self.strings, self.values);
            out.push(op);
            i = i + 1;
        }
        out
    }

    /// Returns the number of operations in this region.
    pub fn operation_count(&self) -> (r: usize)
        requires
            self.wf(),
        ensures
            r == self@.operations.len(),
    {
        self.regions[self.idx].operations.len()
    }

    /// Returns the `n`-th operation in this region.
    pub fn operation(&self, n: usize) -> (r: Operation<'a>)
        requires
            self.wf(),
            n < self@.operations.len(),
        ensures
            r@ == self@.operations[n as int],
            r.wf(),
            r.arena() == self.arena(),
            r.strings_spec() == self.strings_spec(),
            r.values_spec() == self.values_spec(),
    {
        let region: &RegionData = &self.regions[self.idx];
        Operation::new(&region.operations[n], self.regions, self.strings, self.values)
    }

    /// Returns the number of metadata entries attached to this region.
    pub fn metadata_count(&self) -> (r: usize)
        requires
            self.wf(),
        ensures
            r == self@.metadata.len(),
    {
        super::metadata::meta_count(&self.regions[self.idx].metadata)
    }

    /// Returns all metadata entries attached to this region, in order.
    pub fn metadata_entries(&self) -> (r: Vec<Result<super::Metadata<'a>, ReadError>>)
        requires
            self.wf(),
        ensures
            super::metadata::meta_entries_ok(r@, self@.metadata, self.strings_spec()),
    {
        super::metadata::meta_entries(&self.regions[self.idx].metadata, self.strings)
    }

    /// Returns the `n`-th metadata entry attached to this region.
    pub fn metadata(&self, n: usize) -> (r: Result<super::Metadata<'a>, ReadError>)
        requires
            self.wf(),
            n < self@.metadata.len(),
        ensures
            meta_get_ok(r, self@.metadata, self.strings_spec(), n as int),
    {
        super::metadata::meta_get(&self.regions[self.idx].metadata, self.strings, n)
    }

    /// Returns the `n`-th metadata entry attached to this region, or `None`
    /// if `n` is out of range.
    pub fn try_metadata(&self, n: usize) -> (r: Option<Result<super::Metadata<'a>, ReadError>>)
        requires
            self.wf(),
        ensures
            meta_try_get_ok(r, self@.metadata, self.strings_spec(), n as int),
    {
        super::metadata::meta_try_get(&self.regions[self.idx].metadata, self.strings, n)
    }
}

} // verus!
