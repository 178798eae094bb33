//! Control-flow operations.

use vstd::prelude::*;

use crate::data::RegionData;
use crate::model::cf_refs_ok;
use crate::model::ControlFlowModel;
use crate::model::RegionModel;
use crate::model::ValueModel;
use crate::reader::region::arena_wf;
use crate::reader::region::Region;
use crate::reader::string_table::StringTable;
use crate::reader::value::ValueTable;

verus! {

/// A function call operation.
#[derive(Clone, Copy, Debug, PartialEq, Eq, Structural)]
pub struct FuncOp {
    /// The function index to call in the module.
    ///
    /// Validity of the index against the module's function count is a caller
    /// obligation, not checked at this layer.
    pub func_idx: u32,
}

/// A structured control-flow operation.
#[derive(Clone, Copy, Debug)]
pub enum ControlFlowOp<'a> {
    /// Switch statement.
    ///
    /// The first input to the switch is an integer that selects the branch by
    /// index. The operation has a region for every branch, together with an
    /// optional default region. If there is no default region, it is an error
    /// if the index does not match any branch.
    Switch(SwitchOp<'a>),
    /// For loop.
    ///
    /// The region is the loop body that is executed once for each iteration.
    /// The loop maintains a state consisting of any number of values.
    /// Each iteration receives the state from the previous iteration,
    /// or the initial state for the first iteration, plus the current
    /// iteration value. When the loop finishes, the final state is returned.
    For {
        /// Internal DFG of the loop.
        region: Region<'a>,
    },
    /// While loop.
    ///
    /// The condition is checked before each iteration.
    /// If the condition is true, the loop body is executed.
    /// The loop threads a state the same way as the for loop.
    While {
        /// The condition that determines whether to continue looping.
        condition: Region<'a>,
        /// The body that is executed on each iteration.
        body: Region<'a>,
    },
    /// Do-while loop.
    ///
    /// The loop body is executed once, then the condition is checked.
    /// If the condition is true, the loop body is executed again.
    /// The loop threads a state the same way as the for loop.
    DoWhile {
        /// The body that is executed on each iteration.
        body: Region<'a>,
        /// The condition that determines whether to continue looping.
        condition: Region<'a>,
    },
}

impl<'a> View for ControlFlowOp<'a> {
    type V = ControlFlowModel;

    open spec fn view(&self) -> ControlFlowModel {
        match *self {
            ControlFlowOp::Switch(sw) => sw@,
            ControlFlowOp::For { region } => ControlFlowModel::For {
                region: region.idx_spec() as u32,
            },
            ControlFlowOp::While { condition, body } => ControlFlowModel::While {
                condition: condition.idx_spec() as u32,
                body: body.idx_spec() as u32,
            },
            ControlFlowOp::DoWhile { body, condition } => ControlFlowModel::DoWhile {
                body: body.idx_spec() as u32,
                condition: condition.idx_spec() as u32,
            },
        }
    }
}

impl<'a> ControlFlowOp<'a> {
    /// All nested region views denote entries of a well-formed arena.
    pub open spec fn wf(&self) -> bool {
        match *self {
            ControlFlowOp::Switch(sw) => sw.wf(),
            ControlFlowOp::For { region } => region.wf(),
            ControlFlowOp::While { condition, body } => condition.wf() && body.wf(),
            ControlFlowOp::DoWhile { body, condition } => body.wf() && condition.wf(),
        }
    }

    /// All nested views read from the given arena and tables.
    pub open spec fn links(
        &self,
        arena: Seq<RegionModel>,
        strings: Seq<Seq<u8>>,
        values: Seq<ValueModel>,
    ) -> bool {
        match *self {
            ControlFlowOp::Switch(sw) => sw.arena() == arena && sw.strings_spec() == strings
                && sw.values_spec() == values,
            ControlFlowOp::For { region } => region_links(region, arena, strings, values),
            ControlFlowOp::While { condition, body } => region_links(
                condition,
                arena,
                strings,
                values,
            ) && region_links(body, arena, strings, values),
            ControlFlowOp::DoWhile { body, condition } => region_links(
                body,
                arena,
                strings,
                values,
            ) && region_links(condition, arena, strings, values),
        }
    }
}

/// The region view reads from the given arena and tables.
pub open spec fn region_links(
    r: Region,
    arena: Seq<RegionModel>,
    strings: Seq<Seq<u8>>,
    values: Seq<ValueModel>,
) -> bool {
    r.arena() == arena && r.strings_spec() == strings && r.values_spec() == values
}

/// A switch statement.
#[derive(Clone, Copy, Debug)]
pub struct SwitchOp<'a> {
    /// Arena indices of the branches of the switch statement.
    branches: &'a Vec<u32>,
    /// Arena index of the optional default branch.
    default: Option<u32>,
    /// The owning function's region arena.
    regions: &'a Vec<RegionData>,
    /// Module-level register of reused strings.
    strings: StringTable<'a>,
    /// Function-level register of typed hyperedges.
    values: ValueTable<'a>,
}

impl<'a> View for SwitchOp<'a> {
    type V = ControlFlowModel;

    closed spec fn view(&self) -> ControlFlowModel {
        ControlFlowModel::Switch { branches: self.branches@, default: self.default }
    }
}

impl<'a> SwitchOp<'a> {
    /// Arena indices of the branches.
    pub closed spec fn branches_spec(&self) -> Seq<u32> {
        self.branches@
    }

    /// Arena index of the default branch, if present.
    pub closed spec fn default_spec(&self) -> Option<u32> {
        self.default
    }

    /// The owning function's region arena.
    pub closed spec fn arena(&self) -> Seq<RegionModel> {
        crate::data::regions_view(self.regions@)
    }

    /// The module string table.
    pub closed spec fn strings_spec(&self) -> Seq<Seq<u8>> {
        self.strings@
    }

    /// The function's value table.
    pub closed spec fn values_spec(&self) -> Seq<ValueModel> {
        self.values@
    }

    /// All branch indices lie inside the arena, and the arena has no
    /// dangling region references.
    pub open spec fn wf(&self) -> bool {
        &&& cf_refs_ok(self@, self.arena().len() as int)
        &&& arena_wf(self.arena())
    }

    /// Create a view of a switch operation over a region arena.
    pub(crate) fn new(
        branches: &'a Vec<u32>,
        default: Option<u32>,
        regions: &'a Vec<RegionData>,
        strings: StringTable<'a>,
        values: ValueTable<'a>,
    ) -> (r: SwitchOp<'a>)
        ensures
            r@ == (ControlFlowModel::Switch { branches: branches@, default }),
            r.branches_spec() == branches@,
            r.default_spec() == default,
            r.arena() == crate::data::regions_view(regions@),
            r.strings_spec() == strings@,
            r.values_spec() == values@,
    {
        SwitchOp { branches, default, regions, strings, values }
    }

    /// Returns the branches of this switch statement, in order.
    pub fn branches(&self) -> (r: Vec<Region<'a>>)
        requires
            self.wf(),
        ensures
            r@.len() == self.branches_spec().len(),
            forall|i: int|
                0 <= i < r@.len() ==> {
                    &&& (#[trigger] r@[i])@ == self.arena()[self.branches_spec()[i] as int]
                    &&& r@[i].idx_spec() == self.branches_spec()[i] as int
                    &&& r@[i].wf()
                    &&& region_links(r@[i], self.arena(), self.strings_spec(), self.values_spec())
                },
    {
        let n: usize = self.branches.len();
        let mut out: Vec<Region<'a>> = Vec::new();
        let mut i: usize = 0;
        while i < n
            invariant
                n == self.branches_spec().len(),
                i <= n,
                out@.len() == i,
                self.wf(),
                self.strings@ == self.strings_spec(),
                self.values@ == self.values_spec(),
                forall|j: int|
                    0 <= j < i ==> {
                        &&& (#[trigger] out@[j])@ == self.arena()[self.branches_spec()[j] as int]
                        &&& out@[j].idx_spec() == self.branches_spec()[j] as int
                        &&& out@[j].wf()
                        &&& region_links(
                            out@[j],
                            self.arena(),
                            self.strings_spec(),
                            self.values_spec(),
                        )
                    },
            decreases n - i,
        {
            proof {
                crate::model::lemma_switch_branch_in_range(
                    self.branches@,
                    self.default,
                    self.arena().len() as int,
                    i as int,
                );
            }
            let region = Region::new(
                self.regions,
                self.branches[i] as usize,
                self.strings,
                self.values,
            );
            out.push(region);
            i = i + 1;
        }
        out
    }

    /// Returns the number of branches in this switch statement.
    pub fn branch_count(&self) -> (r: usize)
        ensures
            r == self.branches_spec().len(),
    {
        self.branches.len()
    }

    /// Returns the `n`-th branch of this switch statement.
    pub fn branch(&self, n: usize) -> (r: Region<'a>)
        requires
            self.wf(),
            n < self.branches_spec().len(),
        ensures
            r@ == self.arena()[self.branches_spec()[n as int] as int],
            r.idx_spec() == self.branches_spec()[n as int] as int,
            r.wf(),
            region_links(r, self.arena(), self.strings_spec(), self.values_spec()),
    {
        proof {
            crate::model::lemma_switch_branch_in_range(
                self.branches@,
                self.default,
                self.arena().len() as int,
                n as int,
            );
        }
        Region::new(self.regions, self.branches[n] as usize, self.strings, self.values)
    }

    /// Returns the `n`-th branch of this switch statement, or `None` if `n`
    /// is equal or greater than the branch count.
    pub fn try_branch(&self, n: usize) -> (r: Option<Region<'a>>)
        requires
            self.wf(),
        ensures
            n < self.branches_spec().len() ==> (r matches Some(reg) && reg@ == self.arena()[
                self.branches_spec()[n as int] as int] && reg.wf() && region_links(
                reg,
                self.arena(),
                self.strings_spec(),
                self.values_spec(),
            )),
            n >= self.branches_spec().len() ==> r is None,
    {
        if n < self.branches.len() {
            Some(self.branch(n))
        } else {
            None
        }
    }

    /// Returns the default branch of this switch statement.
    ///
    /// Returns `None` if there is no default branch.
    pub fn default_branch(&self) -> (r: Option<Region<'a>>)
        requires
            self.wf(),
        ensures
            self.default_spec() matches Some(d) ==> (r matches Some(reg) && reg@ == self.arena()[
                d as int] && reg.wf() && region_links(
                reg,
                self.arena(),
                self.strings_spec(),
                self.values_spec(),
            )),
            self.default_spec() is None ==> r is None,
    {
        match self.default {
            Some(d) => Some(Region::new(self.regions, d as usize, self.strings, self.values)),
            None => None,
        }
    }
}

} // verus!
