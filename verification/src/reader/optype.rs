//! Node operation definitions.

use vstd::prelude::*;

pub mod const_val;
pub mod control_flow;
pub mod float;
pub mod int_ops;
pub mod qubit;

pub use const_val::ConstArray;
pub use control_flow::ControlFlowOp;
pub use control_flow::FuncOp;
pub use control_flow::SwitchOp;
pub use float::FloatArrayOp;
pub use float::FloatOp;
pub use int_ops::IntArrayOp;
pub use int_ops::IntOp;
pub use qubit::GateOp;
pub use qubit::PauliString;
pub use qubit::GateOpType;
pub use qubit::QubitOp;
pub use qubit::QubitRegisterOp;
pub use qubit::WellKnownGate;

use crate::data::ControlFlowData;
use crate::data::GateTypeData;
use crate::data::IntArrayOpData;
use crate::data::FloatArrayOpData;
use crate::data::OpTypeData;
use crate::data::QubitOpData;
use crate::data::RegionData;
use crate::model::OpTypeModel;
use crate::model::RegionModel;
use crate::model::ValueModel;
use crate::reader::region::Region;
use crate::reader::string_table::StringTable;
use crate::reader::value::ValueTable;

verus! {

/// The type of an operation.
#[derive(Clone, Debug)]
pub enum OpType<'a> {
    /// Operation on a single qubit.
    QubitOp(QubitOp<'a>),
    /// Operation on a register of qubits.
    QubitRegisterOp(QubitRegisterOp),
    /// Operation involving an integer.
    IntOp(IntOp),
    /// Operation involving an array of integers.
    IntArrayOp(IntArrayOp<'a>),
    /// Operation involving a floating-point number.
    FloatOp(FloatOp),
    /// Operation involving an array of floating-point numbers.
    FloatArrayOp(FloatArrayOp<'a>),
    /// Operation for control flow.
    ControlFlowOp(Box<ControlFlowOp<'a>>),
    /// Operation involving a function.
    FuncOp(FuncOp),
}

impl<'a> View for OpType<'a> {
    type V = OpTypeModel;

    open spec fn view(&self) -> OpTypeModel {
        match *self {
            OpType::QubitOp(q) => OpTypeModel::QubitOp(q@),
            OpType::QubitRegisterOp(q) => OpTypeModel::QubitRegisterOp(q),
            OpType::IntOp(o) => OpTypeModel::IntOp(o),
            OpType::IntArrayOp(o) => OpTypeModel::IntArrayOp(o@),
            OpType::FloatOp(o) => OpTypeModel::FloatOp(o),
            OpType::FloatArrayOp(o) => OpTypeModel::FloatArrayOp(o@),
            OpType::ControlFlowOp(cf) => OpTypeModel::ControlFlowOp((*cf)@),
            OpType::FuncOp(f) => OpTypeModel::FuncOp(f),
        }
    }
}

impl<'a> OpType<'a> {
    /// Nested region views, if any, denote entries of a well-formed arena.
    pub open spec fn wf(&self) -> bool {
        match *self {
            OpType::ControlFlowOp(cf) => (*cf).wf(),
            _ => true,
        }
    }

    /// Nested views, if any, read from the given arena and tables.
    pub open spec fn links(
        &self,
        arena: Seq<RegionModel>,
        strings: Seq<Seq<u8>>,
        values: Seq<ValueModel>,
    ) -> bool {
        match *self {
            OpType::ControlFlowOp(cf) => (*cf).links(arena, strings, values),
            _ => true,
        }
    }

    /// Create a view of an operation type over a region arena.
    pub(crate) fn new(
        op_type: &'a OpTypeData,
        regions: &'a Vec<RegionData>,
        strings: StringTable<'a>,
        values: ValueTable<'a>,
    ) -> (r: OpType<'a>)
        requires
            crate::model::op_type_refs_ok(
                op_type@,
                crate::data::regions_view(regions@).len() as int,
            ),
            crate::reader::region::arena_wf(crate::data::regions_view(regions@)),
        ensures
            r@ == op_type@,
            r.wf(),
            r.links(crate::data::regions_view(regions@), strings@, values@),
    {
        match op_type {
            OpTypeData::QubitOp(q) => OpType::QubitOp(
                match q {
                    QubitOpData::Alloc => QubitOp::Alloc,
                    QubitOpData::Free => QubitOp::Free,
                    QubitOpData::FreeZero => QubitOp::FreeZero,
                    QubitOpData::Measure => QubitOp::Measure,
                    QubitOpData::MeasureNd => QubitOp::MeasureNd,
                    QubitOpData::Reset => QubitOp::Reset,
                    QubitOpData::Gate(g) => QubitOp::Gate(
                        GateOp {
                            gate_type: match &g.gate_type {
                                GateTypeData::Custom { name, num_qubits, num_params } => (
                                GateOpType::Custom {
                                    name: *name,
                                    num_qubits: *num_qubits,
                                    num_params: *num_params,
                                }),
                                GateTypeData::WellKnown(wk) => GateOpType::WellKnown(*wk),
                                GateTypeData::PauliProdRotation { paulis } => (
                                GateOpType::PauliProdRotation {
                                    pauli_string: PauliString::new(paulis),
                                }),
                            },
                            control_qubits: g.control_qubits,
                            adjoint: g.adjoint,
                            power: g.power,
                        },
                    ),
                },
            ),
            OpTypeData::QubitRegisterOp(q) => OpType::QubitRegisterOp(*q),
            OpTypeData::IntOp(o) => OpType::IntOp(*o),
            OpTypeData::IntArrayOp(o) => OpType::IntArrayOp(
                match o {
                    IntArrayOpData::ConstArray1(v) => IntArrayOp::ConstArray1(ConstArray::new(v)),
                    IntArrayOpData::ConstArray8(v) => IntArrayOp::ConstArray8(ConstArray::new(v)),
                    IntArrayOpData::ConstArray16(v) => IntArrayOp::ConstArray16(
                        ConstArray::new(v),
                    ),
                    IntArrayOpData::ConstArray32(v) => IntArrayOp::ConstArray32(
                        ConstArray::new(v),
                    ),
                    IntArrayOpData::ConstArray64(v) => IntArrayOp::ConstArray64(
                        ConstArray::new(v),
                    ),
                    IntArrayOpData::Zero { bits } => IntArrayOp::Zero { bits: *bits },
                    IntArrayOpData::GetIndex => IntArrayOp::GetIndex,
                    IntArrayOpData::SetIndex => IntArrayOp::SetIndex,
                    IntArrayOpData::Length => IntArrayOp::Length,
                    IntArrayOpData::Create => IntArrayOp::Create,
                },
            ),
            OpTypeData::FloatOp(o) => OpType::FloatOp(*o),
            OpTypeData::FloatArrayOp(o) => OpType::FloatArrayOp(
                match o {
                    FloatArrayOpData::Const32(v) => FloatArrayOp::Const32(ConstArray::new(v)),
                    FloatArrayOpData::Const64(v) => FloatArrayOp::Const64(ConstArray::new(v)),
                    FloatArrayOpData::Zero { precision } => FloatArrayOp::Zero {
                        precision: *precision,
                    },
                    FloatArrayOpData::GetIndex => FloatArrayOp::GetIndex,
                    FloatArrayOpData::SetIndex => FloatArrayOp::SetIndex,
                    FloatArrayOpData::Length => FloatArrayOp::Length,
                    FloatArrayOpData::Create => FloatArrayOp::Create,
                },
            ),
            OpTypeData::ControlFlowOp(cf) => OpType::ControlFlowOp(
                Box::new(
                    match cf {
                        ControlFlowData::Switch { branches, default } => ControlFlowOp::Switch(
                            SwitchOp::new(branches, *default, regions, strings, values),
                        ),
                        ControlFlowData::For { region } => ControlFlowOp::For {
                            region: Region::new(regions, *region as usize, strings, values),
                        },
                        ControlFlowData::While { condition, body } => ControlFlowOp::While {
                            condition: Region::new(regions, *condition as usize, strings, values),
                            body: Region::new(regions, *body as usize, strings, values),
                        },
                        ControlFlowData::DoWhile { body, condition } => ControlFlowOp::DoWhile {
                            body: Region::new(regions, *body as usize, strings, values),
                            condition: Region::new(regions, *condition as usize, strings, values),
                        },
                    },
                ),
            ),
            OpTypeData::FuncOp(f) => OpType::FuncOp(*f),
        }
    }
}

} // verus!
