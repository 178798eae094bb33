//! Owned decoded representation of a jeff module.
//!
//! [`crate::Jeff`] decodes a binary message into these structures once; the
//! views under [`crate::reader`] borrow from them and never copy the payload.
//!
//! Each function definition stores its nested dataflow regions as a flat
//! arena (`regions`, index `0` being the body); control-flow operations refer
//! to child regions by index into that arena. The views reconstruct the
//! nesting on access.

use vstd::prelude::*;

use crate::model::ControlFlowModel;
use crate::model::DeclarationModel;
use crate::model::DefinitionModel;
use crate::model::FloatArrayOpModel;
use crate::model::FunctionModel;
use crate::model::GateModel;
use crate::model::GateTypeModel;
use crate::model::IntArrayOpModel;
use crate::model::MetaModel;
use crate::model::ModuleModel;
use crate::model::OpModel;
use crate::model::OpTypeModel;
use crate::model::QubitOpModel;
use crate::model::RegionModel;
use crate::model::ValueModel;
use crate::reader::optype::qubit::Pauli;
use crate::reader::optype::qubit::WellKnownGate;
use crate::reader::optype::qubit::QubitRegisterOp;
use crate::reader::optype::FloatOp;
use crate::reader::optype::FuncOp;
use crate::reader::optype::IntOp;
use crate::types::FloatPrecision;
use crate::types::Type;

verus! {

/// A metadata entry: an interned name and an opaque value blob.
#[derive(Clone, Debug)]
pub struct MetaEntry {
    /// Index of the entry's name in the module string table.
    pub name: u16,
    /// Raw bytes of the entry's value.
    pub value: Vec<u8>,
}

impl View for MetaEntry {
    type V = MetaModel;

    open spec fn view(&self) -> MetaModel {
        MetaModel { name: self.name, value: self.value@ }
    }
}

/// The metadata entries of a list, as their models.
pub open spec fn metas_view(v: Seq<MetaEntry>) -> Seq<MetaModel> {
    v.map_values(|m: MetaEntry| m@)
}

/// A value descriptor: a typed hyperedge with attached metadata.
#[derive(Clone, Debug)]
pub struct ValueData {
    /// Type of the hyperedge.
    pub ty: Type,
    /// Metadata attached to the hyperedge.
    pub metadata: Vec<MetaEntry>,
}

impl View for ValueData {
    type V = ValueModel;

    open spec fn view(&self) -> ValueModel {
        ValueModel { ty: self.ty, metadata: metas_view(self.metadata@) }
    }
}

/// The kind of a quantum gate.
#[derive(Clone, Debug)]
pub enum GateTypeData {
    /// A custom gate, named through the module string table.
    Custom { name: u16, num_qubits: u8, num_params: u8 },
    /// A gate from the common shared gate set.
    WellKnown(WellKnownGate),
    /// An arbitrary Pauli-product rotation gate.
    PauliProdRotation { paulis: Vec<Pauli> },
}

impl View for GateTypeData {
    type V = GateTypeModel;

    open spec fn view(&self) -> GateTypeModel {
        match *self {
            GateTypeData::Custom { name, num_qubits, num_params } => GateTypeModel::Custom {
                name,
                num_qubits,
                num_params,
            },
            GateTypeData::WellKnown(wk) => GateTypeModel::WellKnown(wk),
            GateTypeData::PauliProdRotation { paulis } => GateTypeModel::PauliProdRotation {
                paulis: paulis@,
            },
        }
    }
}

/// A quantum gate operation.
#[derive(Clone, Debug)]
pub struct GateData {
    /// The kind of gate.
    pub gate_type: GateTypeData,
    /// The number of control qubits for this gate.
    pub control_qubits: u8,
    /// Whether to apply the adjoint of the named gate.
    pub adjoint: bool,
    /// A number of times to apply this gate in sequence.
    pub power: u8,
}

impl View for GateData {
    type V = GateModel;

    open spec fn view(&self) -> GateModel {
        GateModel {
            gate_type: self.gate_type@,
            control_qubits: self.control_qubits,
            adjoint: self.adjoint,
            power: self.power,
        }
    }
}

/// An operation over qubits.
#[derive(Clone, Debug)]
pub enum QubitOpData {
    Alloc,
    Free,
    FreeZero,
    Measure,
    MeasureNd,
    Reset,
    Gate(GateData),
}

impl View for QubitOpData {
    type V = QubitOpModel;

    open spec fn view(&self) -> QubitOpModel {
        match *self {
            QubitOpData::Alloc => QubitOpModel::Alloc,
            QubitOpData::Free => QubitOpModel::Free,
            QubitOpData::FreeZero => QubitOpModel::FreeZero,
            QubitOpData::Measure => QubitOpModel::Measure,
            QubitOpData::MeasureNd => QubitOpModel::MeasureNd,
            QubitOpData::Reset => QubitOpModel::Reset,
            QubitOpData::Gate(g) => QubitOpModel::Gate(g@),
        }
    }
}

/// An operation over integer arrays.
#[derive(Clone, Debug)]
pub enum IntArrayOpData {
    ConstArray1(Vec<bool>),
    ConstArray8(Vec<u8>),
    ConstArray16(Vec<u16>),
    ConstArray32(Vec<u32>),
    ConstArray64(Vec<u64>),
    Zero { bits: u8 },
    GetIndex,
    SetIndex,
    Length,
    Create,
}

impl View for IntArrayOpData {
    type V = IntArrayOpModel;

    open spec fn view(&self) -> IntArrayOpModel {
        match *self {
            IntArrayOpData::ConstArray1(v) => IntArrayOpModel::ConstArray1(v@),
            IntArrayOpData::ConstArray8(v) => IntArrayOpModel::ConstArray8(v@),
            IntArrayOpData::ConstArray16(v) => IntArrayOpModel::ConstArray16(v@),
            IntArrayOpData::ConstArray32(v) => IntArrayOpModel::ConstArray32(v@),
            IntArrayOpData::ConstArray64(v) => IntArrayOpModel::ConstArray64(v@),
            IntArrayOpData::Zero { bits } => IntArrayOpModel::Zero { bits },
            IntArrayOpData::GetIndex => IntArrayOpModel::GetIndex,
            IntArrayOpData::SetIndex => IntArrayOpModel::SetIndex,
            IntArrayOpData::Length => IntArrayOpModel::Length,
            IntArrayOpData::Create => IntArrayOpModel::Create,
        }
    }
}

/// An operation over floating point arrays; constants carry IEEE-754 bit
/// patterns.
#[derive(Clone, Debug)]
pub enum FloatArrayOpData {
    Const32(Vec<u32>),
    Const64(Vec<u64>),
    Zero { precision: FloatPrecision },
    GetIndex,
    SetIndex,
    Length,
    Create,
}

impl View for FloatArrayOpData {
    type V = FloatArrayOpModel;

    open spec fn view(&self) -> FloatArrayOpModel {
        match *self {
            FloatArrayOpData::Const32(v) => FloatArrayOpModel::Const32(v@),
            FloatArrayOpData::Const64(v) => FloatArrayOpModel::Const64(v@),
            FloatArrayOpData::Zero { precision } => FloatArrayOpModel::Zero { precision },
            FloatArrayOpData::GetIndex => FloatArrayOpModel::GetIndex,
            FloatArrayOpData::SetIndex => FloatArrayOpModel::SetIndex,
            FloatArrayOpData::Length => FloatArrayOpModel::Length,
            FloatArrayOpData::Create => FloatArrayOpModel::Create,
        }
    }
}

/// A structured control-flow operation; child regions are indices into the
/// owning function definition's region arena.
#[derive(Clone, Debug)]
pub enum ControlFlowData {
    Switch { branches: Vec<u32>, default: Option<u32> },
    For { region: u32 },
    While { condition: u32, body: u32 },
    DoWhile { body: u32, condition: u32 },
}

impl View for ControlFlowData {
    type V = ControlFlowModel;

    open spec fn view(&self) -> ControlFlowModel {
        match *self {
            ControlFlowData::Switch { branches, default } => ControlFlowModel::Switch {
                branches: branches@,
                default,
            },
            ControlFlowData::For { region } => ControlFlowModel::For { region },
            ControlFlowData::While { condition, body } => ControlFlowModel::While {
                condition,
                body,
            },
            ControlFlowData::DoWhile { body, condition } => ControlFlowModel::DoWhile {
                body,
                condition,
            },
        }
    }
}

/// The type of an operation.
#[derive(Clone, Debug)]
pub enum OpTypeData {
    QubitOp(QubitOpData),
    QubitRegisterOp(QubitRegisterOp),
    IntOp(IntOp),
    IntArrayOp(IntArrayOpData),
    FloatOp(FloatOp),
    FloatArrayOp(FloatArrayOpData),
    ControlFlowOp(ControlFlowData),
    FuncOp(FuncOp),
}

impl View for OpTypeData {
    type V = OpTypeModel;

    open spec fn view(&self) -> OpTypeModel {
        match *self {
            OpTypeData::QubitOp(q) => OpTypeModel::QubitOp(q@),
            OpTypeData::QubitRegisterOp(q) => OpTypeModel::QubitRegisterOp(q),
            OpTypeData::IntOp(o) => OpTypeModel::IntOp(o),
            OpTypeData::IntArrayOp(o) => OpTypeModel::IntArrayOp(o@),
            OpTypeData::FloatOp(o) => OpTypeModel::FloatOp(o),
            OpTypeData::FloatArrayOp(o) => OpTypeModel::FloatArrayOp(o@),
            OpTypeData::ControlFlowOp(cf) => OpTypeModel::ControlFlowOp(cf@),
            OpTypeData::FuncOp(f) => OpTypeModel::FuncOp(f),
        }
    }
}

/// An operation in a dataflow graph.
#[derive(Clone, Debug)]
pub struct OpData {
    /// The type of the operation.
    pub op_type: OpTypeData,
    /// Input hyperedge ids.
    pub inputs: Vec<u32>,
    /// Output hyperedge ids.
    pub outputs: Vec<u32>,
    /// Metadata attached to the operation.
    pub metadata: Vec<MetaEntry>,
}

impl View for OpData {
    type V = OpModel;

    open spec fn view(&self) -> OpModel {
        OpModel {
            op_type: self.op_type@,
            inputs: self.inputs@,
            outputs: self.outputs@,
            metadata: metas_view(self.metadata@),
        }
    }
}

/// The operations of a list, as their models.
pub open spec fn ops_view(v: Seq<OpData>) -> Seq<OpModel> {
    v.map_values(|o: OpData| o@)
}

/// A dataflow region: boundary hyperedges plus an ordered operation list.
#[derive(Clone, Debug)]
pub struct RegionData {
    /// Boundary input hyperedge ids.
    pub sources: Vec<u32>,
    /// Boundary output hyperedge ids.
    pub targets: Vec<u32>,
    /// The operations of the region, in declared order.
    pub operations: Vec<OpData>,
    /// Metadata attached to the region.
    pub metadata: Vec<MetaEntry>,
}

impl View for RegionData {
    type V = RegionModel;

    open spec fn view(&self) -> RegionModel {
        RegionModel {
            sources: self.sources@,
            targets: self.targets@,
            operations: ops_view(self.operations@),
            metadata: metas_view(self.metadata@),
        }
    }
}

/// The values of a list, as their models.
pub open spec fn values_view(v: Seq<ValueData>) -> Seq<ValueModel> {
    v.map_values(|x: ValueData| x@)
}

/// The regions of an arena, as their models.
pub open spec fn regions_view(v: Seq<RegionData>) -> Seq<RegionModel> {
    v.map_values(|r: RegionData| r@)
}

/// A function definition: a name, a value table and a region arena.
#[derive(Clone, Debug)]
pub struct DefinitionData {
    /// Index of the function name in the module string table.
    pub name: u16,
    /// The function's table of typed hyperedges.
    pub values: Vec<ValueData>,
    /// The function's regions; index `0` is the body.
    pub regions: Vec<RegionData>,
    /// Metadata attached to the function.
    pub metadata: Vec<MetaEntry>,
}

impl View for DefinitionData {
    type V = DefinitionModel;

    open spec fn view(&self) -> DefinitionModel {
        DefinitionModel {
            name: self.name,
            values: values_view(self.values@),
            regions: regions_view(self.regions@),
            metadata: metas_view(self.metadata@),
        }
    }
}

/// A function declaration: a name and a signature, with no body.
#[derive(Clone, Debug)]
pub struct DeclarationData {
    /// Index of the function name in the module string table.
    pub name: u16,
    /// Input value descriptors.
    pub inputs: Vec<ValueData>,
    /// Output value descriptors.
    pub outputs: Vec<ValueData>,
    /// Metadata attached to the function.
    pub metadata: Vec<MetaEntry>,
}

impl View for DeclarationData {
    type V = DeclarationModel;

    open spec fn view(&self) -> DeclarationModel {
        DeclarationModel {
            name: self.name,
            inputs: values_view(self.inputs@),
            outputs: values_view(self.outputs@),
            metadata: metas_view(self.metadata@),
        }
    }
}

/// A function in a jeff module.
#[derive(Clone, Debug)]
pub enum FunctionData {
    Definition(DefinitionData),
    Declaration(DeclarationData),
}

impl View for FunctionData {
    type V = FunctionModel;

    open spec fn view(&self) -> FunctionModel {
        match *self {
            FunctionData::Definition(d) => FunctionModel::Definition(d@),
            FunctionData::Declaration(d) => FunctionModel::Declaration(d@),
        }
    }
}

/// The functions of a list, as their models.
pub open spec fn functions_view(v: Seq<FunctionData>) -> Seq<FunctionModel> {
    v.map_values(|f: FunctionData| f@)
}

/// The strings of a table, as sequences of raw bytes.
pub open spec fn strings_view(v: Seq<Vec<u8>>) -> Seq<Seq<u8>> {
    v.map_values(|s: Vec<u8>| s@)
}

/// A top-level jeff module.
#[derive(Clone, Debug)]
pub struct ModuleData {
    /// Version of the jeff schema used by this module.
    pub version: u32,
    /// Raw bytes of the name of the tool that produced the module.
    pub tool: Vec<u8>,
    /// Raw bytes of the version of the tool that produced the module.
    pub tool_version: Vec<u8>,
    /// Id of the entrypoint function.
    pub entrypoint: u32,
    /// The module string table: raw bytes of each interned string.
    pub strings: Vec<Vec<u8>>,
    /// The functions of the module, in declared order.
    pub functions: Vec<FunctionData>,
    /// Metadata attached to the module.
    pub metadata: Vec<MetaEntry>,
}

impl View for ModuleData {
    type V = ModuleModel;

    open spec fn view(&self) -> ModuleModel {
        ModuleModel {
            version: self.version,
            tool: self.tool@,
            tool_version: self.tool_version@,
            entrypoint: self.entrypoint,
            strings: strings_view(self.strings@),
            functions: functions_view(self.functions@),
            metadata: metas_view(self.metadata@),
        }
    }
}

} // verus!
