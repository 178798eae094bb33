//! Mathematical model of a decoded jeff module.
//!
//! Every decoded structure in [`crate::data`] has one of these ghost types as
//! its view; the wire-format specifications and the contracts of the reader
//! views are all stated over them.
//!
//! Nested dataflow regions are stored per function definition as a flat
//! arena ([`DefinitionModel::regions`], index `0` being the function body);
//! control-flow operations refer to their child regions by index into that
//! arena.

use vstd::prelude::*;

use crate::reader::optype::qubit::pauli::Pauli;
use crate::reader::optype::qubit::well_known::WellKnownGate;
use crate::reader::optype::qubit::QubitRegisterOp;
use crate::reader::optype::FuncOp;
use crate::reader::optype::IntOp;
use crate::types::FloatPrecision;
use crate::types::Type;

verus! {

/// A metadata entry: an interned name and an opaque value blob.
pub ghost struct MetaModel {
    /// Index of the entry's name in the module string table.
    pub name: u16,
    /// Raw bytes of the entry's value.
    pub value: Seq<u8>,
}

/// A value descriptor: a typed hyperedge with attached metadata.
pub ghost struct ValueModel {
    /// Type of the hyperedge.
    pub ty: Type,
    /// Metadata attached to the hyperedge.
    pub metadata: Seq<MetaModel>,
}

/// The kind of a quantum gate.
pub ghost enum GateTypeModel {
    /// A custom gate, named through the module string table.
    Custom { name: u16, num_qubits: u8, num_params: u8 },
    /// A gate from the common shared gate set.
    WellKnown(WellKnownGate),
    /// An arbitrary Pauli-product rotation gate.
    PauliProdRotation { paulis: Seq<Pauli> },
}

/// A quantum gate operation.
pub ghost struct GateModel {
    /// The kind of gate.
    pub gate_type: GateTypeModel,
    /// The number of control qubits for this gate.
    pub control_qubits: u8,
    /// Whether to apply the adjoint of the named gate.
    pub adjoint: bool,
    /// A number of times to apply this gate in sequence.
    pub power: u8,
}

/// An operation over qubits.
pub ghost enum QubitOpModel {
    Alloc,
    Free,
    FreeZero,
    Measure,
    MeasureNd,
    Reset,
    Gate(GateModel),
}

/// An operation over integer arrays.
pub ghost enum IntArrayOpModel {
    ConstArray1(Seq<bool>),
    ConstArray8(Seq<u8>),
    ConstArray16(Seq<u16>),
    ConstArray32(Seq<u32>),
    ConstArray64(Seq<u64>),
    Zero { bits: u8 },
    GetIndex,
    SetIndex,
    Length,
    Create,
}

/// An operation over floating point arrays.
///
/// Constant payloads carry the IEEE-754 bit patterns of the elements.
pub ghost enum FloatArrayOpModel {
    Const32(Seq<u32>),
    Const64(Seq<u64>),
    Zero { precision: FloatPrecision },
    GetIndex,
    SetIndex,
    Length,
    Create,
}

/// A structured control-flow operation.
///
/// Child regions are referred to by index into the owning function
/// definition's region arena.
pub ghost enum ControlFlowModel {
    Switch { branches: Seq<u32>, default: Option<u32> },
    For { region: u32 },
    While { condition: u32, body: u32 },
    DoWhile { body: u32, condition: u32 },
}

/// The type of an operation.
pub ghost enum OpTypeModel {
    QubitOp(QubitOpModel),
    QubitRegisterOp(QubitRegisterOp),
    IntOp(IntOp),
    IntArrayOp(IntArrayOpModel),
    FloatOp(crate::reader::optype::FloatOp),
    FloatArrayOp(FloatArrayOpModel),
    ControlFlowOp(ControlFlowModel),
    FuncOp(FuncOp),
}

/// An operation in a dataflow graph.
pub ghost struct OpModel {
    /// The type of the operation.
    pub op_type: OpTypeModel,
    /// Input hyperedge ids, resolved through the function's value table.
    pub inputs: Seq<u32>,
    /// Output hyperedge ids, resolved through the function's value table.
    pub outputs: Seq<u32>,
    /// Metadata attached to the operation.
    pub metadata: Seq<MetaModel>,
}

/// A dataflow region: boundary hyperedges plus an ordered operation list.
pub ghost struct RegionModel {
    /// Boundary input hyperedge ids.
    pub sources: Seq<u32>,
    /// Boundary output hyperedge ids.
    pub targets: Seq<u32>,
    /// The operations of the region, in declared order.
    pub operations: Seq<OpModel>,
    /// Metadata attached to the region.
    pub metadata: Seq<MetaModel>,
}

/// A function definition: a name, a value table and a region arena.
pub ghost struct DefinitionModel {
    /// Index of the function name in the module string table.
    pub name: u16,
    /// The function's table of typed hyperedges.
    pub values: Seq<ValueModel>,
    /// The function's regions; index `0` is the body.
    pub regions: Seq<RegionModel>,
    /// Metadata attached to the function.
    pub metadata: Seq<MetaModel>,
}

/// A function declaration: a name and a signature, with no body.
pub ghost struct DeclarationModel {
    /// Index of the function name in the module string table.
    pub name: u16,
    /// Input value descriptors.
    pub inputs: Seq<ValueModel>,
    /// Output value descriptors.
    pub outputs: Seq<ValueModel>,
    /// Metadata attached to the function.
    pub metadata: Seq<MetaModel>,
}

/// A function in a jeff module.
pub ghost enum FunctionModel {
    Definition(DefinitionModel),
    Declaration(DeclarationModel),
}

/// A top-level jeff module.
pub ghost struct ModuleModel {
    /// Version of the jeff schema used by this module.
    pub version: u32,
    /// Raw bytes of the name of the tool that produced the module.
    pub tool: Seq<u8>,
    /// Raw bytes of the version of the tool that produced the module.
    pub tool_version: Seq<u8>,
    /// Id of the entrypoint function.
    pub entrypoint: u32,
    /// The module string table: raw bytes of each interned string.
    pub strings: Seq<Seq<u8>>,
    /// The functions of the module, in declared order.
    pub functions: Seq<FunctionModel>,
    /// Metadata attached to the module.
    pub metadata: Seq<MetaModel>,
}

// ---------------------------------------------------------------------------
// Referential integrity of region indices.
//
// Hyperedge ids and string indices are resolved lazily and may dangle (the
// lookups return typed errors); region indices are structural and every
// loaded module satisfies these predicates.
// ---------------------------------------------------------------------------

/// Every branch index lies below `n`.
pub open spec fn branches_in_range(branches: Seq<u32>, n: int) -> bool {
    forall|i: int| 0 <= i < branches.len() ==> (#[trigger] branches[i]) < n
}

/// All child-region indices of a control-flow operation lie below `n`.
pub open spec fn cf_refs_ok(cf: ControlFlowModel, n: int) -> bool {
    match cf {
        ControlFlowModel::Switch { branches, default } => {
            &&& branches_in_range(branches, n)
            &&& (default matches Some(d) ==> d < n)
        },
        ControlFlowModel::For { region } => region < n,
        ControlFlowModel::While { condition, body } => condition < n && body < n,
        ControlFlowModel::DoWhile { body, condition } => body < n && condition < n,
    }
}

/// The branch indices of a switch whose references are in range lie below
/// `n`.
pub proof fn lemma_switch_branch_in_range(
    branches: Seq<u32>,
    default: Option<u32>,
    n: int,
    i: int,
)
    requires
        cf_refs_ok(ControlFlowModel::Switch { branches, default }, n),
        0 <= i < branches.len(),
    ensures
        (branches[i] as int) < n,
        (default matches Some(d) ==> (d as int) < n),
{
    let cf = ControlFlowModel::Switch { branches, default };
    assert(cf_refs_ok(cf, n));
    assert(branches_in_range(branches, n));
}

/// All child-region indices of an operation type lie below `n`.
pub open spec fn op_type_refs_ok(t: OpTypeModel, n: int) -> bool {
    match t {
        OpTypeModel::ControlFlowOp(cf) => cf_refs_ok(cf, n),
        _ => true,
    }
}

/// All child-region indices mentioned by a region's operations lie below `n`.
pub open spec fn region_refs_ok(r: RegionModel, n: int) -> bool {
    forall|i: int|
        0 <= i < r.operations.len() ==> op_type_refs_ok(#[trigger] r.operations[i].op_type, n)
}

/// A function definition has a body region and no dangling region index.
pub open spec fn def_wf(d: DefinitionModel) -> bool {
    &&& d.regions.len() >= 1
    &&& forall|i: int|
        0 <= i < d.regions.len() ==> region_refs_ok(#[trigger] d.regions[i], d.regions.len() as int)
}

/// Structural well-formedness of a function.
pub open spec fn function_wf(f: FunctionModel) -> bool {
    match f {
        FunctionModel::Definition(d) => def_wf(d),
        FunctionModel::Declaration(_) => true,
    }
}

/// Structural well-formedness of a module: every function definition has a
/// body and only in-range region references.
pub open spec fn module_wf(m: ModuleModel) -> bool {
    forall|i: int| 0 <= i < m.functions.len() ==> function_wf(#[trigger] m.functions[i])
}

// ---------------------------------------------------------------------------
// Boundedness: every list in the model fits the wire format's 32-bit counts.
// ---------------------------------------------------------------------------

/// Upper bound (exclusive) on list lengths in the wire format.
pub open spec fn count_limit() -> int {
    0x1_0000_0000
}

pub open spec fn meta_bounded(m: MetaModel) -> bool {
    m.value.len() < count_limit()
}

pub open spec fn metas_bounded(s: Seq<MetaModel>) -> bool {
    &&& s.len() < count_limit()
    &&& forall|i: int| 0 <= i < s.len() ==> meta_bounded(#[trigger] s[i])
}

pub open spec fn value_bounded(v: ValueModel) -> bool {
    metas_bounded(v.metadata)
}

pub open spec fn values_bounded(s: Seq<ValueModel>) -> bool {
    &&& s.len() < count_limit()
    &&& forall|i: int| 0 <= i < s.len() ==> value_bounded(#[trigger] s[i])
}

pub open spec fn gate_type_bounded(t: GateTypeModel) -> bool {
    match t {
        GateTypeModel::PauliProdRotation { paulis } => paulis.len() < count_limit(),
        _ => true,
    }
}

pub open spec fn gate_bounded(g: GateModel) -> bool {
    gate_type_bounded(g.gate_type)
}

pub open spec fn op_type_bounded(t: OpTypeModel) -> bool {
    match t {
        OpTypeModel::QubitOp(q) => match q {
            QubitOpModel::Gate(g) => gate_bounded(g),
            _ => true,
        },
        OpTypeModel::IntArrayOp(a) => match a {
            IntArrayOpModel::ConstArray1(s) => s.len() < count_limit(),
            IntArrayOpModel::ConstArray8(s) => s.len() < count_limit(),
            IntArrayOpModel::ConstArray16(s) => s.len() < count_limit(),
            IntArrayOpModel::ConstArray32(s) => s.len() < count_limit(),
            IntArrayOpModel::ConstArray64(s) => s.len() < count_limit(),
            _ => true,
        },
        OpTypeModel::FloatArrayOp(a) => match a {
            FloatArrayOpModel::Const32(s) => s.len() < count_limit(),
            FloatArrayOpModel::Const64(s) => s.len() < count_limit(),
            _ => true,
        },
        OpTypeModel::ControlFlowOp(cf) => match cf {
            ControlFlowModel::Switch { branches, .. } => branches.len() < count_limit(),
            _ => true,
        },
        _ => true,
    }
}

pub open spec fn op_bounded(o: OpModel) -> bool {
    &&& op_type_bounded(o.op_type)
    &&& o.inputs.len() < count_limit()
    &&& o.outputs.len() < count_limit()
    &&& metas_bounded(o.metadata)
}

pub open spec fn region_bounded(r: RegionModel) -> bool {
    &&& r.sources.len() < count_limit()
    &&& r.targets.len() < count_limit()
    &&& r.operations.len() < count_limit()
    &&& forall|i: int| 0 <= i < r.operations.len() ==> op_bounded(#[trigger] r.operations[i])
    &&& metas_bounded(r.metadata)
}

pub open spec fn function_bounded(f: FunctionModel) -> bool {
    match f {
        FunctionModel::Definition(d) => {
            &&& values_bounded(d.values)
            &&& d.regions.len() < count_limit()
            &&& forall|i: int| 0 <= i < d.regions.len() ==> region_bounded(#[trigger] d.regions[i])
            &&& metas_bounded(d.metadata)
        },
        FunctionModel::Declaration(d) => {
            &&& values_bounded(d.inputs)
            &&& values_bounded(d.outputs)
            &&& metas_bounded(d.metadata)
        },
    }
}

/// Every list in the module fits the wire format's 32-bit counts.
pub open spec fn module_bounded(m: ModuleModel) -> bool {
    &&& m.tool.len() < count_limit()
    &&& m.tool_version.len() < count_limit()
    &&& m.strings.len() < count_limit()
    &&& forall|i: int| 0 <= i < m.strings.len() ==> #[trigger] m.strings[i].len() < count_limit()
    &&& m.functions.len() < count_limit()
    &&& forall|i: int| 0 <= i < m.functions.len() ==> function_bounded(#[trigger] m.functions[i])
    &&& metas_bounded(m.metadata)
}

} // verus!
