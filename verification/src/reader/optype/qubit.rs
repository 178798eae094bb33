//! Qubit operations
//!
//! The main [`QubitOp`] enum contains quantum operations, including
//! - non-unitary operations like measurements and resets
//! - unitary _gates_
//!
//! The [`GateOp`]s in turn are divided between
//! - A set of [`WellKnownGate`]s with well-defined semantics
//! - [`PauliString`] rotation gates.
//! - Arbitrary custom gates, with a name and a number of qubits and
//!   parameters defined by the users. See [`GateOpType::Custom`].
//!
//! These gates can also be controlled, made adjoint, and exponentiated.

use vstd::prelude::*;

pub mod pauli;
pub mod well_known;

pub use pauli::Pauli;
pub use pauli::PauliString;
pub use well_known::WellKnownGate;

use crate::model::GateModel;
use crate::model::GateTypeModel;
use crate::model::QubitOpModel;
use well_known::well_known_num_params;
use well_known::well_known_num_qubits;

verus! {

/// An operation over qubits.
#[derive(Clone, Copy, Debug)]
pub enum QubitOp<'a> {
    /// Allocates a new qubit in the |0> state.
    Alloc,
    /// Frees a qubit.
    ///
    /// This operation makes no assumptions about the state of the qubit.
    Free,
    /// Frees a qubit in the |0> state.
    ///
    /// It is undefined behavior to free a qubit that is not in the |0> state.
    FreeZero,
    /// Perform a destructive measurement of a qubit in the computational
    /// basis.
    Measure,
    /// Perform a non-destructive measurement of a qubit in the computational
    /// basis.
    MeasureNd,
    /// Resets a qubit to the |0> state.
    Reset,
    /// Apply a quantum gate.
    Gate(GateOp<'a>),
}

impl<'a> View for QubitOp<'a> {
    type V = QubitOpModel;

    open spec fn view(&self) -> QubitOpModel {
        match *self {
            QubitOp::Alloc => QubitOpModel::Alloc,
            QubitOp::Free => QubitOpModel::Free,
            QubitOp::FreeZero => QubitOpModel::FreeZero,
            QubitOp::Measure => QubitOpModel::Measure,
            QubitOp::MeasureNd => QubitOpModel::MeasureNd,
            QubitOp::Reset => QubitOpModel::Reset,
            QubitOp::Gate(g) => QubitOpModel::Gate(g@),
        }
    }
}

/// An operation over qubit registers.
#[derive(Clone, Copy, Debug, PartialEq, Eq, Structural)]
pub enum QubitRegisterOp {
    /// Allocates a new qubit register given a number of qubits in the |0>
    /// state.
    Alloc,
    /// Frees a qubit register.
    ///
    /// This operation makes no assumptions about the state of the qubits.
    Free,
    /// Frees a qubit register, assuming that all qubits are in the |0> state.
    ///
    /// It is undefined behavior to free a qubit register containing qubits
    /// that are not in the |0> state.
    FreeZero,
    /// Extracts a single qubit from a qubit register.
    ///
    /// The slot must have been filled before and is marked as empty after the
    /// extraction.
    ExtractIndex,
    /// Insert a single qubit into a qubit register.
    ///
    /// The slot must have been empty before and is marked as filled after the
    /// insertion.
    InsertIndex,
    /// Extract a slice of qubits from a qubit register given a range of
    /// indices.
    ///
    /// All slots in the range are marked as empty in the original register.
    ExtractSlice,
    /// Insert a slice of qubits into a qubit register.
    ///
    /// All slots in the inserted range in the original register must have
    /// been empty.
    InsertSlice,
    /// Returns the length of the qubit register.
    Length,
    /// Splits a qubit register into two qubit registers at a given index.
    Split,
    /// Joins together two qubit registers into a single qubit register.
    Join,
    /// Creates a qubit register from a variable number of input qubits.
    Create,
}

/// Quantum gate operation.
#[derive(Clone, Copy, Debug)]
pub struct GateOp<'a> {
    /// The type of gate.
    pub gate_type: GateOpType<'a>,
    /// The number of control qubits for gate.
    pub control_qubits: u8,
    /// Whether to apply the adjoint of the named gate.
    pub adjoint: bool,
    /// A number of times to apply this gate in sequence.
    pub power: u8,
}

impl<'a> View for GateOp<'a> {
    type V = GateModel;

    open spec fn view(&self) -> GateModel {
        GateModel {
            gate_type: self.gate_type@,
            control_qubits: self.control_qubits,
            adjoint: self.adjoint,
            power: self.power,
        }
    }
}

/// The type of gate operation.
#[derive(Clone, Copy, Debug)]
pub enum GateOpType<'a> {
    /// A custom gate.
    Custom {
        /// Index of this gate's name in the module string table.
        name: u16,
        /// The number of qubits this gate acts on.
        num_qubits: u8,
        /// The number of floating point parameters that this gate takes as
        /// inputs, after the qubit values.
        num_params: u8,
    },
    /// A gate in the common shared gate set.
    ///
    /// Use [`GateOpType::Custom`] for gates not in the shared set.
    WellKnown(WellKnownGate),
    /// An arbitrary Pauli-product rotation gate.
    ///
    /// Use [`GateOpType::Custom`] for gates not in the shared set.
    PauliProdRotation {
        /// Pauli string
        pauli_string: PauliString<'a>,
    },
}

impl<'a> View for GateOpType<'a> {
    type V = GateTypeModel;

    open spec fn view(&self) -> GateTypeModel {
        match *self {
            GateOpType::Custom { name, num_qubits, num_params } => GateTypeModel::Custom {
                name,
                num_qubits,
                num_params,
            },
            GateOpType::WellKnown(wk) => GateTypeModel::WellKnown(wk),
            GateOpType::PauliProdRotation { pauli_string } => GateTypeModel::PauliProdRotation {
                paulis: pauli_string@,
            },
        }
    }
}

impl<'a> Default for GateOpType<'a> {
    /// The identity gate.
    fn default() -> (r: Self)
        ensures
            r@ == GateTypeModel::WellKnown(WellKnownGate::I),
    {
        GateOpType::WellKnown(WellKnownGate::I)
    }
}

impl<'a> Default for GateOp<'a> {
    /// An uncontrolled, unexponentiated identity gate.
    fn default() -> (r: Self)
        ensures
            r@ == (GateModel {
                gate_type: GateTypeModel::WellKnown(WellKnownGate::I),
                control_qubits: 0u8,
                adjoint: false,
                power: 1u8,
            }),
    {
        GateOp {
            gate_type: GateOpType::WellKnown(WellKnownGate::I),
            control_qubits: 0,
            adjoint: false,
            power: 1,
        }
    }
}

/// The number of qubits a gate acts on: the base count of its gate type plus
/// its control qubits.
pub open spec fn gate_num_qubits(g: GateModel) -> int {
    (match g.gate_type {
        GateTypeModel::Custom { num_qubits, .. } => num_qubits as int,
        GateTypeModel::WellKnown(wk) => well_known_num_qubits(wk),
        GateTypeModel::PauliProdRotation { paulis } => paulis.len() as int,
    }) + g.control_qubits as int
}

/// The number of floating point parameters a gate takes as inputs.
pub open spec fn gate_num_params(g: GateModel) -> int {
    match g.gate_type {
        GateTypeModel::Custom { num_params, .. } => num_params as int,
        GateTypeModel::WellKnown(wk) => well_known_num_params(wk),
        GateTypeModel::PauliProdRotation { .. } => 1,
    }
}

impl<'a> GateOp<'a> {
    /// Returns the number of qubits that this gate acts on.
    pub fn num_qubits(&self) -> (r: usize)
        requires
            gate_num_qubits(self@) <= usize::MAX,
        ensures
            r == gate_num_qubits(self@),
    {
        let gate_qubits: usize = match self.gate_type {
            GateOpType::Custom { num_qubits, .. } => num_qubits as usize,
            GateOpType::WellKnown(wk) => wk.num_qubits(),
            GateOpType::PauliProdRotation { pauli_string } => pauli_string.num_qubits(),
        };
        gate_qubits + self.control_qubits as usize
    }

    /// Returns the number of floating point parameters that this gate takes as
    /// inputs.
    pub fn num_params(&self) -> (r: usize)
        ensures
            r == gate_num_params(self@),
    {
        match self.gate_type {
            GateOpType::Custom { num_params, .. } => num_params as usize,
            GateOpType::WellKnown(wk) => wk.num_params(),
            GateOpType::PauliProdRotation { pauli_string } => pauli_string.num_params(),
        }
    }
}

} // verus!
