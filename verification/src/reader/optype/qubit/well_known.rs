//! Definitions for the well-known gates with well-defined semantics.

use vstd::prelude::*;

verus! {

/// Well-known quantum gates.
///
/// Each gate has a fixed number of qubits it acts on and a fixed number of
/// floating point parameters it takes as inputs.
#[derive(Clone, Copy, Debug, PartialEq, Eq, Structural, Default)]
pub enum WellKnownGate {
    /// Global phase operation on the "vacuum" state (no qubits).
    GPhase,
    /// Identity (no-op) gate on a single qubit.
    #[default]
    I,
    /// Pauli-X gate. Also known as the NOT gate.
    X,
    /// Pauli-Y gate.
    Y,
    /// Pauli-Z gate.
    Z,
    /// S gate.
    S,
    /// T gate.
    T,
    /// Rotation around the |1> state.
    R1,
    /// Rotation around the X axis.
    Rx,
    /// Rotation around the Y axis.
    Ry,
    /// Rotation around the Z axis.
    Rz,
    /// Hadamard gate.
    H,
    /// Euler gate.
    U,
    /// Swap gate. Swaps the state of two qubits.
    Swap,
}

/// The number of qubits a well-known gate acts on.
pub open spec fn well_known_num_qubits(g: WellKnownGate) -> int {
    match g {
        WellKnownGate::GPhase => 0,
        WellKnownGate::Swap => 2,
        _ => 1,
    }
}

/// The number of floating point parameters a well-known gate takes as inputs.
pub open spec fn well_known_num_params(g: WellKnownGate) -> int {
    match g {
        WellKnownGate::GPhase => 1,
        WellKnownGate::R1 => 1,
        WellKnownGate::Rx => 1,
        WellKnownGate::Ry => 1,
        WellKnownGate::Rz => 1,
        WellKnownGate::U => 3,
        _ => 0,
    }
}

impl WellKnownGate {
    /// Returns the number of qubits that this gate acts on.
    pub fn num_qubits(&self) -> (r: usize)
        ensures
            r == well_known_num_qubits(*self),
    {
        match self {
            WellKnownGate::GPhase => 0,
            WellKnownGate::I => 1,
            WellKnownGate::X => 1,
            WellKnownGate::Y => 1,
            WellKnownGate::Z => 1,
            WellKnownGate::S => 1,
            WellKnownGate::T => 1,
            WellKnownGate::R1 => 1,
            WellKnownGate::Rx => 1,
            WellKnownGate::Ry => 1,
            WellKnownGate::Rz => 1,
            WellKnownGate::H => 1,
            WellKnownGate::U => 1,
            WellKnownGate::Swap => 2,
        }
    }

    /// Returns the number of floating point parameters that this gate takes as
    /// inputs.
    pub fn num_params(&self) -> (r: usize)
        ensures
            r == well_known_num_params(*self),
    {
        match self {
            WellKnownGate::GPhase => 1,
            WellKnownGate::I => 0,
            WellKnownGate::X => 0,
            WellKnownGate::Y => 0,
            WellKnownGate::Z => 0,
            WellKnownGate::S => 0,
            WellKnownGate::T => 0,
            WellKnownGate::R1 => 1,
            WellKnownGate::Rx => 1,
            WellKnownGate::Ry => 1,
            WellKnownGate::Rz => 1,
            WellKnownGate::H => 0,
            WellKnownGate::U => 3,
            WellKnownGate::Swap => 0,
        }
    }
}

} // verus!
