//! Gate arities, Pauli strings and the type system.

use jeff::reader::optype::GateOp;
use jeff::reader::optype::GateOpType;
use jeff::reader::optype::PauliString;
use jeff::reader::optype::WellKnownGate;
use jeff::reader::optype::qubit::Pauli;
use jeff::types::FloatPrecision;
use jeff::types::Type;
use jeff::Direction;

#[test]
fn well_known_gate_arities() {
    assert_eq!(WellKnownGate::Swap.num_qubits(), 2);
    assert_eq!(WellKnownGate::Swap.num_params(), 0);
    assert_eq!(WellKnownGate::GPhase.num_qubits(), 0);
    assert_eq!(WellKnownGate::GPhase.num_params(), 1);
    assert_eq!(WellKnownGate::I.num_qubits(), 1);
    assert_eq!(WellKnownGate::I.num_params(), 0);
    assert_eq!(WellKnownGate::Rz.num_qubits(), 1);
    assert_eq!(WellKnownGate::Rz.num_params(), 1);
    assert_eq!(WellKnownGate::U.num_qubits(), 1);
    assert_eq!(WellKnownGate::U.num_params(), 3);
    assert_eq!(WellKnownGate::H.num_params(), 0);
}

#[test]
fn controlled_swap_acts_on_three_qubits() {
    let gate = GateOp {
        gate_type: GateOpType::WellKnown(WellKnownGate::Swap),
        control_qubits: 1,
        adjoint: false,
        power: 1,
    };
    assert_eq!(gate.num_qubits(), 3);
    assert_eq!(gate.num_params(), 0);
}

#[test]
fn custom_gate_arities() {
    let gate = GateOp {
        gate_type: GateOpType::Custom { name: 0, num_qubits: 2, num_params: 1 },
        control_qubits: 0,
        adjoint: false,
        power: 1,
    };
    assert_eq!(gate.num_qubits(), 2);
    assert_eq!(gate.num_params(), 1);
}

#[test]
fn adjoint_and_power_do_not_change_arity() {
    let gate = GateOp {
        gate_type: GateOpType::WellKnown(WellKnownGate::Rz),
        control_qubits: 0,
        adjoint: true,
        power: 42,
    };
    assert_eq!(gate.num_qubits(), 1);
    assert_eq!(gate.num_params(), 1);
}

#[test]
fn default_gate_is_the_identity() {
    let gate = GateOp { ..Default::default() };
    assert!(matches!(gate.gate_type, GateOpType::WellKnown(WellKnownGate::I)));
    assert_eq!(gate.control_qubits, 0);
    assert!(!gate.adjoint);
    assert_eq!(gate.power, 1);
    assert_eq!(gate.num_qubits(), 1);
    assert_eq!(gate.num_params(), 0);
}

#[test]
fn adjoint_euler_gate_keeps_three_params() {
    let gate = GateOp {
        gate_type: GateOpType::WellKnown(WellKnownGate::U),
        adjoint: true,
        ..Default::default()
    };
    assert_eq!(gate.num_qubits(), 1);
    assert_eq!(gate.num_params(), 3);
}

#[test]
fn pauli_string_arities() {
    let paulis = vec![Pauli::X, Pauli::Y, Pauli::Z, Pauli::I];
    let ps = PauliString::new(&paulis);
    assert_eq!(ps.num_qubits(), 4);
    assert_eq!(ps.num_params(), 1);
    assert_eq!(ps.len(), 4);
    assert!(!ps.is_empty());
    assert!(matches!(ps.get(0), Pauli::X));
    assert!(matches!(ps.get(3), Pauli::I));
    let names: Vec<&str> = ps.iter().iter().map(|p| p.name()).collect();
    assert_eq!(names, vec!["X", "Y", "Z", "I"]);
}

#[test]
fn pauli_rotation_gate_arities() {
    let paulis = vec![Pauli::X, Pauli::Y, Pauli::Z, Pauli::I];
    let gate = GateOp {
        gate_type: GateOpType::PauliProdRotation { pauli_string: PauliString::new(&paulis) },
        control_qubits: 0,
        adjoint: false,
        power: 1,
    };
    assert_eq!(gate.num_qubits(), 4);
    assert_eq!(gate.num_params(), 1);
}

#[test]
fn type_constructors() {
    assert_eq!(Type::new_bool(), Type::Int { bits: 1 });
    assert_eq!(Type::new_int(32), Type::Int { bits: 32 });
    assert_eq!(Type::int_array(8), Type::IntArray { bits: 8 });
    assert_eq!(
        Type::new_float(FloatPrecision::Float64),
        Type::Float { precision: FloatPrecision::Float64 }
    );
    assert_eq!(
        Type::float_array(FloatPrecision::Float32),
        Type::FloatArray { precision: FloatPrecision::Float32 }
    );
}

#[test]
fn float_precision_bits() {
    assert_eq!(FloatPrecision::Float32.bits(), 32);
    assert_eq!(FloatPrecision::Float64.bits(), 64);
}

#[test]
fn direction_reverse() {
    assert_eq!(Direction::Incoming.reverse(), Direction::Outgoing);
    assert_eq!(Direction::Outgoing.reverse(), Direction::Incoming);
    assert_eq!(Direction::Incoming.reverse().reverse(), Direction::Incoming);
}
