//! Operation-type payloads survive the trip through encode and load.

use jeff::data::ControlFlowData;
use jeff::data::DefinitionData;
use jeff::data::FunctionData;
use jeff::data::GateData;
use jeff::data::GateTypeData;
use jeff::data::IntArrayOpData;
use jeff::data::FloatArrayOpData;
use jeff::data::ModuleData;
use jeff::data::OpData;
use jeff::data::OpTypeData;
use jeff::data::QubitOpData;
use jeff::data::RegionData;
use jeff::encode::encode_module;
use jeff::reader::optype::qubit::Pauli;
use jeff::reader::optype::ControlFlowOp;
use jeff::reader::optype::FloatArrayOp;
use jeff::reader::optype::FloatOp;
use jeff::reader::optype::GateOpType;
use jeff::reader::optype::IntArrayOp;
use jeff::reader::optype::IntOp;
use jeff::reader::optype::OpType;
use jeff::reader::optype::QubitOp;
use jeff::reader::optype::QubitRegisterOp;
use jeff::reader::optype::WellKnownGate;
use jeff::reader::Function;
use jeff::reader::Operation;
use jeff::reader::Region;
use jeff::types::FloatPrecision;
use jeff::Jeff;
use jeff::SCHEMA_VERSION;

fn empty_region() -> RegionData {
    RegionData { sources: vec![], targets: vec![], operations: vec![], metadata: vec![] }
}

fn op(op_type: OpTypeData) -> OpData {
    OpData { op_type, inputs: vec![], outputs: vec![], metadata: vec![] }
}

/// A module whose single function body holds the given operations, over the
/// given region arena tail.
fn module_with(ops: Vec<OpData>, extra_regions: Vec<RegionData>) -> ModuleData {
    let body = RegionData { sources: vec![], targets: vec![], operations: ops, metadata: vec![] };
    let mut regions = vec![body];
    regions.extend(extra_regions);
    let def = DefinitionData { name: 0, values: vec![], regions, metadata: vec![] };
    ModuleData {
        version: SCHEMA_VERSION,
        tool: vec![],
        tool_version: vec![],
        entrypoint: 0,
        strings: vec![b"main".to_vec(), b"mygate".to_vec()],
        functions: vec![FunctionData::Definition(def)],
        metadata: vec![],
    }
}

fn body_of(jeff: &Jeff) -> Region<'_> {
    match jeff.module().function(0) {
        Function::Definition(def) => def.body(),
        _ => panic!("expected a definition"),
    }
}

fn single_op(jeff: &Jeff) -> Operation<'_> {
    let body = body_of(jeff);
    assert_eq!(body.operation_count(), 1);
    body.operation(0)
}

#[test]
fn int_const_payloads() {
    let m = module_with(
        vec![
            op(OpTypeData::IntOp(IntOp::Const1(true))),
            op(OpTypeData::IntOp(IntOp::Const8(0xab))),
            op(OpTypeData::IntOp(IntOp::Const16(0xbeef))),
            op(OpTypeData::IntOp(IntOp::Const32(0xdead_beef))),
            op(OpTypeData::IntOp(IntOp::Const64(0x0123_4567_89ab_cdef))),
            op(OpTypeData::IntOp(IntOp::Shr)),
        ],
        vec![],
    );
    let jeff = Jeff::read(encode_module(&m)).unwrap();
    let body = body_of(&jeff);
    let expect = [
        IntOp::Const1(true),
        IntOp::Const8(0xab),
        IntOp::Const16(0xbeef),
        IntOp::Const32(0xdead_beef),
        IntOp::Const64(0x0123_4567_89ab_cdef),
        IntOp::Shr,
    ];
    for (i, want) in expect.iter().enumerate() {
        match body.operation(i).op_type() {
            OpType::IntOp(got) => assert_eq!(got, *want),
            other => panic!("expected an int op, got {:?}", other),
        }
    }
}

#[test]
fn float_const_bit_patterns() {
    let bits64 = 3.141592653589793_f64.to_bits();
    let bits32 = 2.5_f32.to_bits();
    let m = module_with(
        vec![
            op(OpTypeData::FloatOp(FloatOp::Const32(bits32))),
            op(OpTypeData::FloatOp(FloatOp::Const64(bits64))),
            op(OpTypeData::FloatOp(FloatOp::Atan2)),
        ],
        vec![],
    );
    let jeff = Jeff::read(encode_module(&m)).unwrap();
    let body = body_of(&jeff);
    match body.operation(0).op_type() {
        OpType::FloatOp(FloatOp::Const32(got)) => {
            assert_eq!(f32::from_bits(got), 2.5);
        }
        other => panic!("expected a float const, got {:?}", other),
    }
    match body.operation(1).op_type() {
        OpType::FloatOp(FloatOp::Const64(got)) => {
            assert_eq!(f64::from_bits(got), 3.141592653589793);
        }
        other => panic!("expected a float const, got {:?}", other),
    }
    assert!(matches!(body.operation(2).op_type(), OpType::FloatOp(FloatOp::Atan2)));
}

#[test]
fn int_array_const_elements() {
    let m = module_with(
        vec![op(OpTypeData::IntArrayOp(IntArrayOpData::ConstArray16(vec![7, 8, 9])))],
        vec![],
    );
    let jeff = Jeff::read(encode_module(&m)).unwrap();
    match single_op(&jeff).op_type() {
        OpType::IntArrayOp(IntArrayOp::ConstArray16(arr)) => {
            assert_eq!(arr.len(), 3);
            assert!(!arr.is_empty());
            assert_eq!(arr.get(0), 7);
            assert_eq!(arr.get(2), 9);
            assert_eq!(arr.values(), &vec![7u16, 8, 9]);
        }
        other => panic!("expected an int array const, got {:?}", other),
    }
}

#[test]
fn float_array_zero_precision() {
    let m = module_with(
        vec![op(
            OpTypeData::FloatArrayOp(FloatArrayOpData::Zero { precision: FloatPrecision::Float64 }),
        )],
        vec![],
    );
    let jeff = Jeff::read(encode_module(&m)).unwrap();
    match single_op(&jeff).op_type() {
        OpType::FloatArrayOp(FloatArrayOp::Zero { precision }) => {
            assert_eq!(precision, FloatPrecision::Float64);
        }
        other => panic!("expected a float array zero, got {:?}", other),
    }
}

#[test]
fn qubit_register_and_call_ops() {
    let m = module_with(
        vec![
            op(OpTypeData::QubitRegisterOp(QubitRegisterOp::ExtractSlice)),
            op(OpTypeData::FuncOp(jeff::reader::optype::FuncOp { func_idx: 42 })),
            op(OpTypeData::QubitOp(QubitOpData::MeasureNd)),
        ],
        vec![],
    );
    let jeff = Jeff::read(encode_module(&m)).unwrap();
    let body = body_of(&jeff);
    assert!(matches!(
        body.operation(0).op_type(),
        OpType::QubitRegisterOp(QubitRegisterOp::ExtractSlice)
    ));
    match body.operation(1).op_type() {
        OpType::FuncOp(f) => assert_eq!(f.func_idx, 42),
        other => panic!("expected a call, got {:?}", other),
    }
    assert!(matches!(body.operation(2).op_type(), OpType::QubitOp(QubitOp::MeasureNd)));
}

#[test]
fn custom_gate_resolves_name_through_string_table() {
    let gate = GateData {
        gate_type: GateTypeData::Custom { name: 1, num_qubits: 2, num_params: 1 },
        control_qubits: 1,
        adjoint: true,
        power: 3,
    };
    let m = module_with(vec![op(OpTypeData::QubitOp(QubitOpData::Gate(gate)))], vec![]);
    let jeff = Jeff::read(encode_module(&m)).unwrap();
    let module = jeff.module();
    match single_op(&jeff).op_type() {
        OpType::QubitOp(QubitOp::Gate(gate)) => {
            assert_eq!(gate.control_qubits, 1);
            assert!(gate.adjoint);
            assert_eq!(gate.power, 3);
            assert_eq!(gate.num_qubits(), 3);
            assert_eq!(gate.num_params(), 1);
            match gate.gate_type {
                GateOpType::Custom { name, num_qubits, num_params } => {
                    assert_eq!(module.strings().get(name, "gate name").unwrap(), "mygate");
                    assert_eq!(num_qubits, 2);
                    assert_eq!(num_params, 1);
                }
                other => panic!("expected a custom gate, got {:?}", other),
            }
        }
        other => panic!("expected a gate, got {:?}", other),
    }
}

#[test]
fn pauli_rotation_gate_round_trips() {
    let gate = GateData {
        gate_type: GateTypeData::PauliProdRotation {
            paulis: vec![Pauli::X, Pauli::Y, Pauli::Z, Pauli::I],
        },
        control_qubits: 0,
        adjoint: false,
        power: 1,
    };
    let m = module_with(vec![op(OpTypeData::QubitOp(QubitOpData::Gate(gate)))], vec![]);
    let jeff = Jeff::read(encode_module(&m)).unwrap();
    match single_op(&jeff).op_type() {
        OpType::QubitOp(QubitOp::Gate(gate)) => {
            assert_eq!(gate.num_qubits(), 4);
            assert_eq!(gate.num_params(), 1);
            match gate.gate_type {
                GateOpType::PauliProdRotation { pauli_string } => {
                    assert_eq!(pauli_string.len(), 4);
                    assert!(matches!(pauli_string.get(1), Pauli::Y));
                }
                other => panic!("expected a rotation, got {:?}", other),
            }
        }
        other => panic!("expected a gate, got {:?}", other),
    }
}

#[test]
fn well_known_gate_round_trips() {
    let gate = GateData {
        gate_type: GateTypeData::WellKnown(WellKnownGate::H),
        control_qubits: 0,
        adjoint: false,
        power: 1,
    };
    let m = module_with(vec![op(OpTypeData::QubitOp(QubitOpData::Gate(gate)))], vec![]);
    let jeff = Jeff::read(encode_module(&m)).unwrap();
    match single_op(&jeff).op_type() {
        OpType::QubitOp(QubitOp::Gate(gate)) => {
            assert!(matches!(gate.gate_type, GateOpType::WellKnown(WellKnownGate::H)));
        }
        other => panic!("expected a gate, got {:?}", other),
    }
}

#[test]
fn loop_ops_expose_nested_regions() {
    let body_region = RegionData {
        sources: vec![],
        targets: vec![],
        operations: vec![op(OpTypeData::IntOp(IntOp::Add))],
        metadata: vec![],
    };
    let m = module_with(
        vec![
            op(OpTypeData::ControlFlowOp(ControlFlowData::For { region: 1 })),
            op(OpTypeData::ControlFlowOp(ControlFlowData::While { condition: 2, body: 1 })),
            op(OpTypeData::ControlFlowOp(ControlFlowData::DoWhile { body: 1, condition: 2 })),
        ],
        vec![body_region, empty_region()],
    );
    let jeff = Jeff::read(encode_module(&m)).unwrap();
    let body = body_of(&jeff);

    match body.operation(0).op_type() {
        OpType::ControlFlowOp(cf) => match *cf {
            ControlFlowOp::For { region } => {
                assert_eq!(region.operation_count(), 1);
                assert!(matches!(region.operation(0).op_type(), OpType::IntOp(IntOp::Add)));
            }
            other => panic!("expected a for loop, got {:?}", other),
        },
        other => panic!("expected control flow, got {:?}", other),
    }
    match body.operation(1).op_type() {
        OpType::ControlFlowOp(cf) => match *cf {
            ControlFlowOp::While { condition, body } => {
                assert_eq!(condition.operation_count(), 0);
                assert_eq!(body.operation_count(), 1);
            }
            other => panic!("expected a while loop, got {:?}", other),
        },
        other => panic!("expected control flow, got {:?}", other),
    }
    match body.operation(2).op_type() {
        OpType::ControlFlowOp(cf) => match *cf {
            ControlFlowOp::DoWhile { body, condition } => {
                assert_eq!(body.operation_count(), 1);
                assert_eq!(condition.operation_count(), 0);
            }
            other => panic!("expected a do-while loop, got {:?}", other),
        },
        other => panic!("expected control flow, got {:?}", other),
    }
}
