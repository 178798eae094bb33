//! Module navigation: functions, regions, operations and switch branches.

use jeff::data::ControlFlowData;
use jeff::data::DeclarationData;
use jeff::data::DefinitionData;
use jeff::data::FunctionData;
use jeff::data::ModuleData;
use jeff::data::OpData;
use jeff::data::OpTypeData;
use jeff::data::RegionData;
use jeff::data::ValueData;
use jeff::encode::encode_module;
use jeff::reader::optype::ControlFlowOp;
use jeff::reader::optype::IntOp;
use jeff::reader::optype::OpType;
use jeff::reader::Function;
use jeff::types::Type;
use jeff::Jeff;
use jeff::SCHEMA_VERSION;

fn empty_region() -> RegionData {
    RegionData { sources: vec![], targets: vec![], operations: vec![], metadata: vec![] }
}

/// One definition named "main", no inputs or outputs, whose body holds one
/// switch with two branches and a default branch.
fn switch_module() -> ModuleData {
    let body = RegionData {
        sources: vec![],
        targets: vec![],
        operations: vec![OpData {
            op_type: OpTypeData::ControlFlowOp(ControlFlowData::Switch {
                branches: vec![1, 2],
                default: Some(3),
            }),
            inputs: vec![],
            outputs: vec![],
            metadata: vec![],
        }],
        metadata: vec![],
    };
    let def = DefinitionData {
        name: 0,
        values: vec![],
        regions: vec![body, empty_region(), empty_region(), empty_region()],
        metadata: vec![],
    };
    ModuleData {
        version: SCHEMA_VERSION,
        tool: vec![],
        tool_version: vec![],
        entrypoint: 0,
        strings: vec![b"main".to_vec()],
        functions: vec![FunctionData::Definition(def)],
        metadata: vec![],
    }
}

#[test]
fn switch_scenario_end_to_end() {
    let jeff = Jeff::read(encode_module(&switch_module())).unwrap();
    let module = jeff.module();
    assert_eq!(module.function_count(), 1);
    assert_eq!(module.entrypoint_id(), 0);

    let function = module.function(0);
    assert_eq!(function.name().unwrap(), "main");
    assert_eq!(function.input_types().len(), 0);
    assert_eq!(function.output_types().len(), 0);

    let def = match function {
        Function::Definition(def) => def,
        _ => panic!("expected a definition"),
    };
    let body = def.body();
    assert_eq!(body.operation_count(), 1);

    let op = body.operation(0);
    let switch = match op.op_type() {
        OpType::ControlFlowOp(cf) => match *cf {
            ControlFlowOp::Switch(sw) => sw,
            _ => panic!("expected a switch"),
        },
        _ => panic!("expected a control-flow op"),
    };
    assert_eq!(switch.branch_count(), 2);
    assert!(switch.default_branch().is_some());
    assert_eq!(switch.branches().len(), 2);
}

#[test]
fn switch_branch_bounds() {
    let mut m = switch_module();
    // Same switch without the default branch.
    match &mut m.functions[0] {
        FunctionData::Definition(def) => {
            def.regions[0].operations[0].op_type = OpTypeData::ControlFlowOp(
                ControlFlowData::Switch { branches: vec![1, 2], default: None },
            );
        }
        _ => panic!(),
    }
    let jeff = Jeff::read(encode_module(&m)).unwrap();
    let module = jeff.module();
    let def = match module.function(0) {
        Function::Definition(def) => def,
        _ => panic!(),
    };
    let op = def.body().operation(0);
    let switch = match op.op_type() {
        OpType::ControlFlowOp(cf) => match *cf {
            ControlFlowOp::Switch(sw) => sw,
            _ => panic!(),
        },
        _ => panic!(),
    };
    assert_eq!(switch.branch_count(), 2);
    let last = switch.branch(1);
    assert_eq!(last.operation_count(), 0);
    assert!(switch.try_branch(1).is_some());
    assert!(switch.try_branch(2).is_none());
    assert!(switch.default_branch().is_none());
}

/// A module whose entrypoint is the second of three functions.
fn three_function_module() -> ModuleData {
    let mk = |name: u16| {
        FunctionData::Definition(DefinitionData {
            name,
            values: vec![],
            regions: vec![empty_region()],
            metadata: vec![],
        })
    };
    ModuleData {
        version: SCHEMA_VERSION,
        tool: vec![],
        tool_version: vec![],
        entrypoint: 1,
        strings: vec![b"alpha".to_vec(), b"beta".to_vec(), b"gamma".to_vec()],
        functions: vec![mk(0), mk(1), mk(2)],
        metadata: vec![],
    }
}

#[test]
fn entrypoint_is_nth_function() {
    let jeff = Jeff::read(encode_module(&three_function_module())).unwrap();
    let module = jeff.module();
    assert_eq!(module.entrypoint_id(), 1);
    let by_index = module.function(module.entrypoint_id());
    let by_list = &module.functions()[module.entrypoint_id() as usize];
    let entry = module.entrypoint();
    assert_eq!(entry.name().unwrap(), "beta");
    assert_eq!(by_index.name().unwrap(), "beta");
    assert_eq!(by_list.name().unwrap(), "beta");
    assert!(module.try_function(2).is_some());
    assert!(module.try_function(3).is_none());
}

/// A definition whose body has typed boundary sources and targets, plus a
/// declaration with the same signature stored as value lists.
fn signature_module() -> ModuleData {
    let values = vec![
        ValueData { ty: Type::Qubit, metadata: vec![] },
        ValueData { ty: Type::Int { bits: 8 }, metadata: vec![] },
        ValueData { ty: Type::Int { bits: 1 }, metadata: vec![] },
    ];
    let body = RegionData {
        sources: vec![0, 1],
        targets: vec![2],
        operations: vec![OpData {
            op_type: OpTypeData::IntOp(IntOp::Eq),
            inputs: vec![0, 1],
            outputs: vec![2, 7],
            metadata: vec![],
        }],
        metadata: vec![],
    };
    let def = DefinitionData { name: 0, values, regions: vec![body], metadata: vec![] };
    let decl = DeclarationData {
        name: 1,
        inputs: vec![
            ValueData { ty: Type::Qubit, metadata: vec![] },
            ValueData { ty: Type::Int { bits: 8 }, metadata: vec![] },
        ],
        outputs: vec![ValueData { ty: Type::Int { bits: 1 }, metadata: vec![] }],
        metadata: vec![],
    };
    ModuleData {
        version: SCHEMA_VERSION,
        tool: vec![],
        tool_version: vec![],
        entrypoint: 0,
        strings: vec![b"defined".to_vec(), b"declared".to_vec()],
        functions: vec![FunctionData::Definition(def), FunctionData::Declaration(decl)],
        metadata: vec![],
    }
}

#[test]
fn definition_signature_comes_from_body_boundary() {
    let jeff = Jeff::read(encode_module(&signature_module())).unwrap();
    let module = jeff.module();
    let function = module.function(0);

    let inputs = function.input_types();
    let def = match module.function(0) {
        Function::Definition(def) => def,
        _ => panic!(),
    };
    let sources = def.body().sources();
    assert_eq!(inputs.len(), sources.len());
    for (io, wire) in inputs.iter().zip(sources.iter()) {
        let io = io.as_ref().unwrap();
        let wire = wire.as_ref().unwrap();
        assert_eq!(io.ty(), wire.ty());
    }
    assert_eq!(inputs[0].as_ref().unwrap().ty(), Type::Qubit);
    assert_eq!(inputs[1].as_ref().unwrap().ty(), Type::Int { bits: 8 });

    let outputs = function.output_types();
    let targets = def.body().targets();
    assert_eq!(outputs.len(), targets.len());
    assert_eq!(outputs[0].as_ref().unwrap().ty(), Type::Int { bits: 1 });
    assert_eq!(targets[0].as_ref().unwrap().ty(), Type::Int { bits: 1 });
}

#[test]
fn declaration_signature_comes_from_value_lists() {
    let jeff = Jeff::read(encode_module(&signature_module())).unwrap();
    let module = jeff.module();
    let function = module.function(1);
    assert_eq!(function.name().unwrap(), "declared");
    let inputs = function.input_types();
    assert_eq!(inputs.len(), 2);
    assert_eq!(inputs[0].as_ref().unwrap().ty(), Type::Qubit);
    assert_eq!(inputs[1].as_ref().unwrap().ty(), Type::Int { bits: 8 });
    let outputs = function.output_types();
    assert_eq!(outputs.len(), 1);
    assert_eq!(outputs[0].as_ref().unwrap().ty(), Type::Int { bits: 1 });
}

#[test]
fn operation_boundary_lookups() {
    let jeff = Jeff::read(encode_module(&signature_module())).unwrap();
    let module = jeff.module();
    let def = match module.function(0) {
        Function::Definition(def) => def,
        _ => panic!(),
    };
    let body = def.body();
    let op = body.operation(0);

    assert_eq!(op.input_count(), 2);
    assert_eq!(op.output_count(), 2);
    assert!(matches!(op.op_type(), OpType::IntOp(IntOp::Eq)));

    let in_types = op.input_types();
    assert_eq!(in_types[0].as_ref().unwrap(), &Type::Qubit);
    assert_eq!(in_types[1].as_ref().unwrap(), &Type::Int { bits: 8 });

    // Output id 7 dangles: the lookup reports the table size.
    let out_types = op.output_types();
    assert!(out_types[0].is_ok());
    match out_types[1] {
        Err(jeff::reader::ReadError::ValueOutOfBounds { idx, count }) => {
            assert_eq!(idx, 7);
            assert_eq!(count, 3);
        }
        ref other => panic!("expected ValueOutOfBounds, got {:?}", other),
    }

    let second = op.output(1).unwrap();
    assert!(second.is_err());
    assert!(op.output(2).is_none());
    assert!(op.input(0).unwrap().is_ok());

    // Region boundary accessors mirror the operation ones.
    assert_eq!(body.source_count(), 2);
    assert_eq!(body.target_count(), 1);
    assert!(body.source(0).unwrap().is_ok());
    assert!(body.source(2).is_none());
    assert!(body.target(0).unwrap().is_ok());
    let first_source = body.boundary_value(jeff::Direction::Incoming, 0).unwrap().unwrap();
    assert_eq!(first_source.id(), 0);
    assert_eq!(first_source.ty(), Type::Qubit);
}
