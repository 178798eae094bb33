//! Loading, version gate and the borrowed/owned duality.

use jeff::data::DefinitionData;
use jeff::data::FunctionData;
use jeff::data::MetaEntry;
use jeff::data::ModuleData;
use jeff::data::OpData;
use jeff::data::OpTypeData;
use jeff::data::QubitOpData;
use jeff::data::RegionData;
use jeff::data::ValueData;
use jeff::encode::encode_module;
use jeff::Jeff;
use jeff::JeffError;
use jeff::SCHEMA_VERSION;

fn empty_module(version: u32) -> ModuleData {
    ModuleData {
        version,
        tool: b"tester".to_vec(),
        tool_version: b"0.1".to_vec(),
        entrypoint: 0,
        strings: vec![b"main".to_vec()],
        functions: vec![],
        metadata: vec![],
    }
}

fn one_function_module() -> ModuleData {
    let body = RegionData {
        sources: vec![],
        targets: vec![],
        operations: vec![OpData {
            op_type: OpTypeData::QubitOp(QubitOpData::Alloc),
            inputs: vec![],
            outputs: vec![0],
            metadata: vec![],
        }],
        metadata: vec![MetaEntry {
            name: 0,
            value: b"note".to_vec(),
        }],
    };
    let def = DefinitionData {
        name: 0,
        values: vec![ValueData {
            ty: jeff::types::Type::Qubit,
            metadata: vec![],
        }],
        regions: vec![body],
        metadata: vec![],
    };
    ModuleData {
        version: SCHEMA_VERSION,
        tool: b"tester".to_vec(),
        tool_version: b"0.1".to_vec(),
        entrypoint: 0,
        strings: vec![b"main".to_vec()],
        functions: vec![FunctionData::Definition(def)],
        metadata: vec![],
    }
}

#[test]
fn load_supported_version() {
    let bytes = encode_module(&empty_module(SCHEMA_VERSION));
    let jeff = Jeff::read(bytes).unwrap();
    assert_eq!(jeff.module().version(), SCHEMA_VERSION);
}

#[test]
fn load_wrong_version() {
    let bytes = encode_module(&empty_module(7));
    match Jeff::read(bytes) {
        Err(JeffError::InvalidVersion { v }) => assert_eq!(v, 7),
        other => panic!("expected InvalidVersion, got {:?}", other),
    }
}

#[test]
fn load_garbage() {
    let bytes = b"this is not a jeff message".to_vec();
    assert!(matches!(Jeff::read(bytes), Err(JeffError::InvalidFile)));
}

#[test]
fn load_truncated() {
    let mut bytes = encode_module(&one_function_module());
    bytes.truncate(bytes.len() - 1);
    assert!(matches!(Jeff::read(bytes), Err(JeffError::InvalidFile)));
}

#[test]
fn load_empty_buffer() {
    assert!(matches!(Jeff::read(vec![]), Err(JeffError::InvalidFile)));
}

#[test]
fn load_rejects_definition_without_body_region() {
    let def = DefinitionData {
        name: 0,
        values: vec![],
        regions: vec![],
        metadata: vec![],
    };
    let mut m = empty_module(SCHEMA_VERSION);
    m.functions = vec![FunctionData::Definition(def)];
    let bytes = encode_module(&m);
    assert!(matches!(Jeff::read(bytes), Err(JeffError::InvalidFile)));
}

#[test]
fn load_rejects_dangling_region_reference() {
    let body = RegionData {
        sources: vec![],
        targets: vec![],
        operations: vec![OpData {
            op_type: OpTypeData::ControlFlowOp(jeff::data::ControlFlowData::For { region: 5 }),
            inputs: vec![],
            outputs: vec![],
            metadata: vec![],
        }],
        metadata: vec![],
    };
    let def = DefinitionData {
        name: 0,
        values: vec![],
        regions: vec![body],
        metadata: vec![],
    };
    let mut m = empty_module(SCHEMA_VERSION);
    m.functions = vec![FunctionData::Definition(def)];
    let bytes = encode_module(&m);
    assert!(matches!(Jeff::read(bytes), Err(JeffError::InvalidFile)));
}

#[test]
fn read_slice_advances_past_message() {
    let mut bytes = encode_module(&one_function_module());
    let first_len = bytes.len();
    bytes.extend(encode_module(&empty_module(SCHEMA_VERSION)));
    assert!(bytes.len() > first_len);

    let mut slice: &[u8] = &bytes;
    let first = Jeff::read_slice(&mut slice).unwrap();
    assert_eq!(slice.len(), bytes.len() - first_len);
    assert_eq!(first.module().function_count(), 1);

    let second = Jeff::read_slice(&mut slice).unwrap();
    assert!(slice.is_empty());
    assert_eq!(second.module().function_count(), 0);
}

#[test]
fn read_slice_unchanged_on_error() {
    let bytes = b"bogus bytes".to_vec();
    let mut slice: &[u8] = &bytes;
    assert!(matches!(
        Jeff::read_slice(&mut slice),
        Err(JeffError::InvalidFile)
    ));
    assert_eq!(slice.len(), bytes.len());
}

#[test]
fn borrowed_and_owned_paths_agree() {
    let bytes = encode_module(&one_function_module());

    let mut slice: &[u8] = &bytes;
    let borrowed = Jeff::read_slice(&mut slice).unwrap();
    let owned = Jeff::read(bytes.clone()).unwrap();

    let bm = borrowed.module();
    let om = owned.module();
    assert_eq!(bm.version(), om.version());
    assert_eq!(bm.tool(), om.tool());
    assert_eq!(bm.tool_version(), om.tool_version());
    assert_eq!(bm.function_count(), om.function_count());
    assert_eq!(bm.entrypoint_id(), om.entrypoint_id());
    assert_eq!(bm.strings().len(), om.strings().len());
    assert_eq!(bm.metadata_count(), om.metadata_count());

    let bf = bm.function(0);
    let of = om.function(0);
    assert_eq!(bf.name().unwrap(), of.name().unwrap());
    match (bf, of) {
        (jeff::reader::Function::Definition(bd), jeff::reader::Function::Definition(od)) => {
            let bbody = bd.body();
            let obody = od.body();
            assert_eq!(bbody.operation_count(), obody.operation_count());
            assert_eq!(bbody.source_count(), obody.source_count());
            assert_eq!(bbody.target_count(), obody.target_count());
            let bop = bbody.operation(0);
            let oop = obody.operation(0);
            assert_eq!(bop.input_count(), oop.input_count());
            assert_eq!(bop.output_count(), oop.output_count());
            let bv = bop.output(0).unwrap().unwrap();
            let ov = oop.output(0).unwrap().unwrap();
            assert_eq!(bv.id(), ov.id());
            assert_eq!(bv.ty(), ov.ty());
            assert_eq!(bbody.metadata(0).unwrap().name(), obody.metadata(0).unwrap().name());
            assert_eq!(
                bbody.metadata(0).unwrap().value_str(),
                obody.metadata(0).unwrap().value_str()
            );
        }
        _ => panic!("expected definitions"),
    }
}

#[test]
fn tool_strings_survive_round_trip() {
    let bytes = encode_module(&one_function_module());
    let jeff = Jeff::read(bytes).unwrap();
    let module = jeff.module();
    assert_eq!(module.tool(), "tester");
    assert_eq!(module.tool_version(), "0.1");
}

#[test]
fn tool_falls_back_to_empty_on_invalid_utf8() {
    let mut m = empty_module(SCHEMA_VERSION);
    m.tool = vec![0xff, 0xfe];
    let bytes = encode_module(&m);
    let jeff = Jeff::read(bytes).unwrap();
    assert_eq!(jeff.module().tool(), "");
}
