//! String table, value table and metadata lookups.

use jeff::data::DefinitionData;
use jeff::data::FunctionData;
use jeff::data::MetaEntry;
use jeff::data::ModuleData;
use jeff::data::RegionData;
use jeff::data::ValueData;
use jeff::encode::encode_module;
use jeff::reader::Function;
use jeff::reader::ReadError;
use jeff::types::Type;
use jeff::Jeff;
use jeff::SCHEMA_VERSION;

fn table_module() -> ModuleData {
    let def = DefinitionData {
        name: 0,
        values: vec![
            ValueData { ty: Type::Qubit, metadata: vec![] },
            ValueData { ty: Type::Int { bits: 8 }, metadata: vec![] },
            ValueData {
                ty: Type::QubitRegister,
                metadata: vec![MetaEntry { name: 2, value: b"important".to_vec() }],
            },
        ],
        regions: vec![RegionData {
            sources: vec![],
            targets: vec![],
            operations: vec![],
            metadata: vec![],
        }],
        metadata: vec![],
    };
    ModuleData {
        version: SCHEMA_VERSION,
        tool: vec![],
        tool_version: vec![],
        entrypoint: 0,
        strings: vec![b"main".to_vec(), vec![0xff, 0xfe, 0xfd], b"origin".to_vec()],
        functions: vec![FunctionData::Definition(def)],
        metadata: vec![
            MetaEntry { name: 2, value: b"somewhere".to_vec() },
            MetaEntry { name: 9, value: vec![] },
            MetaEntry { name: 1, value: vec![] },
            MetaEntry { name: 0, value: vec![1, 2, 3] },
        ],
    }
}

#[test]
fn string_table_get_in_range() {
    let jeff = Jeff::read(encode_module(&table_module())).unwrap();
    let module = jeff.module();
    let strings = module.strings();
    assert_eq!(strings.len(), 3);
    assert_eq!(strings.get(0, "test").unwrap(), "main");
    assert_eq!(strings.get(2, "test").unwrap(), "origin");
}

#[test]
fn string_table_get_out_of_bounds() {
    let jeff = Jeff::read(encode_module(&table_module())).unwrap();
    let module = jeff.module();
    let strings = module.strings();
    match strings.get(3, "probe") {
        Err(ReadError::StringOutOfBounds { context, idx, count }) => {
            assert_eq!(context, "probe");
            assert_eq!(idx, 3);
            assert_eq!(count, 3);
        }
        other => panic!("expected StringOutOfBounds, got {:?}", other),
    }
    assert!(matches!(
        strings.get(u16::MAX, "probe"),
        Err(ReadError::StringOutOfBounds { .. })
    ));
}

#[test]
fn string_table_get_invalid_utf8() {
    let jeff = Jeff::read(encode_module(&table_module())).unwrap();
    let module = jeff.module();
    match module.strings().get(1, "probe") {
        Err(ReadError::StringNotUtf8 { context, idx }) => {
            assert_eq!(context, "probe");
            assert_eq!(idx, 1);
        }
        other => panic!("expected StringNotUtf8, got {:?}", other),
    }
}

#[test]
fn value_table_get_in_range() {
    let jeff = Jeff::read(encode_module(&table_module())).unwrap();
    let module = jeff.module();
    let def = match module.function(0) {
        Function::Definition(def) => def,
        _ => panic!("expected a definition"),
    };
    let values = def.values();
    assert_eq!(values.len(), 3);
    assert!(!values.is_empty());
    let v0 = values.get(0).unwrap();
    assert_eq!(v0.id(), 0);
    assert_eq!(v0.ty(), Type::Qubit);
    let v1 = values.get(1).unwrap();
    assert_eq!(v1.id(), 1);
    assert_eq!(v1.ty(), Type::Int { bits: 8 });
}

#[test]
fn value_table_get_out_of_bounds() {
    let jeff = Jeff::read(encode_module(&table_module())).unwrap();
    let module = jeff.module();
    let def = match module.function(0) {
        Function::Definition(def) => def,
        _ => panic!("expected a definition"),
    };
    match def.values().get(3) {
        Err(ReadError::ValueOutOfBounds { idx, count }) => {
            assert_eq!(idx, 3);
            assert_eq!(count, 3);
        }
        other => panic!("expected ValueOutOfBounds, got {:?}", other),
    }
}

#[test]
fn value_table_iter_in_order() {
    let jeff = Jeff::read(encode_module(&table_module())).unwrap();
    let module = jeff.module();
    let def = match module.function(0) {
        Function::Definition(def) => def,
        _ => panic!("expected a definition"),
    };
    let entries = def.values().iter();
    assert_eq!(entries.len(), 3);
    for (i, (id, value)) in entries.iter().enumerate() {
        assert_eq!(*id, i as u32);
        assert_eq!(value.id(), i as u32);
    }
    assert_eq!(entries[2].1.ty(), Type::QubitRegister);
}

#[test]
fn value_metadata_resolves_through_string_table() {
    let jeff = Jeff::read(encode_module(&table_module())).unwrap();
    let module = jeff.module();
    let def = match module.function(0) {
        Function::Definition(def) => def,
        _ => panic!("expected a definition"),
    };
    let value = def.values().get(2).unwrap();
    assert_eq!(value.metadata_count(), 1);
    let meta = value.metadata(0).unwrap();
    assert_eq!(meta.name(), "origin");
    assert_eq!(meta.value_str(), Some("important"));
    assert!(value.try_metadata(1).is_none());
}

#[test]
fn module_metadata_lookup_errors() {
    let jeff = Jeff::read(encode_module(&table_module())).unwrap();
    let module = jeff.module();
    assert_eq!(module.metadata_count(), 4);

    let ok = module.metadata(0).unwrap();
    assert_eq!(ok.name(), "origin");
    assert_eq!(ok.value_str(), Some("somewhere"));

    match module.metadata(1) {
        Err(ReadError::StringOutOfBounds { context, idx, count }) => {
            assert_eq!(context, "metadata name");
            assert_eq!(idx, 9);
            assert_eq!(count, 3);
        }
        other => panic!("expected StringOutOfBounds, got {:?}", other),
    }

    assert!(matches!(
        module.metadata(2),
        Err(ReadError::StringNotUtf8 { .. })
    ));

    let raw = module.metadata(3).unwrap();
    assert_eq!(raw.name(), "main");
    assert_eq!(raw.value_bytes(), &vec![1u8, 2, 3]);
    assert_eq!(raw.value_str(), Some("\u{1}\u{2}\u{3}"));

    assert!(module.try_metadata(4).is_none());
    assert!(module.try_metadata(0).is_some());
}
