//! Whole-document loading, node round trips, and the decode errors.

use game_config::asset::{AssetId, AssetType};
use game_config::config::ConfigDTO;
use game_config::encode::{encode_asset_id, encode_element};
use game_config::error::ConfigError;
use game_config::decode::{decode_asset_id, decode_field_type};
use game_config::hierarchy::{
    ColorData, FolderDTO, GameElementDTO, GameElementTypeDTO, PartDTO, QuatData, TransformData,
    Vec3Data,
};
use game_config::nodes::decode_element;
use game_config::types::{Type, TypeDTO};
use game_config::value::{DocValue, NumValue};
use serde_json::Value;

fn value_to_doc(v: &Value) -> DocValue {
    match v {
        Value::Null => DocValue::Null,
        Value::Bool(b) => DocValue::Bool(*b),
        Value::Number(n) => DocValue::Num(NumValue {
            int: n.as_i64(),
            float_bits: n.as_f64().map(f64::to_bits),
        }),
        Value::String(s) => DocValue::Str(s.clone()),
        Value::Array(a) => DocValue::Arr(a.iter().map(value_to_doc).collect()),
        Value::Object(o) => DocValue::Obj(o.iter().map(|(k, w)| (k.clone(), value_to_doc(w))).collect()),
    }
}

fn dbits(x: f64) -> u64 {
    x.to_bits()
}

fn sample_part() -> PartDTO {
    PartDTO {
        size: Vec3Data { x: dbits(1.0), y: dbits(1.0), z: dbits(1.0) },
        color: ColorData {
            model: "Srgba".to_owned(),
            components: vec![
                ("alpha".to_owned(), dbits(1.0)),
                ("blue".to_owned(), dbits(0.75)),
                ("green".to_owned(), dbits(0.5)),
                ("red".to_owned(), dbits(0.25)),
            ],
        },
        position: TransformData {
            translation: Vec3Data { x: dbits(4.0), y: dbits(5.0), z: dbits(6.0) },
            rotation: QuatData { x: dbits(0.0), y: dbits(0.0), z: dbits(0.0), w: dbits(1.0) },
            scale: Vec3Data { x: dbits(1.0), y: dbits(1.0), z: dbits(1.0) },
        },
        gravity: false,
    }
}

#[test]
fn node_tree_round_trips_without_attributes() {
    let tree = GameElementDTO {
        name: "Root".to_owned(),
        value: GameElementTypeDTO::Folder(FolderDTO {}),
        children: Some(vec![
            GameElementDTO {
                name: "Box".to_owned(),
                value: GameElementTypeDTO::Part(sample_part()),
                children: None,
                attributes: Some(vec![(
                    "Inventory".to_owned(),
                    TypeDTO { fields: vec![("slots".to_owned(), Type::INT(Some(8)))] },
                )]),
            },
        ]),
        attributes: Some(vec![(
            "Meta".to_owned(),
            TypeDTO { fields: vec![("label".to_owned(), Type::STRING(None))] },
        )]),
    };
    let decoded = decode_element(&encode_element(&tree)).unwrap();
    let stripped = GameElementDTO {
        name: "Root".to_owned(),
        value: GameElementTypeDTO::Folder(FolderDTO {}),
        children: Some(vec![GameElementDTO {
            name: "Box".to_owned(),
            value: GameElementTypeDTO::Part(sample_part()),
            children: None,
            attributes: None,
        }]),
        attributes: None,
    };
    assert_eq!(stripped, decoded);
}

#[test]
fn asset_ids_round_trip() {
    for id in [
        AssetId::PublicCloud("0123456789abcdef0123456789abcdef".to_owned()),
        AssetId::PrivateCloud {
            asset_id: "64b0c9a1f0a4c800".to_owned(),
            version_id: "64b0c9a1f0a4c801".to_owned(),
        },
        AssetId::Local("assets/tree.glb".to_owned()),
    ] {
        let decoded = decode_asset_id(&encode_asset_id(&id), "asset", "id").unwrap();
        assert_eq!(id, decoded);
    }
}

#[test]
fn unknown_discriminant_is_rejected_not_defaulted() {
    let node: Value = serde_json::from_str(
        r#"{"name": "X", "type": "Blob", "value": {}}"#,
    )
    .unwrap();
    match decode_element(&value_to_doc(&node)).unwrap_err() {
        ConfigError::StructuralDecodeError { context, field } => {
            assert_eq!("X", context);
            assert_eq!("Blob", field);
        },
        other => panic!("expected a structural decode error, got {:?}", other),
    }
}

const DOCUMENT_JSON: &str = r#"{
        "assets": {},
        "types": {
            "Inventory": {
                "slots": {"type": "Int"}
            }
        },
        "actions": {},
        "keybinds": {},
        "hierarchy": [
            {
                "name": "Root",
                "type": "Folder",
                "value": {},
                "children": [
                    {
                        "name": "Box",
                        "type": "Part",
                        "value": {
                            "size": [1, 1, 1],
                            "color": {"Srgba": {"red": 0.25, "green": 0.5, "blue": 0.75, "alpha": 1.0}},
                            "position": {
                                "translation": [4.0, 5.0, 6.0],
                                "rotation": [0.0, 0.0, 0.0, 1.0],
                                "scale": [1.0, 1.0, 1.0]
                            },
                            "gravity": false
                        }
                    }
                ]
            }
        ],
        "terrain": {}
    }"#;

#[test]
fn document_loads_end_to_end() {
    let json: Value = serde_json::from_str(DOCUMENT_JSON).unwrap();
    let doc = ConfigDTO::load(&value_to_doc(&json)).unwrap();

    assert_eq!(1, doc.types.len());
    assert_eq!("Inventory", doc.types[0].0);
    assert_eq!(
        vec![("slots".to_owned(), Type::INT(None))],
        doc.types[0].1.fields
    );

    assert_eq!(1, doc.hierarchy.len());
    let root = &doc.hierarchy[0];
    assert_eq!("Root", root.name);
    assert!(matches!(root.value, GameElementTypeDTO::Folder(_)));
    let children = root.children.as_ref().unwrap();
    assert_eq!(1, children.len());
    let child = &children[0];
    assert_eq!("Box", child.name);
    assert_eq!(GameElementTypeDTO::Part(sample_part()), child.value);
    assert!(child.children.is_none());
    assert!(child.attributes.is_none());
    assert!(doc.terrain.skybox.is_none());
}

#[test]
fn document_with_cyclic_types_is_rejected() {
    let json: Value = serde_json::from_str(
        r#"{
            "assets": {},
            "types": {
                "A": {"f": {"type": "Custom", "value": "B"}},
                "B": {"g": {"type": "Custom", "value": "A"}}
            },
            "actions": {},
            "keybinds": {},
            "hierarchy": [],
            "terrain": {}
        }"#,
    )
    .unwrap();
    match ConfigDTO::load(&value_to_doc(&json)).unwrap_err() {
        ConfigError::CircularDependency { a, b } => {
            assert_eq!("A", a);
            assert_eq!("B", b);
        },
        other => panic!("expected a circular dependency, got {:?}", other),
    }
}

fn local_asset() -> DocValue {
    DocValue::Obj(vec![
        (
            "id".to_owned(),
            DocValue::Obj(vec![
                ("type".to_owned(), DocValue::Str("Local".to_owned())),
                ("value".to_owned(), DocValue::Str("a.png".to_owned())),
            ]),
        ),
        ("type".to_owned(), DocValue::Str("Image".to_owned())),
    ])
}

#[test]
fn duplicate_asset_key_is_rejected() {
    let doc = DocValue::Obj(vec![
        (
            "assets".to_owned(),
            DocValue::Obj(vec![
                ("a".to_owned(), local_asset()),
                ("a".to_owned(), local_asset()),
            ]),
        ),
        ("types".to_owned(), DocValue::Obj(vec![])),
        ("actions".to_owned(), DocValue::Obj(vec![])),
        ("keybinds".to_owned(), DocValue::Obj(vec![])),
        ("hierarchy".to_owned(), DocValue::Arr(vec![])),
        ("terrain".to_owned(), DocValue::Obj(vec![])),
    ]);
    match ConfigDTO::load(&doc).unwrap_err() {
        ConfigError::DuplicateKey { section, key } => {
            assert_eq!("assets", section);
            assert_eq!("a", key);
        },
        other => panic!("expected a duplicate key error, got {:?}", other),
    }
    let e = ConfigError::DuplicateKey {
        section: "assets".to_owned(),
        key: "a".to_owned(),
    };
    assert_eq!("Duplicate key in assets: a", e.to_error().get_message());
}

#[test]
fn assets_decode_with_their_kind() {
    let doc = DocValue::Obj(vec![
        (
            "assets".to_owned(),
            DocValue::Obj(vec![("a".to_owned(), local_asset())]),
        ),
        ("types".to_owned(), DocValue::Obj(vec![])),
        ("actions".to_owned(), DocValue::Obj(vec![])),
        ("keybinds".to_owned(), DocValue::Obj(vec![])),
        ("hierarchy".to_owned(), DocValue::Arr(vec![])),
        ("terrain".to_owned(), DocValue::Obj(vec![])),
    ]);
    let loaded = ConfigDTO::load(&doc).unwrap();
    assert_eq!(1, loaded.assets.len());
    assert_eq!("a", loaded.assets[0].0);
    assert_eq!(AssetId::Local("a.png".to_owned()), loaded.assets[0].1.id);
    assert_eq!(AssetType::Image, loaded.assets[0].1.asset_type);
}

#[test]
fn field_type_defaults_decode_with_range_checks() {
    let ok: Value = serde_json::from_str(r#"{"type": "Byte", "value": 100}"#).unwrap();
    assert_eq!(
        Type::BYTE(Some(100)),
        decode_field_type(&value_to_doc(&ok), "T", "f").unwrap()
    );

    let absent: Value = serde_json::from_str(r#"{"type": "Boolean"}"#).unwrap();
    assert_eq!(
        Type::BOOLEAN(None),
        decode_field_type(&value_to_doc(&absent), "T", "f").unwrap()
    );

    let out_of_range: Value = serde_json::from_str(r#"{"type": "Byte", "value": 1000}"#).unwrap();
    match decode_field_type(&value_to_doc(&out_of_range), "T", "f").unwrap_err() {
        ConfigError::StructuralDecodeError { context, field } => {
            assert_eq!("T", context);
            assert_eq!("f", field);
        },
        other => panic!("expected a structural decode error, got {:?}", other),
    }

    let double: Value = serde_json::from_str(r#"{"type": "Double", "value": 2.5}"#).unwrap();
    assert_eq!(
        Type::DOUBLE(Some(dbits(2.5))),
        decode_field_type(&value_to_doc(&double), "T", "f").unwrap()
    );

    let custom_without_name: Value = serde_json::from_str(r#"{"type": "Custom"}"#).unwrap();
    assert!(decode_field_type(&value_to_doc(&custom_without_name), "T", "f").is_err());

    let unknown_tag: Value = serde_json::from_str(r#"{"type": "Quaternion"}"#).unwrap();
    match decode_field_type(&value_to_doc(&unknown_tag), "T", "f").unwrap_err() {
        ConfigError::StructuralDecodeError { context, field } => {
            assert_eq!("T", context);
            assert_eq!("Quaternion", field);
        },
        other => panic!("expected a structural decode error, got {:?}", other),
    }
}

#[test]
fn actions_and_keybinds_decode() {
    let doc = DocValue::Obj(vec![
        ("assets".to_owned(), DocValue::Obj(vec![])),
        ("types".to_owned(), DocValue::Obj(vec![])),
        (
            "actions".to_owned(),
            DocValue::Obj(vec![(
                "jump".to_owned(),
                DocValue::Obj(vec![
                    ("type".to_owned(), DocValue::Str("Inventory".to_owned())),
                    ("side".to_owned(), DocValue::Str("Server".to_owned())),
                ]),
            )]),
        ),
        (
            "keybinds".to_owned(),
            DocValue::Obj(vec![(
                "jump".to_owned(),
                DocValue::Obj(vec![("key".to_owned(), DocValue::Str("Space".to_owned()))]),
            )]),
        ),
        ("hierarchy".to_owned(), DocValue::Arr(vec![])),
        (
            "terrain".to_owned(),
            DocValue::Obj(vec![(
                "skybox".to_owned(),
                DocValue::Obj(vec![(
                    "cube_map".to_owned(),
                    DocValue::Obj(vec![(
                        "texture".to_owned(),
                        DocValue::Str("sky.png".to_owned()),
                    )]),
                )]),
            )]),
        ),
    ]);
    let loaded = ConfigDTO::load(&doc).unwrap();
    assert_eq!(1, loaded.actions.len());
    assert_eq!(Some("Inventory".to_owned()), loaded.actions[0].1.data_type);
    assert_eq!(
        game_config::action::ActionSide::Server,
        loaded.actions[0].1.side
    );
    assert_eq!(1, loaded.keybinds.len());
    assert_eq!(None, loaded.keybinds[0].1.description);
    assert_eq!("Space", loaded.keybinds[0].1.key);
    let skybox = loaded.terrain.skybox.unwrap();
    assert_eq!("sky.png", skybox.cube_map.texture);
    assert!(skybox.environment_map_light.is_none());
}

#[test]
fn missing_section_is_rejected() {
    let doc = DocValue::Obj(vec![
        ("assets".to_owned(), DocValue::Obj(vec![])),
        ("types".to_owned(), DocValue::Obj(vec![])),
        ("actions".to_owned(), DocValue::Obj(vec![])),
        ("keybinds".to_owned(), DocValue::Obj(vec![])),
        ("hierarchy".to_owned(), DocValue::Arr(vec![])),
    ]);
    match ConfigDTO::load(&doc).unwrap_err() {
        ConfigError::StructuralDecodeError { context, field } => {
            assert_eq!("document", context);
            assert_eq!("terrain", field);
        },
        other => panic!("expected a structural decode error, got {:?}", other),
    }
}

#[test]
fn vector_of_wrong_length_is_rejected() {
    let json: Value = serde_json::from_str(
        r#"{"name": "Box", "type": "Part", "value": {
            "size": [1, 2],
            "color": {"Srgba": {"red": 0.0, "green": 0.0, "blue": 0.0, "alpha": 1.0}},
            "position": {
                "translation": [0.0, 0.0, 0.0],
                "rotation": [0.0, 0.0, 0.0, 1.0],
                "scale": [1.0, 1.0, 1.0]
            }
        }}"#,
    )
    .unwrap();
    match decode_element(&value_to_doc(&json)).unwrap_err() {
        ConfigError::StructuralDecodeError { context, field } => {
            assert_eq!("Box", context);
            assert_eq!("size", field);
        },
        other => panic!("expected a structural decode error, got {:?}", other),
    }
}

#[test]
fn unknown_action_side_is_rejected() {
    let action: Value = serde_json::from_str(r#"{"side": "Moderator"}"#).unwrap();
    match game_config::decode::decode_action(&value_to_doc(&action), "jump").unwrap_err() {
        ConfigError::StructuralDecodeError { context, field } => {
            assert_eq!("jump", context);
            assert_eq!("Moderator", field);
        },
        other => panic!("expected a structural decode error, got {:?}", other),
    }
}

#[test]
fn private_cloud_asset_id_decodes_from_wire_shape() {
    let id: Value = serde_json::from_str(
        r#"{"type": "PrivateCloud", "value": {
            "asset_id": "64b0c9a1f0a4c800aabbccdd",
            "version_id": "64b0c9a1f0a4c800aabbccde"
        }}"#,
    )
    .unwrap();
    assert_eq!(
        AssetId::PrivateCloud {
            asset_id: "64b0c9a1f0a4c800aabbccdd".to_owned(),
            version_id: "64b0c9a1f0a4c800aabbccde".to_owned(),
        },
        decode_asset_id(&value_to_doc(&id), "a", "id").unwrap()
    );
}

#[test]
fn duplicate_type_field_is_rejected() {
    let typedef = DocValue::Obj(vec![
        (
            "slots".to_owned(),
            DocValue::Obj(vec![("type".to_owned(), DocValue::Str("Int".to_owned()))]),
        ),
        (
            "slots".to_owned(),
            DocValue::Obj(vec![("type".to_owned(), DocValue::Str("Long".to_owned()))]),
        ),
    ]);
    match game_config::decode::decode_typedef(&typedef, "Inventory").unwrap_err() {
        ConfigError::DuplicateKey { section, key } => {
            assert_eq!("Inventory", section);
            assert_eq!("slots", key);
        },
        other => panic!("expected a duplicate key error, got {:?}", other),
    }
}
