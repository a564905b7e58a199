//! Decoding and encoding hierarchy node payloads against their JSON wire
//! shape, bridged through `serde_json`.

use game_config::hierarchy::{ColorData, PartDTO, PointLightDTO, SpotLightDTO, TransformData,
    QuatData, Vec3Data};
use game_config::nodes::{decode_part, decode_point_light, decode_spot_light};
use game_config::encode::{encode_point_light, encode_spot_light};
use game_config::value::{DocValue, NumValue};
use serde_json::Value;

fn json_to_doc(v: &Value) -> DocValue {
    match v {
        Value::Null => DocValue::Null,
        Value::Bool(b) => DocValue::Bool(*b),
        Value::Number(n) => DocValue::Num(NumValue {
            int: n.as_i64(),
            float_bits: n.as_f64().map(f64::to_bits),
        }),
        Value::String(s) => DocValue::Str(s.clone()),
        Value::Array(a) => DocValue::Arr(a.iter().map(json_to_doc).collect()),
        Value::Object(o) => DocValue::Obj(o.iter().map(|(k, w)| (k.clone(), json_to_doc(w))).collect()),
    }
}

fn doc_to_json(v: &DocValue) -> Value {
    match v {
        DocValue::Null => Value::Null,
        DocValue::Bool(b) => Value::Bool(*b),
        DocValue::Num(n) => match n.int {
            Some(i) => Value::from(i),
            None => Value::from(f64::from_bits(n.float_bits.expect("number carries a reading"))),
        },
        DocValue::Str(s) => Value::String(s.clone()),
        DocValue::Arr(items) => Value::Array(items.iter().map(doc_to_json).collect()),
        DocValue::Obj(entries) => {
            Value::Object(entries.iter().map(|(k, w)| (k.clone(), doc_to_json(w))).collect())
        },
    }
}

fn bits(x: f64) -> u64 {
    x.to_bits()
}

/// The AQUA color (red 0, green 1, blue 1, alpha 1) with its components in
/// the alphabetical order a JSON object hands them over in.
fn aqua() -> ColorData {
    ColorData {
        model: "Srgba".to_owned(),
        components: vec![
            ("alpha".to_owned(), bits(1.0)),
            ("blue".to_owned(), bits(1.0)),
            ("green".to_owned(), bits(1.0)),
            ("red".to_owned(), bits(0.0)),
        ],
    }
}

fn transform_xyz(x: f64, y: f64, z: f64) -> TransformData {
    TransformData {
        translation: Vec3Data { x: bits(x), y: bits(y), z: bits(z) },
        rotation: QuatData { x: bits(0.0), y: bits(0.0), z: bits(0.0), w: bits(1.0) },
        scale: Vec3Data { x: bits(1.0), y: bits(1.0), z: bits(1.0) },
    }
}

fn part() -> PartDTO {
    PartDTO {
        size: Vec3Data { x: bits(1.0), y: bits(3.0), z: bits(0.5) },
        color: aqua(),
        position: transform_xyz(1.0, 2.0, 3.0),
        gravity: true,
    }
}

const PART_JSON: &str = r#"
        {
            "size": [1, 3, 0.5],
            "color": {
                "Srgba": {
                    "red": 0.0,
                    "green": 1.0,
                    "blue": 1.0,
                    "alpha": 1.0
                }
            },
            "position": {
                "translation": [1.0, 2.0, 3.0],
                "rotation": [0.0, 0.0, 0.0, 1.0],
                "scale": [1.0, 1.0, 1.0]
            }
        }"#;

#[test]
fn test_deserialize() {
    let json: Value = serde_json::from_str(PART_JSON).unwrap();
    let decoded = decode_part(&json_to_doc(&json), "part").unwrap();
    assert_eq!(part(), decoded);
}

fn spot_light() -> SpotLightDTO {
    SpotLightDTO {
        color: aqua(),
        intensity: bits(0.0),
        range: bits(0.0),
        radius: bits(0.0),
        shadows_enabled: false,
        outer_angle: bits(0.0),
        inner_angle: bits(0.0),
        position: transform_xyz(1.0, 2.0, 3.0),
    }
}

const SPOT_LIGHT_JSON: &str = r#"{
        "color": {
            "Srgba": {
                "red": 0.0,
                "green": 1.0,
                "blue": 1.0,
                "alpha": 1.0
            }
        },
        "intensity": 0.0,
        "range": 0.0,
        "radius": 0.0,
        "shadows_enabled": false,
        "outer_angle": 0.0,
        "inner_angle": 0.0,
        "position": {
            "translation": [1.0, 2.0, 3.0],
            "rotation": [0.0, 0.0, 0.0, 1.0],
            "scale": [1.0, 1.0, 1.0]
        }
    }"#;

#[test]
fn serialize_spot_light() {
    let spot_light = doc_to_json(&encode_spot_light(&spot_light()));
    let spot_light_json: Value = serde_json::from_str(SPOT_LIGHT_JSON).unwrap();
    println!("{:?}", spot_light);
    assert_eq!(spot_light_json, spot_light);
}

#[test]
fn deserialize_spot_light() {
    let json: Value = serde_json::from_str(SPOT_LIGHT_JSON).unwrap();
    let decoded = decode_spot_light(&json_to_doc(&json), "light").unwrap();
    assert_eq!(spot_light(), decoded);
}

fn point_light() -> PointLightDTO {
    PointLightDTO {
        color: aqua(),
        intensity: bits(0.0),
        range: bits(0.0),
        radius: bits(0.0),
        shadows_enabled: false,
        position: transform_xyz(1.0, 2.0, 3.0),
    }
}

const POINT_LIGHT_JSON: &str = r#"{
        "color": {
            "Srgba": {
                "red": 0.0,
                "green": 1.0,
                "blue": 1.0,
                "alpha": 1.0
            }
        },
        "intensity": 0.0,
        "range": 0.0,
        "radius": 0.0,
        "shadows_enabled": false,
        "position": {
            "translation": [1.0, 2.0, 3.0],
            "rotation": [0.0, 0.0, 0.0, 1.0],
            "scale": [1.0, 1.0, 1.0]
        }
    }"#;

#[test]
fn serialize_point_light() {
    let point_light = doc_to_json(&encode_point_light(&point_light()));
    let point_light_json: Value = serde_json::from_str(POINT_LIGHT_JSON).unwrap();
    println!("{:?}", point_light);
    assert_eq!(point_light_json, point_light);
}

#[test]
fn deserialize_point_light() {
    let json: Value = serde_json::from_str(POINT_LIGHT_JSON).unwrap();
    let decoded = decode_point_light(&json_to_doc(&json), "light").unwrap();
    assert_eq!(point_light(), decoded);
}

#[test]
fn part_gravity_defaults_to_true_and_can_be_set() {
    let json: Value = serde_json::from_str(PART_JSON).unwrap();
    let decoded = decode_part(&json_to_doc(&json), "part").unwrap();
    assert!(decoded.gravity);

    let mut with_gravity: Value = serde_json::from_str(PART_JSON).unwrap();
    with_gravity
        .as_object_mut()
        .unwrap()
        .insert("gravity".to_owned(), Value::Bool(false));
    let decoded = decode_part(&json_to_doc(&with_gravity), "part").unwrap();
    assert!(!decoded.gravity);
}

#[test]
fn part_missing_required_field_is_rejected() {
    let mut json: Value = serde_json::from_str(PART_JSON).unwrap();
    json.as_object_mut().unwrap().remove("size");
    let err = decode_part(&json_to_doc(&json), "Box").unwrap_err();
    assert_eq!(
        "Structural decode error at Box: size",
        err.to_error().get_message()
    );
}
