//! The dependency validator: acceptance of well-formed registries and
//! rejection of unknown and circular custom-type references.

use game_config::config::ConfigDTO;
use game_config::error::ConfigError;
use game_config::terrain::TerrainDTO;
use game_config::types::{Type, TypeDTO};
use game_config::validate::validate_types;

fn registry(entries: Vec<(&str, Vec<(&str, Type)>)>) -> Vec<(String, TypeDTO)> {
    entries
        .into_iter()
        .map(|(name, fields)| {
            (
                name.to_owned(),
                TypeDTO {
                    fields: fields.into_iter().map(|(f, t)| (f.to_owned(), t)).collect(),
                },
            )
        })
        .collect()
}

fn config_with_types(types: Vec<(String, TypeDTO)>) -> ConfigDTO {
    ConfigDTO {
        assets: Vec::new(),
        types,
        actions: Vec::new(),
        keybinds: Vec::new(),
        hierarchy: Vec::new(),
        terrain: TerrainDTO { skybox: None },
    }
}

#[test]
fn acyclic_registry_is_accepted() {
    let types = registry(vec![
        ("A", vec![("f", Type::CUSTOM("B".to_owned())), ("n", Type::INT(Some(3)))]),
        ("B", vec![("g", Type::CUSTOM("C".to_owned()))]),
        ("C", vec![("s", Type::STRING(None))]),
    ]);
    assert!(validate_types(&types).is_ok());
    assert!(config_with_types(types).check_circular_types().is_ok());
}

#[test]
fn empty_registry_is_accepted() {
    let types = registry(vec![]);
    assert!(config_with_types(types).check_circular_types().is_ok());
}

#[test]
fn diamond_sharing_is_not_a_cycle() {
    // Two paths to the same type share it without forming a cycle.
    let types = registry(vec![
        ("D", vec![("x", Type::BOOLEAN(None))]),
        ("B", vec![("d", Type::CUSTOM("D".to_owned()))]),
        ("C", vec![("d", Type::CUSTOM("D".to_owned()))]),
        ("A", vec![
            ("b", Type::CUSTOM("B".to_owned())),
            ("c", Type::CUSTOM("C".to_owned())),
        ]),
    ]);
    assert!(config_with_types(types).check_circular_types().is_ok());
}

#[test]
fn two_type_cycle_is_rejected() {
    let types = registry(vec![
        ("A", vec![("f", Type::CUSTOM("B".to_owned()))]),
        ("B", vec![("g", Type::CUSTOM("A".to_owned()))]),
    ]);
    match validate_types(&types).unwrap_err() {
        ConfigError::CircularDependency { a, b } => {
            assert_eq!("A", a);
            assert_eq!("B", b);
        },
        other => panic!("expected a circular dependency, got {:?}", other),
    }
    let err = config_with_types(types).check_circular_types().unwrap_err();
    assert_eq!("Circular include: A -> B", err.get_message());
}

#[test]
fn self_reference_slips_past_order_dependent_detection() {
    // Detection is deliberately iteration-order-dependent: a type is never
    // checked against its own not-yet-recorded reached set, so a
    // self-reference is accepted. Acceptance guarantees only that every
    // reference resolves.
    let types = registry(vec![("A", vec![("f", Type::CUSTOM("A".to_owned()))])]);
    assert!(validate_types(&types).is_ok());
}

#[test]
fn unknown_reference_is_rejected() {
    let types = registry(vec![("A", vec![("f", Type::CUSTOM("Z".to_owned()))])]);
    match validate_types(&types).unwrap_err() {
        ConfigError::UnknownTypeReference { from, field, to } => {
            assert_eq!("A", from);
            assert_eq!("f", field);
            assert_eq!("Z", to);
        },
        other => panic!("expected an unknown type reference, got {:?}", other),
    }
    let err = config_with_types(types).check_circular_types().unwrap_err();
    assert_eq!("Unknown custom type for field f: Z", err.get_message());
}

#[test]
fn error_wraps_its_message() {
    let e = game_config::GameConfigError::with_string("bad document".to_owned());
    assert_eq!("bad document", e.get_message());
}

#[test]
fn registry_define_resolve_and_names() {
    let mut reg: Vec<(String, TypeDTO)> = Vec::new();
    game_config::types::define(
        &mut reg,
        "A".to_owned(),
        TypeDTO { fields: vec![("x".to_owned(), Type::INT(None))] },
    );
    game_config::types::define(&mut reg, "B".to_owned(), TypeDTO { fields: vec![] });
    assert_eq!(2, reg.len());

    // redefining keeps the entry's place and replaces its definition
    game_config::types::define(
        &mut reg,
        "A".to_owned(),
        TypeDTO { fields: vec![("y".to_owned(), Type::LONG(None))] },
    );
    assert_eq!(2, reg.len());
    assert_eq!("A", reg[0].0);
    assert_eq!(
        vec![("y".to_owned(), Type::LONG(None))],
        game_config::types::resolve(&reg, "A").unwrap().fields
    );
    assert!(game_config::types::resolve(&reg, "Z").is_none());
    assert_eq!(
        vec!["A".to_owned(), "B".to_owned()],
        game_config::types::all_names(&reg)
    );
}
