use toml_cfg::engine::{resolve_component_config, BuildContext};
use toml_cfg::overrides::ComponentOverrides;
use toml_cfg::resolve::{resolve_field, resolve_schema, ResolveError, SourceMiss};
use toml_cfg::schema::{SchemaField, TypeTag, VariantType};
use toml_cfg::value::{Expr, RawValue, ScalarKind};

fn int_field(name: &str, default: i64) -> SchemaField {
    SchemaField {
        name: name.to_string(),
        type_tag: TypeTag::Scalar(ScalarKind::Int),
        default_expr: Some(Expr::IntLit(default)),
    }
}

fn str_field(name: &str, default: &str) -> SchemaField {
    SchemaField {
        name: name.to_string(),
        type_tag: TypeTag::Scalar(ScalarKind::Str),
        default_expr: Some(Expr::StrLit(default.to_string())),
    }
}

fn choice_field() -> SchemaField {
    SchemaField {
        name: "choice".to_string(),
        type_tag: TypeTag::NamedVariant(VariantType {
            name: "Choice".to_string(),
            variants: vec!["One".to_string(), "Other".to_string(), "Third".to_string()],
        }),
        default_expr: Some(Expr::VariantRef("Choice".to_string(), "One".to_string())),
    }
}

fn ctx(strict: bool) -> BuildContext {
    BuildContext {
        out_dir_hint: Some(vec![
            "home".to_string(),
            "proj".to_string(),
            "target".to_string(),
            "debug".to_string(),
            "build".to_string(),
        ]),
        component_id: "compA".to_string(),
        strict,
    }
}

#[test]
fn scenario_no_override_file_keeps_default() {
    let schema = vec![int_field("buffer_size", 32)];
    let cfg = resolve_component_config(&schema, &ctx(false), None).unwrap();
    assert_eq!(cfg.entries.len(), 1);
    assert_eq!(cfg.entries[0].name, "buffer_size");
    assert_eq!(cfg.entries[0].resolved_expr, Expr::IntLit(32));
}

#[test]
fn scenario_override_file_wins() {
    let schema = vec![int_field("buffer_size", 32)];
    let contents = "[compA]\nbuffer_size = 4096\n".to_string();
    let cfg = resolve_component_config(&schema, &ctx(false), Some(&contents)).unwrap();
    assert_eq!(cfg.entries.len(), 1);
    assert_eq!(cfg.entries[0].resolved_expr, Expr::IntLit(4096));
}

#[test]
fn scenario_known_variant_resolves_to_reference() {
    let schema = vec![choice_field()];
    let contents = "[compA]\nchoice = \"Other\"\n".to_string();
    let cfg = resolve_component_config(&schema, &ctx(false), Some(&contents)).unwrap();
    assert_eq!(
        cfg.entries[0].resolved_expr,
        Expr::VariantRef("Choice".to_string(), "Other".to_string())
    );
}

#[test]
fn scenario_unknown_variant_is_fatal_naming_field() {
    let schema = vec![choice_field()];
    let contents = "[compA]\nchoice = \"Unknown\"\n".to_string();
    let err = resolve_component_config(&schema, &ctx(false), Some(&contents)).unwrap_err();
    match err {
        ResolveError::TypeMismatch { field, found, .. } => {
            assert_eq!(field, "choice");
            assert_eq!(found, RawValue::Str("Unknown".to_string()));
        }
        other => panic!("expected a type mismatch, got {:?}", other),
    }
}

#[test]
fn scenario_component_absent_equals_all_defaults() {
    let schema = vec![int_field("buffer_size", 32), choice_field()];
    let contents = "[compB]\nbuffer_size = 9\n".to_string();
    let with_other_component =
        resolve_component_config(&schema, &ctx(false), Some(&contents)).unwrap();
    let with_no_file = resolve_component_config(&schema, &ctx(false), None).unwrap();
    assert_eq!(with_other_component, with_no_file);
    assert_eq!(with_other_component.entries[0].resolved_expr, Expr::IntLit(32));
    assert_eq!(
        with_other_component.entries[1].resolved_expr,
        Expr::VariantRef("Choice".to_string(), "One".to_string())
    );
}

#[test]
fn strict_fatal_when_file_unavailable() {
    let schema = vec![int_field("buffer_size", 32)];
    let err = resolve_component_config(&schema, &ctx(true), None).unwrap_err();
    assert_eq!(err, ResolveError::StrictViolation(SourceMiss::FileUnavailable));
}

#[test]
fn strict_fatal_when_root_not_found() {
    let schema = vec![int_field("buffer_size", 32)];
    let no_target = BuildContext {
        out_dir_hint: Some(vec!["home".to_string(), "proj".to_string()]),
        component_id: "compA".to_string(),
        strict: true,
    };
    let contents = "[compA]\nbuffer_size = 4096\n".to_string();
    let err = resolve_component_config(&schema, &no_target, Some(&contents)).unwrap_err();
    assert_eq!(err, ResolveError::StrictViolation(SourceMiss::RootNotFound));
}

#[test]
fn strict_fatal_when_malformed() {
    let schema = vec![int_field("buffer_size", 32)];
    let contents = "this is ][ not an override document".to_string();
    let err = resolve_component_config(&schema, &ctx(true), Some(&contents)).unwrap_err();
    assert_eq!(err, ResolveError::StrictViolation(SourceMiss::Malformed));
}

#[test]
fn strict_fatal_when_component_absent_even_without_overridden_fields() {
    let schema = vec![int_field("buffer_size", 32)];
    let contents = "[compB]\nother = 1\n".to_string();
    let err = resolve_component_config(&schema, &ctx(true), Some(&contents)).unwrap_err();
    assert_eq!(err, ResolveError::StrictViolation(SourceMiss::ComponentAbsent));
}

#[test]
fn strict_satisfied_by_empty_component_table() {
    let schema = vec![int_field("buffer_size", 32)];
    let contents = "[compA]\n".to_string();
    let cfg = resolve_component_config(&schema, &ctx(true), Some(&contents)).unwrap();
    assert_eq!(cfg.entries[0].resolved_expr, Expr::IntLit(32));
}

#[test]
fn scalar_kind_mismatch_is_fatal() {
    let schema = vec![int_field("buffer_size", 32)];
    let contents = "[compA]\nbuffer_size = \"lots\"\n".to_string();
    let err = resolve_component_config(&schema, &ctx(false), Some(&contents)).unwrap_err();
    match err {
        ResolveError::TypeMismatch { field, expected, found } => {
            assert_eq!(field, "buffer_size");
            assert_eq!(expected, TypeTag::Scalar(ScalarKind::Int));
            assert_eq!(found, RawValue::Str("lots".to_string()));
        }
        other => panic!("expected a type mismatch, got {:?}", other),
    }
}

#[test]
fn unusual_literal_mismatches_every_scalar_kind() {
    let schema = vec![int_field("buffer_size", 32)];
    let contents = "[compA]\nbuffer_size = 1.5\n".to_string();
    let err = resolve_component_config(&schema, &ctx(false), Some(&contents)).unwrap_err();
    match err {
        ResolveError::TypeMismatch { found, .. } => {
            assert!(matches!(found, RawValue::Other(_)));
        }
        other => panic!("expected a type mismatch, got {:?}", other),
    }
}

#[test]
fn missing_default_is_fatal_even_when_overridden() {
    let field = SchemaField {
        name: "bare".to_string(),
        type_tag: TypeTag::Scalar(ScalarKind::Int),
        default_expr: None,
    };
    let overrides = ComponentOverrides {
        entries: vec![("bare".to_string(), RawValue::Int(7))],
    };
    let err = resolve_field(&field, Some(&overrides)).unwrap_err();
    assert_eq!(err, ResolveError::MissingDefault { field: "bare".to_string() });
}

#[test]
fn field_without_matching_override_keeps_default() {
    let field = int_field("buffer_size", 32);
    let overrides = ComponentOverrides {
        entries: vec![("something_else".to_string(), RawValue::Int(7))],
    };
    let resolved = resolve_field(&field, Some(&overrides)).unwrap();
    assert_eq!(resolved, Expr::IntLit(32));
    let resolved_no_table = resolve_field(&field, None).unwrap();
    assert_eq!(resolved, resolved_no_table);
}

#[test]
fn scalar_override_returns_override_value() {
    let field = int_field("buffer_size", 32);
    let overrides = ComponentOverrides {
        entries: vec![("buffer_size".to_string(), RawValue::Int(99))],
    };
    let resolved = resolve_field(&field, Some(&overrides)).unwrap();
    assert_eq!(resolved, Expr::IntLit(99));
}

#[test]
fn string_and_bool_scalars_resolve() {
    let schema = vec![
        str_field("greeting", "hello"),
        SchemaField {
            name: "enabled".to_string(),
            type_tag: TypeTag::Scalar(ScalarKind::Bool),
            default_expr: Some(Expr::BoolLit(false)),
        },
    ];
    let contents = "[compA]\ngreeting = \"Guten tag!\"\nenabled = true\n".to_string();
    let cfg = resolve_component_config(&schema, &ctx(false), Some(&contents)).unwrap();
    assert_eq!(cfg.entries[0].resolved_expr, Expr::StrLit("Guten tag!".to_string()));
    assert_eq!(cfg.entries[1].resolved_expr, Expr::BoolLit(true));
}

#[test]
fn first_fatal_field_aborts_whole_pass() {
    let schema = vec![
        int_field("fine", 1),
        int_field("broken", 2),
        SchemaField {
            name: "no_default".to_string(),
            type_tag: TypeTag::Scalar(ScalarKind::Int),
            default_expr: None,
        },
    ];
    let overrides = ComponentOverrides {
        entries: vec![("broken".to_string(), RawValue::Bool(true))],
    };
    let err = resolve_schema(&schema, Some(&overrides)).unwrap_err();
    match err {
        ResolveError::TypeMismatch { field, .. } => assert_eq!(field, "broken"),
        other => panic!("expected the mismatch on `broken` first, got {:?}", other),
    }
}

#[test]
fn resolution_preserves_declaration_order() {
    let schema = vec![int_field("a", 1), int_field("b", 2), int_field("c", 3)];
    let cfg = resolve_schema(&schema, None).unwrap();
    let names: Vec<String> = cfg.entries.iter().map(|e| e.name.clone()).collect();
    assert_eq!(names, vec!["a".to_string(), "b".to_string(), "c".to_string()]);
}
