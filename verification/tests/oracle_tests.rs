//! Type oracle lookups: labels, canonical names, converters, literals.

use php_bindgen::context::{Config, ConfigError, CustomTypeConfig, IncludeOnceNames};
use php_bindgen::decimal::{i64_to_decimal, u64_to_decimal};
use php_bindgen::filters::{
    canonical_name, ffi_converter_name, ffi_error_converter_name, lift_fn, literal_php, lower_fn,
    read_fn, return_type_name, type_label, variant_discr_literal, write_fn,
};
use php_bindgen::types::{EnumDef, Literal, RenderError, Type, Variant};

fn empty_config() -> Config {
    Config {
        module_name: None,
        cdylib_name: None,
        custom_types: Vec::new(),
        external_packages: Vec::new(),
    }
}

#[test]
fn canonical_name_separates_nestings() {
    let seq_opt = Type::Sequence {
        inner: Box::new(Type::Optional { inner: Box::new(Type::Text) }),
    };
    let opt_seq = Type::Optional {
        inner: Box::new(Type::Sequence { inner: Box::new(Type::Text) }),
    };
    let seq_only = Type::Sequence { inner: Box::new(Type::Text) };
    let a = canonical_name(&seq_opt);
    let b = canonical_name(&opt_seq);
    let c = canonical_name(&seq_only);
    assert_eq!(a, "SequenceOptionalString");
    assert_eq!(b, "OptionalSequenceString");
    assert_eq!(c, "SequenceString");
    assert_ne!(a, b);
    assert_ne!(a, c);
    assert_ne!(b, c);
}

#[test]
fn canonical_name_of_primitives() {
    assert_eq!(canonical_name(&Type::UInt8), "UInt8");
    assert_eq!(canonical_name(&Type::Int64), "Int64");
    assert_eq!(canonical_name(&Type::Float64), "Float64");
    assert_eq!(canonical_name(&Type::Boolean), "Boolean");
    assert_eq!(canonical_name(&Type::Text), "String");
    assert_eq!(canonical_name(&Type::Bytes), "Bytes");
}

#[test]
fn record_point_gets_aggregate_label_and_fresh_canonical() {
    // A record with two 64-bit float fields: the engine names the
    // aggregate; the fields' types never leak into its names.
    let point = Type::Record { name: "point".to_string() };
    let label = type_label(&point, &empty_config());
    assert_eq!(label, "Point");
    let canon = canonical_name(&point);
    assert_eq!(canon, "TypePoint");
    for primitive in [
        Type::UInt8,
        Type::Int8,
        Type::UInt16,
        Type::Int16,
        Type::UInt32,
        Type::Int32,
        Type::UInt64,
        Type::Int64,
        Type::Float32,
        Type::Float64,
        Type::Boolean,
        Type::Text,
        Type::Bytes,
        Type::Timestamp,
        Type::Duration,
    ] {
        assert_ne!(canon, canonical_name(&primitive));
    }
    // The converter pair for the aggregate is one shared name, so the
    // value lowered through `...::lower` is lifted by the same helper.
    assert_eq!(lower_fn(&point), "FfiConverterTypePoint::lower");
    assert_eq!(lift_fn(&point), "FfiConverterTypePoint::lift");
    assert_eq!(write_fn(&point), "FfiConverterTypePoint::write");
    assert_eq!(read_fn(&point), "FfiConverterTypePoint::read");
}

#[test]
fn type_labels_for_primitives_and_composites() {
    let cfg = empty_config();
    assert_eq!(type_label(&Type::UInt32, &cfg), "int");
    assert_eq!(type_label(&Type::Float32, &cfg), "float");
    assert_eq!(type_label(&Type::Boolean, &cfg), "bool");
    assert_eq!(type_label(&Type::Text, &cfg), "string");
    assert_eq!(type_label(&Type::Bytes, &cfg), "string");
    assert_eq!(type_label(&Type::Timestamp, &cfg), "\\DateTime");
    assert_eq!(type_label(&Type::Duration, &cfg), "\\DateInterval");
    let opt = Type::Optional { inner: Box::new(Type::Text) };
    assert_eq!(type_label(&opt, &cfg), "?string");
    let seq = Type::Sequence { inner: Box::new(Type::UInt8) };
    assert_eq!(type_label(&seq, &cfg), "array");
    let map = Type::Dictionary {
        key: Box::new(Type::Text),
        value: Box::new(Type::UInt8),
    };
    assert_eq!(type_label(&map, &cfg), "array");
    assert_eq!(canonical_name(&map), "MapStringUInt8");
}

#[test]
fn return_type_of_void_is_unit() {
    let cfg = empty_config();
    assert_eq!(return_type_name(None, &cfg), "()");
    assert_eq!(return_type_name(Some(&Type::Int8), &cfg), "int");
}

#[test]
fn custom_type_label_follows_overrides() {
    let custom = Type::Custom {
        name: "my_url".to_string(),
        builtin: Box::new(Type::Text),
    };
    // No override recorded: the builtin's spelling is used.
    assert_eq!(type_label(&custom, &empty_config()), "string");
    // An override without a name keeps the class-cased type name.
    let mut cfg = empty_config();
    cfg.custom_types.push((
        "my_url".to_string(),
        CustomTypeConfig {
            imports: None,
            name_override: None,
            into_custom: "Url::parse({})".to_string(),
            from_custom: "{}.to_string()".to_string(),
        },
    ));
    assert_eq!(type_label(&custom, &cfg), "MyUrl");
    // An override with a name wins.
    cfg.custom_types[0].1.name_override = Some("URLObject".to_string());
    assert_eq!(type_label(&custom, &cfg), "URLObject");
}

#[test]
fn error_converter_marks_objects() {
    let rec = Type::Record { name: "thing".to_string() };
    assert_eq!(ffi_error_converter_name(&rec), "FfiConverterTypeThing");
    let obj = Type::Object {
        name: "thing".to_string(),
        has_callback_interface: false,
    };
    assert_eq!(ffi_converter_name(&obj), "FfiConverterTypeThing");
    assert_eq!(ffi_error_converter_name(&obj), "FfiConverterTypeThing__as_error");
}

#[test]
fn literals_render_in_surface_syntax() {
    let cfg = empty_config();
    assert_eq!(literal_php(&Literal::Boolean(true), &Type::Boolean, &cfg), "true");
    assert_eq!(literal_php(&Literal::Boolean(false), &Type::Boolean, &cfg), "false");
    assert_eq!(literal_php(&Literal::UInt(42), &Type::UInt32, &cfg), "42");
    assert_eq!(literal_php(&Literal::Int(-7), &Type::Int32, &cfg), "-7");
    assert_eq!(literal_php(&Literal::Text("hi".to_string()), &Type::Text, &cfg), "\"hi\"");
    assert_eq!(literal_php(&Literal::Float("1.5".to_string()), &Type::Float64, &cfg), "1.5");
    assert_eq!(
        literal_php(&Literal::EmptySequence, &Type::Sequence { inner: Box::new(Type::Text) }, &cfg),
        "[]"
    );
    assert_eq!(
        literal_php(&Literal::Null, &Type::Optional { inner: Box::new(Type::Text) }, &cfg),
        "null"
    );
    let color = Type::Enum { name: "color".to_string() };
    assert_eq!(
        literal_php(&Literal::Enumerator("DARK_RED".to_string()), &color, &cfg),
        "Color::darkRed"
    );
}

#[test]
fn variant_discriminants_render_in_decimal() {
    let e = EnumDef {
        name: "color".to_string(),
        variants: vec![
            Variant { name: "red".to_string(), discr: Literal::UInt(3) },
            Variant { name: "blue".to_string(), discr: Literal::Int(-1) },
            Variant { name: "odd".to_string(), discr: Literal::Text("x".to_string()) },
        ],
    };
    assert_eq!(variant_discr_literal(&e, 0).unwrap(), "3");
    assert_eq!(variant_discr_literal(&e, 1).unwrap(), "-1");
    assert!(matches!(
        variant_discr_literal(&e, 2),
        Err(RenderError::NonIntegerDiscriminant)
    ));
}

#[test]
fn decimal_rendering_is_exact() {
    assert_eq!(u64_to_decimal(0), "0");
    assert_eq!(u64_to_decimal(10), "10");
    assert_eq!(u64_to_decimal(90210), "90210");
    assert_eq!(u64_to_decimal(u64::MAX), "18446744073709551615");
    assert_eq!(i64_to_decimal(0), "0");
    assert_eq!(i64_to_decimal(-1), "-1");
    assert_eq!(i64_to_decimal(i64::MAX), "9223372036854775807");
    assert_eq!(i64_to_decimal(i64::MIN), "-9223372036854775808");
}

#[test]
fn module_name_reads_the_configured_label() {
    let cfg = Config {
        module_name: Some("core_lib".to_string()),
        cdylib_name: None,
        custom_types: Vec::new(),
        external_packages: Vec::new(),
    };
    assert_eq!(cfg.module_name(), "core_lib");
}

#[test]
fn custom_overrides_must_name_declared_types() {
    let mut cfg = empty_config();
    cfg.custom_types.push((
        "my_url".to_string(),
        CustomTypeConfig {
            imports: None,
            name_override: None,
            into_custom: "Url::parse({})".to_string(),
            from_custom: "{}.to_string()".to_string(),
        },
    ));
    let declared = vec!["my_url".to_string(), "point".to_string()];
    assert!(cfg.validate_custom_types(&declared).is_ok());
    let missing = vec!["point".to_string()];
    assert!(matches!(
        cfg.validate_custom_types(&missing),
        Err(ConfigError::UnknownCustomType { name }) if name == "my_url"
    ));
}

#[test]
fn helper_is_emitted_exactly_once() {
    // The same sequence-of-record type referenced from two signatures
    // registers its helper once; the second query is a no-op.
    let seq_rec = Type::Sequence {
        inner: Box::new(Type::Record { name: "point".to_string() }),
    };
    let mut emitted = IncludeOnceNames::new();
    let first_site = canonical_name(&seq_rec);
    let second_site = canonical_name(&seq_rec);
    assert_eq!(first_site, second_site);
    assert!(emitted.insert(first_site.as_str()));
    assert!(!emitted.insert(second_site.as_str()));
    assert!(emitted.contains("SequenceTypePoint"));
    assert!(!emitted.contains("SequenceString"));
}
