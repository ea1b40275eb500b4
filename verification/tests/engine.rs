use jsonschema_core::check_wf;
use jsonschema_core::is_valid;
use jsonschema_core::Validate;
use jsonschema_core::Binary64;
use jsonschema_core::CompilationError;
use jsonschema_core::Draft;
use jsonschema_core::JSONSchema;
use jsonschema_core::Value;
use jsonschema_core::ValidationErrorKind;

fn num(i: i64) -> Value {
    Value::Int(i)
}

fn float(neg: bool, mant: u64, exp: i32) -> Value {
    Value::Float(Binary64 { neg, mant, exp })
}

fn s(text: &str) -> Value {
    Value::String(text.to_owned())
}

fn obj(pairs: Vec<(&str, Value)>) -> Value {
    Value::Object(pairs.into_iter().map(|(k, v)| (k.to_owned(), v)).collect())
}

fn ok(schema: &Value, instance: &Value) -> bool {
    is_valid(schema, instance).expect("schema must compile")
}

#[test]
fn type_integer_matches_integers_only() {
    let schema = obj(vec![("type", s("integer"))]);
    assert!(ok(&schema, &num(10)));
    // 10.5 == 21 * 2^-1
    assert!(!ok(&schema, &float(false, 21, -1)));
    assert!(!ok(&schema, &s("10")));
}

#[test]
fn type_union_string_or_null() {
    let schema = obj(vec![("type", Value::Array(vec![s("string"), s("null")]))]);
    assert!(ok(&schema, &s("x")));
    assert!(ok(&schema, &Value::Null));
    assert!(!ok(&schema, &num(0)));
}

#[test]
fn minimum_and_maximum_are_inclusive() {
    let schema = obj(vec![("minimum", num(5)), ("maximum", num(10))]);
    assert!(ok(&schema, &num(5)));
    assert!(ok(&schema, &num(10)));
    assert!(!ok(&schema, &num(4)));
    assert!(!ok(&schema, &num(11)));
    // bound keywords ignore non-numbers
    assert!(ok(&schema, &s("x")));
}

#[test]
fn exclusive_bounds_are_strict() {
    let schema = obj(vec![("exclusiveMinimum", num(0)), ("exclusiveMaximum", num(1))]);
    assert!(!ok(&schema, &num(0)));
    // 0.5 == 1 * 2^-1
    assert!(ok(&schema, &float(false, 1, -1)));
    assert!(!ok(&schema, &num(1)));
}

#[test]
fn length_bounds_count_unicode_scalars() {
    let schema = obj(vec![("minLength", num(2)), ("maxLength", num(4))]);
    assert!(ok(&schema, &s("ab")));
    assert!(!ok(&schema, &s("a")));
    assert!(!ok(&schema, &s("abcde")));
    // two scalar values, eight bytes
    assert!(ok(&schema, &s("😀😀")));
}

#[test]
fn const_object_ignores_entry_order() {
    let schema = obj(vec![("const", obj(vec![("a", num(1)), ("b", num(2))]))]);
    assert!(ok(&schema, &obj(vec![("b", num(2)), ("a", num(1))])));
    assert!(!ok(&schema, &obj(vec![("a", num(1))])));
}

#[test]
fn enum_uses_numeric_equality() {
    let schema = obj(vec![("enum", Value::Array(vec![num(1), s("1"), Value::Bool(true)]))]);
    assert!(ok(&schema, &num(1)));
    // 1.0 == 1 * 2^0
    assert!(ok(&schema, &float(false, 1, 0)));
    assert!(ok(&schema, &s("1")));
    assert!(!ok(&schema, &Value::Bool(false)));
}

#[test]
fn const_one_validates_float_one() {
    let schema = obj(vec![("const", num(1))]);
    assert!(ok(&schema, &float(false, 1, 0)));
    assert!(!ok(&schema, &float(false, 3, -1)));
}

#[test]
fn integer_drafts_diverge_on_float_tagged_integers() {
    let schema = obj(vec![("type", s("integer"))]);
    let three = num(3);
    let three_float = float(false, 3, 0);
    let three_and_a_half = float(false, 7, -1);

    let d7 = JSONSchema::compile(&schema, Some(Draft::Draft7)).expect("compiles");
    assert!(d7.is_valid(&three));
    assert!(d7.is_valid(&three_float));
    assert!(!d7.is_valid(&three_and_a_half));

    let d4 = JSONSchema::compile(&schema, Some(Draft::Draft4)).expect("compiles");
    assert!(d4.is_valid(&three));
    assert!(!d4.is_valid(&three_float));
}

#[test]
fn malformed_schemas_fail_compilation() {
    assert_eq!(
        is_valid(&obj(vec![("type", num(123))]), &num(0)),
        Err(CompilationError::SchemaError)
    );
    assert_eq!(
        is_valid(&obj(vec![("enum", num(42))]), &num(0)),
        Err(CompilationError::SchemaError)
    );
    assert_eq!(
        is_valid(&obj(vec![("minimum", s("big"))]), &num(0)),
        Err(CompilationError::SchemaError)
    );
    assert_eq!(
        is_valid(&obj(vec![("minLength", float(false, 1, 1))]), &num(0)),
        Err(CompilationError::SchemaError)
    );
    assert_eq!(
        is_valid(&obj(vec![("type", Value::Array(vec![s("frob")]))]), &num(0)),
        Err(CompilationError::SchemaError)
    );
    // a schema must be an object
    assert_eq!(is_valid(&num(1), &num(0)), Err(CompilationError::SchemaError));
}

#[test]
fn unknown_keywords_are_ignored() {
    let schema = obj(vec![("frobnicate", num(3)), ("minimum", num(5))]);
    assert!(ok(&schema, &num(7)));
    assert!(!ok(&schema, &num(3)));
}

#[test]
fn empty_schema_accepts_everything() {
    let schema = obj(vec![]);
    assert!(ok(&schema, &num(0)));
    assert!(ok(&schema, &Value::Null));
    assert!(ok(&schema, &obj(vec![("a", num(1))])));
}

#[test]
fn validate_is_consistent_with_is_valid() {
    let schema = obj(vec![("minimum", num(5)), ("type", s("number")), ("maximum", num(10))]);
    let compiled = JSONSchema::compile(&schema, None).expect("compiles");
    for inst in [num(7), num(4), num(11), s("x"), Value::Null] {
        let errs = compiled.validate(&inst);
        assert_eq!(errs.is_empty(), compiled.is_valid(&inst));
    }
}

#[test]
fn each_failing_keyword_reports_its_error() {
    let schema = obj(vec![("minimum", num(5)), ("maximum", num(3))]);
    let compiled = JSONSchema::compile(&schema, None).expect("compiles");
    let errs = compiled.validate(&num(4));
    assert_eq!(errs.len(), 2);
    assert!(matches!(errs[0].kind, ValidationErrorKind::Minimum { .. }));
    assert!(matches!(errs[1].kind, ValidationErrorKind::Maximum { .. }));
}

#[test]
fn error_kinds_cover_the_taxonomy() {
    let cases: Vec<(Value, Value, fn(&ValidationErrorKind) -> bool)> = vec![
        (obj(vec![("const", num(1))]), num(2), |k| {
            matches!(k, ValidationErrorKind::Constant { .. })
        }),
        (obj(vec![("enum", Value::Array(vec![num(1)]))]), num(2), |k| {
            matches!(k, ValidationErrorKind::Enumeration { .. })
        }),
        (obj(vec![("minimum", num(5))]), num(2), |k| {
            matches!(k, ValidationErrorKind::Minimum { .. })
        }),
        (obj(vec![("maximum", num(1))]), num(2), |k| {
            matches!(k, ValidationErrorKind::Maximum { .. })
        }),
        (obj(vec![("exclusiveMinimum", num(2))]), num(2), |k| {
            matches!(k, ValidationErrorKind::ExclusiveMinimum { .. })
        }),
        (obj(vec![("exclusiveMaximum", num(2))]), num(2), |k| {
            matches!(k, ValidationErrorKind::ExclusiveMaximum { .. })
        }),
        (obj(vec![("minLength", num(3))]), s("ab"), |k| {
            matches!(k, ValidationErrorKind::MinLength { .. })
        }),
        (obj(vec![("maxLength", num(1))]), s("ab"), |k| {
            matches!(k, ValidationErrorKind::MaxLength { .. })
        }),
        (obj(vec![("type", s("null"))]), num(2), |k| {
            matches!(k, ValidationErrorKind::SingleType { .. })
        }),
        (obj(vec![("type", Value::Array(vec![s("null"), s("array")]))]), num(2), |k| {
            matches!(k, ValidationErrorKind::MultipleType { .. })
        }),
    ];
    for (schema, inst, check) in cases {
        let compiled = JSONSchema::compile(&schema, None).expect("compiles");
        let errs = compiled.validate(&inst);
        assert_eq!(errs.len(), 1);
        assert!(check(&errs[0].kind));
    }
}

#[test]
fn numbers_compare_by_mathematical_value() {
    // 2^60 as an integer and as a float-tagged power of two
    let schema = obj(vec![("const", num(1 << 60))]);
    assert!(ok(&schema, &float(false, 1, 60)));
    assert!(!ok(&schema, &float(false, 1, 59)));
    // -0.0 equals 0
    let zero_schema = obj(vec![("const", num(0))]);
    assert!(ok(&zero_schema, &float(true, 0, 0)));
    // tiny subnormal-range value is not zero
    assert!(!ok(&zero_schema, &float(false, 1, -1074)));
}

#[test]
fn large_magnitudes_and_signs_order_correctly() {
    let schema = obj(vec![("minimum", float(true, 1, -1074))]);
    assert!(ok(&schema, &num(0)));
    assert!(!ok(&schema, &num(-1)));
    let schema2 = obj(vec![("maximum", float(false, 0x1fffffffffffff, 971))]);
    assert!(ok(&schema2, &num(i64::MAX)));
    let schema3 = obj(vec![("minimum", num(i64::MIN))]);
    assert!(ok(&schema3, &num(i64::MIN)));
    // -2^63 is exactly the bound; -3 * 2^62 lies below it
    assert!(ok(&schema3, &float(true, 1, 63)));
    assert!(!ok(&schema3, &float(true, 3, 62)));
}

#[test]
fn validator_names_are_the_keywords() {
    let schema = obj(vec![("minimum", num(5)), ("const", num(1)), ("type", s("null"))]);
    let compiled = JSONSchema::compile(&schema, None).expect("compiles");
    let names: Vec<String> = compiled.validators.iter().map(|v| v.name()).collect();
    assert_eq!(names, vec!["minimum".to_owned(), "const".to_owned(), "type".to_owned()]);
}

#[test]
fn arrays_compare_elementwise_in_order() {
    let schema = obj(vec![("const", Value::Array(vec![num(1), num(2)]))]);
    assert!(ok(&schema, &Value::Array(vec![num(1), num(2)])));
    assert!(ok(&schema, &Value::Array(vec![float(false, 1, 0), num(2)])));
    assert!(!ok(&schema, &Value::Array(vec![num(2), num(1)])));
    assert!(!ok(&schema, &Value::Array(vec![num(1)])));
}

#[test]
fn nested_objects_compare_by_key_set() {
    let inner = |first: bool| {
        if first {
            obj(vec![("x", num(1)), ("y", s("v"))])
        } else {
            obj(vec![("y", s("v")), ("x", float(false, 1, 0))])
        }
    };
    let schema = obj(vec![("const", obj(vec![("k", inner(true))]))]);
    assert!(ok(&schema, &obj(vec![("k", inner(false))])));
    assert!(!ok(&schema, &obj(vec![("k", obj(vec![("x", num(1))]))])));
}

#[test]
fn well_formedness_is_decidable() {
    assert!(check_wf(&num(7)));
    assert!(check_wf(&float(false, 21, -1)));
    // a mantissa too wide for a double
    assert!(!check_wf(&float(false, 1 << 60, 0)));
    // an exponent outside the finite range
    assert!(!check_wf(&float(false, 1, 2000)));
    // duplicate keys
    assert!(!check_wf(&obj(vec![("a", num(1)), ("a", num(2))])));
    assert!(check_wf(&obj(vec![("a", num(1)), ("b", num(2))])));
    // a bad float buried in an array
    assert!(!check_wf(&Value::Array(vec![num(1), float(false, 1, 2000)])));
}

#[test]
fn structurally_equal_schemas_behave_equally() {
    // the same constraints, in another entry order and with the numbers
    // tagged differently
    let s1 = obj(vec![("minimum", num(1)), ("maximum", float(false, 5, 0))]);
    let s2 = obj(vec![("maximum", num(5)), ("minimum", float(false, 1, 0))]);
    for inst in [num(0), num(1), num(3), num(5), num(6), s("x"), Value::Null] {
        assert_eq!(ok(&s1, &inst), ok(&s2, &inst));
    }
}

#[test]
fn repeated_evaluation_is_deterministic() {
    let schema = obj(vec![("enum", Value::Array(vec![num(1), s("a")]))]);
    let compiled = JSONSchema::compile(&schema, None).expect("compiles");
    for inst in [num(1), s("a"), s("b"), Value::Null] {
        let first = compiled.is_valid(&inst);
        for _ in 0..3 {
            assert_eq!(compiled.is_valid(&inst), first);
        }
    }
}
