use enum_response_derive::dispatch::{Arm, Extraction, Pattern};
use enum_response_derive::{
    ConfigEntry, ConfigValue, DeriveError, DispatchTable, EnumResponse, Field, FieldValue,
    Response, Schema, ShapeKind, Target, TypeBody, Value, ValueSpec, Variant, VariantShape,
};

fn cfg_number(key: &str, value: u64) -> ConfigEntry {
    ConfigEntry { key: key.to_string(), value: ConfigValue::Int(value) }
}

fn cfg_text(key: &str, value: &str) -> ConfigEntry {
    ConfigEntry { key: key.to_string(), value: ConfigValue::Str(value.to_string()) }
}

fn plain(name: &str, config: Vec<ConfigEntry>) -> Variant {
    Variant { name: name.to_string(), shape: VariantShape::Unit, config }
}

fn positional(name: &str, arity: usize, config: Vec<ConfigEntry>) -> Variant {
    let types = (0..arity).map(|i| format!("T{}", i)).collect();
    Variant { name: name.to_string(), shape: VariantShape::Positional(types), config }
}

fn named(name: &str, fields: &[&str], config: Vec<ConfigEntry>) -> Variant {
    let fields =
        fields.iter().map(|n| Field { name: n.to_string(), ty: "T".to_string() }).collect();
    Variant { name: name.to_string(), shape: VariantShape::Named(fields), config }
}

fn declared(variants: Vec<Variant>) -> Schema {
    Schema { name: "Failure".to_string(), generics: vec![], body: TypeBody::Sum(variants) }
}

fn derive_table(schema: &Schema) -> DispatchTable {
    enum_response_derive::derive::derive(schema).expect("the derivation succeeds")
}

fn status_for(table: &DispatchTable, value: &Value) -> u16 {
    Response::new(table, value).expect("the table admits the value").status()
}

fn reason_for(table: &DispatchTable, value: &Value) -> Option<String> {
    Response::new(table, value)
        .expect("the table admits the value")
        .reason()
        .map(|r| r.to_string())
}

fn of(variant: usize, fields: Vec<FieldValue>) -> Value {
    Value { variant, fields }
}

fn phrase(text: &str) -> FieldValue {
    FieldValue::Text(text.to_string())
}

#[test]
fn explicit_status_does_not_depend_on_other_variants() {
    let alone = derive_table(&declared(vec![plain("Gone", vec![cfg_number("status", 410)])]));
    assert_eq!(status_for(&alone, &of(0, vec![])), 410);

    let among = derive_table(&declared(vec![
        plain("First", vec![]),
        positional("Second", 1, vec![cfg_number("status_field", 0)]),
        plain("Gone", vec![cfg_number("status", 410)]),
        plain("Teapot", vec![cfg_text("status", "ImATeapot")]),
        plain("Late", vec![cfg_text("status", "GATEWAY_TIMEOUT")]),
        plain("Last", vec![cfg_text("reason", "last")]),
    ]));
    assert_eq!(status_for(&among, &of(2, vec![])), 410);
    assert_eq!(status_for(&among, &of(3, vec![])), 418);
    assert_eq!(status_for(&among, &of(4, vec![])), 504);
    assert_eq!(status_for(&among, &of(1, vec![FieldValue::Status(202)])), 202);
}

#[test]
fn variants_without_status_have_status_500() {
    let table = derive_table(&declared(vec![
        plain("A", vec![cfg_number("status", 404)]),
        plain("B", vec![]),
        positional("C", 2, vec![cfg_text("reason", "c")]),
        named("D", &["x"], vec![cfg_text("reason_field", "x")]),
    ]));
    assert_eq!(status_for(&table, &of(1, vec![])), 500);
    assert_eq!(status_for(&table, &of(2, vec![phrase("p"), phrase("q")])), 500);
    assert_eq!(status_for(&table, &of(3, vec![phrase("p")])), 500);
}

#[test]
fn default_reason_is_the_canonical_reason_of_the_status() {
    let table = derive_table(&declared(vec![
        plain("Missing", vec![cfg_number("status", 404)]),
        plain("Teapot", vec![cfg_text("status", "418")]),
        plain("Named", vec![cfg_text("status", "Conflict")]),
        positional("Carried", 1, vec![cfg_number("status_field", 0)]),
        plain("Plain", vec![]),
    ]));
    assert_eq!(reason_for(&table, &of(0, vec![])), Some("Not Found".to_string()));
    assert_eq!(reason_for(&table, &of(1, vec![])), Some("I'm a teapot".to_string()));
    assert_eq!(reason_for(&table, &of(2, vec![])), Some("Conflict".to_string()));
    assert_eq!(
        reason_for(&table, &of(3, vec![FieldValue::Status(503)])),
        Some("Service Unavailable".to_string())
    );
    assert_eq!(reason_for(&table, &of(3, vec![FieldValue::Status(299)])), None);
    assert_eq!(reason_for(&table, &of(3, vec![FieldValue::Status(7)])), None);
    assert_eq!(reason_for(&table, &of(4, vec![])), Some("Internal Server Error".to_string()));
    for code in [100u16, 200, 204, 301, 404, 451, 500, 511] {
        let value = of(3, vec![FieldValue::Status(code)]);
        let expected = http::StatusCode::from_u16(code)
            .expect("a status code")
            .canonical_reason()
            .map(|r| r.to_string());
        assert_eq!(status_for(&table, &value), code);
        assert_eq!(reason_for(&table, &value), expected);
    }
}

#[test]
fn field_sources_do_not_depend_on_sibling_fields() {
    let table = derive_table(&declared(vec![
        positional("Tuple", 3, vec![cfg_number("status_field", 1), cfg_number("reason_field", 2)]),
        named(
            "Record",
            &["code", "note", "rest"],
            vec![cfg_text("reason_field", "note"), cfg_text("status_field", "code")],
        ),
    ]));
    for sibling in [FieldValue::Other, phrase("other"), FieldValue::Status(401)] {
        let tuple = of(0, vec![sibling.clone(), FieldValue::Status(409), phrase("why")]);
        assert_eq!(status_for(&table, &tuple), 409);
        assert_eq!(reason_for(&table, &tuple), Some("why".to_string()));
        let record = of(1, vec![FieldValue::Status(423), phrase("locked up"), sibling]);
        assert_eq!(status_for(&table, &record), 423);
        assert_eq!(reason_for(&table, &record), Some("locked up".to_string()));
    }
}

#[test]
fn deriving_twice_gives_the_same_arms() {
    let schema = declared(vec![
        plain("A", vec![cfg_number("status", 404), cfg_text("reason", "a")]),
        positional("B", 2, vec![cfg_number("reason_field", 1)]),
        named("C", &["x", "y"], vec![cfg_text("status_field", "y")]),
        plain("D", vec![]),
    ]);
    let first = derive_table(&schema);
    let second = derive_table(&schema.clone());
    assert_eq!(first, second);
    assert_eq!(first.status_arms(), second.status_arms());
    assert_eq!(first.reason_arms(), second.reason_arms());
    assert_eq!(first.variant_count(), second.variant_count());

    let status_arms: Vec<Arm> = vec![
        Arm {
            pattern: Pattern::Whole { variant: 0, name: "A".to_string(), shape: ShapeKind::Unit },
            extraction: Extraction::Literal("NotFound".to_string()),
        },
        Arm {
            pattern: Pattern::Named {
                variant: 2,
                name: "C".to_string(),
                field: "y".to_string(),
                position: 1,
            },
            extraction: Extraction::Bound,
        },
        Arm {
            pattern: Pattern::Wildcard,
            extraction: Extraction::Literal("InternalServerError".to_string()),
        },
    ];
    let reason_arms: Vec<Arm> = vec![
        Arm {
            pattern: Pattern::Whole { variant: 0, name: "A".to_string(), shape: ShapeKind::Unit },
            extraction: Extraction::Literal("a".to_string()),
        },
        Arm {
            pattern: Pattern::Positional { variant: 1, name: "B".to_string(), arity: 2, index: 1 },
            extraction: Extraction::Bound,
        },
        Arm { pattern: Pattern::Wildcard, extraction: Extraction::StatusReason },
    ];
    assert_eq!(first.status_arms(), &status_arms);
    assert_eq!(first.reason_arms(), &reason_arms);
    assert_eq!(first.variant_count(), 4);
}

#[test]
fn no_default_arm_where_every_variant_has_a_source() {
    let table = derive_table(&declared(vec![
        plain("A", vec![cfg_number("status", 404), cfg_text("reason", "a")]),
        positional("B", 1, vec![cfg_text("status", "Gone"), cfg_text("reason", "b")]),
    ]));
    assert_eq!(table.status_arms().len(), 2);
    assert_eq!(table.reason_arms().len(), 2);
    assert!(table.status_arms().iter().all(|arm| arm.pattern != Pattern::Wildcard));
    assert!(table.reason_arms().iter().all(|arm| arm.pattern != Pattern::Wildcard));
    assert_eq!(
        table.status_arms()[1].pattern,
        Pattern::Whole { variant: 1, name: "B".to_string(), shape: ShapeKind::Positional }
    );
}

#[test]
fn the_last_position_is_the_last_that_can_be_referred_to() {
    for key in ["status_field", "reason_field"] {
        for arity in 1..5usize {
            let last = declared(vec![positional(
                "Tuple",
                arity,
                vec![cfg_number(key, arity as u64 - 1)],
            )]);
            assert!(enum_response_derive::derive::derive(&last).is_ok());

            let beyond =
                declared(vec![positional("Tuple", arity, vec![cfg_number(key, arity as u64)])]);
            let target = if key == "status_field" { Target::Status } else { Target::Reason };
            assert_eq!(
                enum_response_derive::derive::derive(&beyond).err(),
                Some(DeriveError::FieldShapeMismatch {
                    variant: "Tuple".to_string(),
                    target,
                    source: ValueSpec::PositionalField(arity as u64),
                    shape: ShapeKind::Positional,
                    field_count: arity,
                })
            );
        }
    }
    let empty = declared(vec![positional("Empty", 0, vec![cfg_number("status_field", 0)])]);
    assert!(matches!(
        enum_response_derive::derive::derive(&empty),
        Err(DeriveError::FieldShapeMismatch { field_count: 0, .. })
    ));
}

#[test]
fn values_that_are_not_of_the_type_are_not_admitted() {
    let table = derive_table(&declared(vec![
        positional("Tuple", 2, vec![cfg_number("status_field", 0), cfg_number("reason_field", 1)]),
        plain("Unit", vec![]),
    ]));
    let good = of(0, vec![FieldValue::Status(400), phrase("bad")]);
    assert!(table.admits(&good));
    assert_eq!(table.status_of(&good), Some(400));
    assert_eq!(table.reason_of(&good), Some(Some("bad")));
    assert!(table.admits(&of(1, vec![])));

    let no_such_variant = of(2, vec![]);
    assert!(!table.admits(&no_such_variant));
    assert_eq!(table.status_of(&no_such_variant), None);
    assert!(Response::new(&table, &no_such_variant).is_none());

    let too_few_fields = of(0, vec![FieldValue::Status(400)]);
    assert!(!table.admits(&too_few_fields));

    let text_for_status = of(0, vec![phrase("400"), phrase("bad")]);
    assert_eq!(table.status_of(&text_for_status), None);
    assert!(!table.admits(&text_for_status));

    let status_for_text = of(0, vec![FieldValue::Status(400), FieldValue::Status(400)]);
    assert_eq!(table.status_of(&status_for_text), Some(400));
    assert_eq!(table.reason_of(&status_for_text), None);
    assert!(!table.admits(&status_for_text));
}
