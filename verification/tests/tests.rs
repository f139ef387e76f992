use enum_response_derive::{
    ConfigEntry, ConfigValue, DeriveError, DispatchTable, EnumResponse, Field, FieldValue,
    Response, Schema, ShapeKind, Target, TypeBody, Value, ValueSpec, Variant, VariantShape,
};
use http::StatusCode;

fn number(key: &str, value: u64) -> ConfigEntry {
    ConfigEntry { key: key.to_string(), value: ConfigValue::Int(value) }
}

fn text(key: &str, value: &str) -> ConfigEntry {
    ConfigEntry { key: key.to_string(), value: ConfigValue::Str(value.to_string()) }
}

fn unit(name: &str, config: Vec<ConfigEntry>) -> Variant {
    Variant { name: name.to_string(), shape: VariantShape::Unit, config }
}

fn tuple(name: &str, types: &[&str], config: Vec<ConfigEntry>) -> Variant {
    let types = types.iter().map(|t| t.to_string()).collect();
    Variant { name: name.to_string(), shape: VariantShape::Positional(types), config }
}

fn record(name: &str, fields: &[(&str, &str)], config: Vec<ConfigEntry>) -> Variant {
    let fields =
        fields.iter().map(|(n, t)| Field { name: n.to_string(), ty: t.to_string() }).collect();
    Variant { name: name.to_string(), shape: VariantShape::Named(fields), config }
}

fn error_type(generics: &[&str], variants: Vec<Variant>) -> Schema {
    Schema {
        name: "Error".to_string(),
        generics: generics.iter().map(|g| g.to_string()).collect(),
        body: TypeBody::Sum(variants),
    }
}

fn table(schema: &Schema) -> DispatchTable {
    enum_response_derive::derive::derive(schema).expect("the derivation succeeds")
}

fn value(variant: usize, fields: Vec<FieldValue>) -> Value {
    Value { variant, fields }
}

fn s(text: &str) -> FieldValue {
    FieldValue::Text(text.to_string())
}

fn code(status: StatusCode) -> FieldValue {
    FieldValue::Status(status.as_u16())
}

fn status(table: &DispatchTable, value: &Value) -> u16 {
    Response::new(table, value).expect("the table admits the value").status()
}

fn reason(table: &DispatchTable, value: &Value) -> Option<String> {
    let response = Response::new(table, value).expect("the table admits the value");
    response.reason().map(|r| r.to_string())
}

fn some(text: &str) -> Option<String> {
    Some(text.to_string())
}

#[test]
fn compile_test() {
    let on_struct =
        error_type(&[], vec![record("Struct", &[("s", "String")], vec![number("reason_field", 0)])]);
    assert_eq!(
        enum_response_derive::derive::derive(&on_struct).err(),
        Some(DeriveError::FieldShapeMismatch {
            variant: "Struct".to_string(),
            target: Target::Reason,
            source: ValueSpec::PositionalField(0),
            shape: ShapeKind::Named,
            field_count: 1,
        })
    );

    let no_field_at_ix =
        error_type(&[], vec![tuple("Tuple", &["String"], vec![number("reason_field", 1)])]);
    assert_eq!(
        enum_response_derive::derive::derive(&no_field_at_ix).err(),
        Some(DeriveError::FieldShapeMismatch {
            variant: "Tuple".to_string(),
            target: Target::Reason,
            source: ValueSpec::PositionalField(1),
            shape: ShapeKind::Positional,
            field_count: 1,
        })
    );
}

#[test]
fn default_internal_server_error() {
    let table = table(&error_type(
        &["'a"],
        vec![
            unit("Unit", vec![]),
            tuple("Tuple", &["&'a str"], vec![]),
            record("Struct", &[("s", "&'a str")], vec![]),
        ],
    ));
    let unit = value(0, vec![]);
    let tuple = value(1, vec![s("")]);
    let structure = value(2, vec![s("")]);
    assert_eq!(status(&table, &unit), StatusCode::INTERNAL_SERVER_ERROR.as_u16());
    assert_eq!(reason(&table, &unit), some("Internal Server Error"));
    assert_eq!(status(&table, &tuple), StatusCode::INTERNAL_SERVER_ERROR.as_u16());
    assert_eq!(reason(&table, &tuple), some("Internal Server Error"));
    assert_eq!(status(&table, &structure), StatusCode::INTERNAL_SERVER_ERROR.as_u16());
    assert_eq!(reason(&table, &structure), some("Internal Server Error"));
}

#[test]
fn override_status_code_int() {
    let table = table(&error_type(
        &["'a"],
        vec![
            unit("Unit", vec![number("status", 400)]),
            tuple("Tuple", &["&'a str"], vec![number("status", 401)]),
            record("Struct", &[("s", "&'a str")], vec![number("status", 402)]),
        ],
    ));
    assert_eq!(status(&table, &value(0, vec![])), StatusCode::BAD_REQUEST.as_u16());
    assert_eq!(status(&table, &value(1, vec![s("")])), StatusCode::UNAUTHORIZED.as_u16());
    assert_eq!(status(&table, &value(2, vec![s("")])), StatusCode::PAYMENT_REQUIRED.as_u16());
}

#[test]
fn override_status_code_string() {
    let table = table(&error_type(
        &["'a"],
        vec![
            unit("Unit", vec![text("status", "402")]),
            tuple("Tuple", &["&'a str"], vec![text("status", "400")]),
            record("Struct", &[("s", "&'a str")], vec![text("status", "401")]),
        ],
    ));
    assert_eq!(status(&table, &value(0, vec![])), StatusCode::PAYMENT_REQUIRED.as_u16());
    assert_eq!(status(&table, &value(1, vec![s("")])), StatusCode::BAD_REQUEST.as_u16());
    assert_eq!(status(&table, &value(2, vec![s("")])), StatusCode::UNAUTHORIZED.as_u16());
}

#[test]
fn override_status_name() {
    let table = table(&error_type(
        &["'a"],
        vec![
            unit("Unit", vec![text("status", "UNAUTHORIZED")]),
            tuple("Tuple", &["&'a str"], vec![text("status", "PAYMENT_REQUIRED")]),
            record("Struct", &[("s", "&'a str")], vec![text("status", "BAD_REQUEST")]),
        ],
    ));
    assert_eq!(status(&table, &value(0, vec![])), StatusCode::UNAUTHORIZED.as_u16());
    assert_eq!(status(&table, &value(1, vec![s("")])), StatusCode::PAYMENT_REQUIRED.as_u16());
    assert_eq!(status(&table, &value(2, vec![s("")])), StatusCode::BAD_REQUEST.as_u16());
}

#[test]
fn override_reason() {
    let table = table(&error_type(
        &["'a"],
        vec![
            unit("Unit", vec![text("reason", "A")]),
            tuple("Tuple", &["&'a str"], vec![text("reason", "B")]),
            record("Struct", &[("s", "&'a str")], vec![text("reason", "C")]),
        ],
    ));
    assert_eq!(reason(&table, &value(0, vec![])), some("A"));
    assert_eq!(reason(&table, &value(1, vec![s("")])), some("B"));
    assert_eq!(reason(&table, &value(2, vec![s("")])), some("C"));
}

#[test]
fn struct_variant() {
    let table =
        table(&error_type(&["'a"], vec![record("Struct", &[("s", "&'a str")], vec![])]));
    let err = value(0, vec![s("")]);
    assert_eq!(status(&table, &err), StatusCode::INTERNAL_SERVER_ERROR.as_u16());
    assert_eq!(reason(&table, &err), some("Internal Server Error"));
}

fn reason_tuple_variants(config: [ConfigEntry; 5]) -> Vec<Variant> {
    let [one, two, first, inbetween, last] = config;
    vec![
        tuple("One", &["String"], vec![one]),
        tuple("Two", &["&'a str", "&'a str"], vec![two]),
        tuple("First", &["&'a str", "&'a str", "&'a str"], vec![first]),
        tuple("Inbetween", &["&'a str", "&'a str", "&'a str"], vec![inbetween]),
        tuple("Last", &["&'a str", "&'a str", "&'a str"], vec![last]),
    ]
}

#[test]
fn override_reason_from_tuple_field_int() {
    let table = table(&error_type(
        &["'a"],
        reason_tuple_variants([
            number("reason_field", 0),
            number("reason_field", 1),
            number("reason_field", 0),
            number("reason_field", 1),
            number("reason_field", 2),
        ]),
    ));
    assert_eq!(reason(&table, &value(0, vec![s("a")])), some("a"));
    assert_eq!(reason(&table, &value(1, vec![s("a"), s("b")])), some("b"));
    assert_eq!(reason(&table, &value(2, vec![s("a"), s("b"), s("c")])), some("a"));
    assert_eq!(reason(&table, &value(3, vec![s("a"), s("b"), s("c")])), some("b"));
    assert_eq!(reason(&table, &value(4, vec![s("a"), s("b"), s("c")])), some("c"));
}

#[test]
fn override_reason_from_tuple_field_string() {
    let table = table(&error_type(
        &["'a"],
        reason_tuple_variants([
            text("reason_field", "0"),
            text("reason_field", "1"),
            text("reason_field", "0"),
            text("reason_field", "1"),
            text("reason_field", "2"),
        ]),
    ));
    assert_eq!(reason(&table, &value(0, vec![s("a")])), some("a"));
    assert_eq!(reason(&table, &value(1, vec![s("a"), s("b")])), some("b"));
    assert_eq!(reason(&table, &value(2, vec![s("a"), s("b"), s("c")])), some("a"));
    assert_eq!(reason(&table, &value(3, vec![s("a"), s("b"), s("c")])), some("b"));
    assert_eq!(reason(&table, &value(4, vec![s("a"), s("b"), s("c")])), some("c"));
}

#[test]
fn override_reason_from_struct_field() {
    let fields = [("a", "&'a str"), ("b", "&'a str"), ("c", "&'a str")];
    let table = table(&error_type(
        &["'a"],
        vec![
            record("First", &fields, vec![text("reason_field", "a")]),
            record("Second", &fields, vec![text("reason_field", "b")]),
            record("Third", &fields, vec![text("reason_field", "c")]),
        ],
    ));
    assert_eq!(reason(&table, &value(0, vec![s("1"), s("2"), s("3")])), some("1"));
    assert_eq!(reason(&table, &value(1, vec![s("1"), s("2"), s("3")])), some("2"));
    assert_eq!(reason(&table, &value(2, vec![s("1"), s("2"), s("3")])), some("3"));
}

fn status_tuple_variants(config: [ConfigEntry; 5]) -> Vec<Variant> {
    let [one, two, first, inbetween, last] = config;
    vec![
        tuple("One", &["StatusCode"], vec![one]),
        tuple("Two", &["()", "StatusCode"], vec![two]),
        tuple("First", &["StatusCode", "()", "()"], vec![first]),
        tuple("Inbetween", &["()", "StatusCode", "()"], vec![inbetween]),
        tuple("Last", &["()", "()", "StatusCode"], vec![last]),
    ]
}

fn other() -> FieldValue {
    FieldValue::Other
}

#[test]
fn override_status_code_from_tuple_field_int() {
    let table = table(&error_type(
        &[],
        status_tuple_variants([
            number("status_field", 0),
            number("status_field", 1),
            number("status_field", 0),
            number("status_field", 1),
            number("status_field", 2),
        ]),
    ));
    let forbidden = StatusCode::FORBIDDEN;
    assert_eq!(status(&table, &value(0, vec![code(forbidden)])), StatusCode::FORBIDDEN.as_u16());
    assert_eq!(
        status(&table, &value(1, vec![other(), code(forbidden)])),
        StatusCode::FORBIDDEN.as_u16()
    );
    assert_eq!(
        status(&table, &value(2, vec![code(forbidden), other(), other()])),
        StatusCode::FORBIDDEN.as_u16()
    );
    assert_eq!(
        status(&table, &value(3, vec![other(), code(forbidden), other()])),
        StatusCode::FORBIDDEN.as_u16()
    );
    assert_eq!(
        status(&table, &value(4, vec![other(), other(), code(forbidden)])),
        StatusCode::FORBIDDEN.as_u16()
    );
}

#[test]
fn override_status_code_from_tuple_field_string() {
    let table = table(&error_type(
        &[],
        status_tuple_variants([
            text("status_field", "0"),
            text("status_field", "1"),
            text("status_field", "0"),
            text("status_field", "1"),
            text("status_field", "2"),
        ]),
    ));
    let forbidden = StatusCode::FORBIDDEN;
    assert_eq!(status(&table, &value(0, vec![code(forbidden)])), StatusCode::FORBIDDEN.as_u16());
    assert_eq!(
        status(&table, &value(1, vec![other(), code(forbidden)])),
        StatusCode::FORBIDDEN.as_u16()
    );
    assert_eq!(
        status(&table, &value(2, vec![code(forbidden), other(), other()])),
        StatusCode::FORBIDDEN.as_u16()
    );
    assert_eq!(
        status(&table, &value(3, vec![other(), code(forbidden), other()])),
        StatusCode::FORBIDDEN.as_u16()
    );
    assert_eq!(
        status(&table, &value(4, vec![other(), other(), code(forbidden)])),
        StatusCode::FORBIDDEN.as_u16()
    );
}

#[test]
fn override_status_code_from_struct_field() {
    let table = table(&error_type(
        &[],
        vec![
            record(
                "First",
                &[("a", "StatusCode"), ("b", "()"), ("c", "()")],
                vec![text("status_field", "a")],
            ),
            record(
                "Second",
                &[("a", "()"), ("b", "StatusCode"), ("c", "()")],
                vec![text("status_field", "b")],
            ),
            record(
                "Third",
                &[("a", "()"), ("b", "()"), ("c", "StatusCode")],
                vec![text("status_field", "c")],
            ),
        ],
    ));
    let forbidden = StatusCode::FORBIDDEN;
    assert_eq!(
        status(&table, &value(0, vec![code(forbidden), other(), other()])),
        StatusCode::FORBIDDEN.as_u16()
    );
    assert_eq!(
        status(&table, &value(1, vec![other(), code(forbidden), other()])),
        StatusCode::FORBIDDEN.as_u16()
    );
    assert_eq!(
        status(&table, &value(2, vec![other(), other(), code(forbidden)])),
        StatusCode::FORBIDDEN.as_u16()
    );
}
