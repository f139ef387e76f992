use enum_response_derive::dispatch::{build_arm, build_arms};
use enum_response_derive::eval::select;
use enum_response_derive::{
    Arm, DispatchTable, EnumResponse, Extraction, Field, FieldValue, Pattern, Response, ShapeKind,
    Sources, Target, Value, ValueSpec, Variant, VariantShape,
};

struct Fixed(u16);

impl EnumResponse for Fixed {
    fn status(&self) -> u16 {
        self.0
    }
}

struct Quiet;

impl EnumResponse for Quiet {
    fn status(&self) -> u16 {
        204
    }

    fn reason(&self) -> Option<&str> {
        None
    }
}

fn bare(name: &str, shape: VariantShape) -> Variant {
    Variant { name: name.to_string(), shape, config: vec![] }
}

fn pair_shape() -> VariantShape {
    VariantShape::Positional(vec!["A".to_string(), "B".to_string()])
}

fn record_shape() -> VariantShape {
    VariantShape::Named(vec![
        Field { name: "code".to_string(), ty: "StatusCode".to_string() },
        Field { name: "note".to_string(), ty: "String".to_string() },
    ])
}

fn no_sources() -> Sources {
    Sources { status: None, reason: None }
}

#[test]
fn the_reason_defaults_to_the_canonical_reason_of_the_status() {
    assert_eq!(Fixed(418).reason(), Some("I'm a teapot"));
    assert_eq!(Fixed(404).reason(), Some("Not Found"));
    assert_eq!(Fixed(200).reason(), Some("OK"));
    assert_eq!(Fixed(500).reason(), Some("Internal Server Error"));
    assert_eq!(Fixed(299).reason(), None);
    assert_eq!(Fixed(999).reason(), None);
    assert_eq!(Fixed(0).reason(), None);
    assert_eq!(Fixed(99).reason(), None);
    assert_eq!(Fixed(1000).reason(), None);
    assert_eq!(Fixed(u16::MAX).reason(), None);
    assert_eq!(Quiet.status(), 204);
    assert_eq!(Quiet.reason(), None);
}

#[test]
fn arms_for_single_sources() {
    let pair = bare("Pair", pair_shape());
    assert_eq!(
        build_arm(2, &pair, Target::Reason, &ValueSpec::PositionalField(1)),
        Arm {
            pattern: Pattern::Positional { variant: 2, name: "Pair".to_string(), arity: 2, index: 1 },
            extraction: Extraction::Bound,
        }
    );
    assert_eq!(
        build_arm(0, &pair, Target::Status, &ValueSpec::Literal("Gone".to_string())),
        Arm {
            pattern: Pattern::Whole {
                variant: 0,
                name: "Pair".to_string(),
                shape: ShapeKind::Positional
            },
            extraction: Extraction::Literal("Gone".to_string()),
        }
    );
    let record = bare("Record", record_shape());
    assert_eq!(
        build_arm(1, &record, Target::Status, &ValueSpec::NamedField("code".to_string())),
        Arm {
            pattern: Pattern::Named {
                variant: 1,
                name: "Record".to_string(),
                field: "code".to_string(),
                position: 0,
            },
            extraction: Extraction::Bound,
        }
    );
    assert_eq!(
        build_arm(1, &record, Target::Reason, &ValueSpec::NamedField("note".to_string())),
        Arm {
            pattern: Pattern::Named {
                variant: 1,
                name: "Record".to_string(),
                field: "note".to_string(),
                position: 1,
            },
            extraction: Extraction::Bound,
        }
    );
}

#[test]
fn arms_in_declaration_order_with_the_default_last() {
    let variants = vec![
        bare("A", VariantShape::Unit),
        bare("B", pair_shape()),
        bare("C", record_shape()),
        bare("D", VariantShape::Unit),
    ];
    let sources = vec![
        no_sources(),
        Sources { status: Some(ValueSpec::PositionalField(0)), reason: None },
        no_sources(),
        Sources { status: Some(ValueSpec::Literal("Gone".to_string())), reason: None },
    ];
    let status = build_arms(&variants, &sources, Target::Status);
    assert_eq!(status.len(), 3);
    assert_eq!(status[0].pattern.variant(), Some(1));
    assert_eq!(status[1].pattern.variant(), Some(3));
    assert_eq!(status[2].pattern, Pattern::Wildcard);
    assert_eq!(status[2].extraction, Extraction::Literal("InternalServerError".to_string()));

    let reason = build_arms(&variants, &sources, Target::Reason);
    assert_eq!(
        reason,
        vec![Arm { pattern: Pattern::Wildcard, extraction: Extraction::StatusReason }]
    );

    assert_eq!(select(&status, 0), Some(2));
    assert_eq!(select(&status, 1), Some(0));
    assert_eq!(select(&status, 2), Some(2));
    assert_eq!(select(&status, 3), Some(1));
    assert_eq!(select(&status[..2].to_vec(), 0), None);
    assert_eq!(select(&vec![], 0), None);

    let table = DispatchTable::build(&variants, &sources);
    assert_eq!(table.status_arms(), &status);
    assert_eq!(table.reason_arms(), &reason);
    assert_eq!(table.variant_count(), 4);
    let b = Value { variant: 1, fields: vec![FieldValue::Status(409), FieldValue::Other] };
    let response = Response::new(&table, &b).expect("a value of the type");
    assert_eq!(response.status(), 409);
    assert_eq!(response.reason(), Some("Conflict"));
    let d = Value { variant: 3, fields: vec![] };
    let response = Response::new(&table, &d).expect("a value of the type");
    assert_eq!(response.status(), 410);
    assert_eq!(response.reason(), Some("Gone"));
}
