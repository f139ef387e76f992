//! What holds of every derivation: the laws that relate the configuration of
//! a variant to the status and the reason of its values.

use crate::config::{status_literal, SourcesView, Target, ValueSpecView};
use crate::derive::{derivation, lemma_no_error, selected_all, source_of, variant_error};
use crate::dispatch::{
    arm_of, arms_of, arms_wf, default_arm, explicit_arms, lemma_arm_position, lemma_arms_of_wf,
    lemma_explicit_arms, table_of, valid_source, valid_sources, ArmView, DispatchTableView,
};
use crate::error::DeriveErrorView;
use crate::eval::{
    bound_field, first_match, lemma_first_match, lemma_first_match_is, FieldValueView, ValueView,
};
use crate::registry::{
    canonical_reason_text, code_of_name, lemma_name_round_trip, INTERNAL_SERVER_ERROR,
};
use crate::schema::{lemma_find_field, Schema, SchemaView, ShapeKind, VariantShapeView, VariantView};
use crate::validate::{mismatch, source_error};
use vstd::prelude::*;

verus! {

/// Whether `table` is the table that the derivation yields for `schema`.
pub open spec fn derives(schema: SchemaView, table: DispatchTableView) -> bool {
    derivation(schema) == Ok::<_, DeriveErrorView>(table)
}

/// The variant that `value` is of, in a type declared by `schema`.
pub open spec fn variant_of(schema: SchemaView, value: ValueView) -> VariantView {
    schema.variants()[value.variant as int]
}

/// Whether `value` is of a variant of the type that `schema` declares, and
/// has as many fields as that variant.
pub open spec fn conforms(schema: SchemaView, value: ValueView) -> bool {
    &&& value.variant < schema.variants().len()
    &&& value.fields.len() == variant_of(schema, value).shape.field_count()
}

/// The place, among the fields of `variant`, of the field that `source`
/// refers to.
pub open spec fn referred_field(variant: VariantView, source: ValueSpecView) -> Option<nat> {
    match source {
        ValueSpecView::Literal(_) => None,
        ValueSpecView::PositionalField(index) => Some(index as nat),
        ValueSpecView::NamedField(name) => variant.shape.position_of(name),
    }
}

/// A derivation that succeeds has met no failure: the type is a sum type, the
/// table is the table of its variants and is well formed, and every variant can
/// serve the sources it selects.
pub proof fn lemma_derived(schema: SchemaView, table: DispatchTableView)
    requires
        derives(schema, table),
    ensures
        schema.body is Sum,
        table == table_of(schema.variants(), selected_all(schema.variants())),
        table.wf(),
        valid_sources(schema.variants(), selected_all(schema.variants()), Target::Status),
        valid_sources(schema.variants(), selected_all(schema.variants()), Target::Reason),
{
    let variants = schema.variants();
    let sources = selected_all(variants);
    lemma_no_error(variants);
    assert forall|i: int| 0 <= i < variants.len() implies valid_source(
        variants,
        sources,
        Target::Status,
        i,
    ) && valid_source(variants, sources, Target::Reason, i) by {
        assert(variant_error(variants[i]) is None);
    }
    lemma_arms_of_wf(variants, sources, Target::Status);
    lemma_arms_of_wf(variants, sources, Target::Reason);
}

/// The arm that decides about the values of the variant at place `i`: the
/// variant's own arm where it has a source for `target`, the default arm
/// where it has none. No arm before it matches those values.
pub proof fn lemma_deciding_arm(
    variants: Seq<VariantView>,
    sources: Seq<SourcesView>,
    target: Target,
    i: nat,
)
    requires
        i < variants.len(),
        valid_sources(variants, sources, target),
    ensures
        first_match(arms_of(variants, sources, target), i) is Some,
        arms_of(variants, sources, target)[first_match(
            arms_of(variants, sources, target),
            i,
        )->0 as int] == (match sources[i as int].of(target) {
            Some(source) => arm_of(i, variants[i as int], source),
            None => default_arm(target),
        }),
{
    let arms = arms_of(variants, sources, target);
    let explicit = explicit_arms(variants, sources, target, variants.len());
    let before = explicit_arms(variants, sources, target, i);
    let position = before.len() as int;
    lemma_explicit_arms(variants, sources, target, 0, i);
    lemma_explicit_arms(variants, sources, target, i, i + 1);
    lemma_explicit_arms(variants, sources, target, i + 1, variants.len());
    lemma_explicit_arms(variants, sources, target, i, variants.len());
    assert(forall|k: int| 0 <= k < explicit.len() ==> arms[k] == explicit[k]);
    if sources[i as int].of(target) is Some {
        lemma_arm_position(variants, sources, target, i);
        assert forall|j: int| 0 <= j < position implies !(#[trigger] arms[j]).pattern.matches(i) by {
            assert(arms[j] == before[j]);
        }
        lemma_first_match_is(arms, i, position);
    } else {
        assert(explicit_arms(variants, sources, target, i + 1) == before);
        assert(explicit.len() < variants.len());
        let last = explicit.len() as int;
        assert(arms[last] == default_arm(target));
        assert forall|j: int| 0 <= j < last implies !(#[trigger] arms[j]).pattern.matches(i) by {
            if j < position {
                assert(arms[j] == before[j]);
            }
        }
        lemma_first_match_is(arms, i, last);
    }
}

/// In a list of arms that has no default arm, the arm at each place belongs
/// to the variant at that place.
pub proof fn lemma_arm_for_each_variant(arms: Seq<ArmView>, target: Target, count: nat, k: int)
    requires
        arms_wf(arms, target, count),
        arms.len() == count,
        count > 0 ==> !(arms.last().pattern is Wildcard),
        0 <= k < count,
    ensures
        arms[k].pattern.variant() == Some(k as nat),
{
    lemma_at_least_place(arms, target, count, k);
    lemma_at_most_place(arms, target, count, k);
}

/// Arms in declaration order: the arm at place `k` belongs to a variant at
/// place `k` or later.
proof fn lemma_at_least_place(arms: Seq<ArmView>, target: Target, count: nat, k: int)
    requires
        arms_wf(arms, target, count),
        arms.len() == count,
        count > 0 ==> !(arms.last().pattern is Wildcard),
        0 <= k < count,
    ensures
        arms[k].pattern.variant()->0 >= k,
    decreases k,
{
    if k > 0 {
        lemma_at_least_place(arms, target, count, k - 1);
    }
}

/// As many arms as variants: the arm at place `k` belongs to a variant at
/// place `k` or earlier.
proof fn lemma_at_most_place(arms: Seq<ArmView>, target: Target, count: nat, k: int)
    requires
        arms_wf(arms, target, count),
        arms.len() == count,
        count > 0 ==> !(arms.last().pattern is Wildcard),
        0 <= k < count,
    ensures
        arms[k].pattern.variant()->0 <= k,
    decreases count - k,
{
    if k + 1 < count {
        lemma_at_most_place(arms, target, count, k + 1);
    }
}

/// Both functions are total: in a list of arms that is well formed, some arm
/// matches the values of every variant of the type.
pub proof fn law_some_arm_matches(arms: Seq<ArmView>, target: Target, count: nat, variant: nat)
    requires
        arms_wf(arms, target, count),
        variant < count,
    ensures
        first_match(arms, variant) is Some,
{
    lemma_first_match(arms, variant);
    if arms.len() > 0 && arms.last().pattern is Wildcard {
        assert(arms[arms.len() - 1].pattern.matches(variant));
    } else {
        lemma_arm_for_each_variant(arms, target, count, variant as int);
        assert(arms[variant as int].pattern.matches(variant));
    }
}

/// A table that is well formed has a status for every value of a variant of the
/// type, unless the arm that decides binds a field which the value lacks, or
/// which holds no status.
pub proof fn law_status_is_total(table: DispatchTableView, value: ValueView)
    requires
        table.wf(),
        value.variant < table.variant_count,
    ensures
        first_match(table.status_arms, value.variant) matches Some(k) && ({
            let arm = table.status_arms[k as int];
            table.status_of(value) is None ==> arm.extraction is Bound && !(bound_field(
                arm.pattern,
                value.fields,
            ) matches Some(FieldValueView::Status(_)))
        }),
{
    law_some_arm_matches(table.status_arms, Target::Status, table.variant_count, value.variant);
    lemma_first_match(table.status_arms, value.variant);
    lemma_name_round_trip(INTERNAL_SERVER_ERROR);
}

/// A table that is well formed has a reason for every value that it has a status
/// for, unless the arm that decides binds a field which the value lacks, or
/// which holds no text.
pub proof fn law_reason_is_total(table: DispatchTableView, value: ValueView)
    requires
        table.wf(),
        table.status_of(value) is Some,
    ensures
        first_match(table.reason_arms, value.variant) matches Some(k) && ({
            let arm = table.reason_arms[k as int];
            table.reason_of(value) is None ==> arm.extraction is Bound && !(bound_field(
                arm.pattern,
                value.fields,
            ) matches Some(FieldValueView::Text(_)))
        }),
{
    law_some_arm_matches(table.reason_arms, Target::Reason, table.variant_count, value.variant);
    lemma_first_match(table.reason_arms, value.variant);
}

/// A variant whose status is configured by name has the status of that name,
/// whatever the other variants configure and whatever its fields hold.
pub proof fn law_status_by_name(
    schema: SchemaView,
    table: DispatchTableView,
    value: ValueView,
    name: Seq<char>,
)
    requires
        derives(schema, table),
        value.variant < schema.variants().len(),
        source_of(variant_of(schema, value), Target::Status) == Some(ValueSpecView::Literal(name)),
    ensures
        code_of_name(name) is Some,
        table.status_of(value) == code_of_name(name),
{
    lemma_derived(schema, table);
    lemma_deciding_arm(
        schema.variants(),
        selected_all(schema.variants()),
        Target::Status,
        value.variant,
    );
    assert(valid_source(
        schema.variants(),
        selected_all(schema.variants()),
        Target::Status,
        value.variant as int,
    ));
}

/// A status configured by number is configured by the canonical name of that
/// number, and the name leads back to the number: the status of the variant
/// is the number itself.
pub proof fn law_status_by_code(variant: Seq<char>, code: u64)
    requires
        status_literal(variant, code) is Ok,
    ensures
        status_literal(variant, code)->Ok_0 matches ValueSpecView::Literal(name) && code_of_name(name)
            == Some(code as u16) && code as u16 == code,
{
    lemma_name_round_trip(code as u16);
}

/// A variant that configures no status has the status 500, whatever its
/// fields hold.
pub proof fn law_default_status(schema: SchemaView, table: DispatchTableView, value: ValueView)
    requires
        derives(schema, table),
        value.variant < schema.variants().len(),
        source_of(variant_of(schema, value), Target::Status) is None,
    ensures
        table.status_of(value) == Some(INTERNAL_SERVER_ERROR),
{
    lemma_derived(schema, table);
    lemma_deciding_arm(
        schema.variants(),
        selected_all(schema.variants()),
        Target::Status,
        value.variant,
    );
    lemma_name_round_trip(INTERNAL_SERVER_ERROR);
}

/// A variant that configures no reason has the canonical reason of its
/// status, whatever that status is and wherever it comes from.
pub proof fn law_default_reason(schema: SchemaView, table: DispatchTableView, value: ValueView)
    requires
        derives(schema, table),
        value.variant < schema.variants().len(),
        source_of(variant_of(schema, value), Target::Reason) is None,
        table.status_of(value) is Some,
    ensures
        table.reason_of(value) == Some(canonical_reason_text(table.status_of(value)->0)),
{
    lemma_derived(schema, table);
    lemma_deciding_arm(
        schema.variants(),
        selected_all(schema.variants()),
        Target::Reason,
        value.variant,
    );
}

/// A variant whose reason is configured as a text has that text for its
/// reason, whatever the other variants configure and whatever its fields
/// hold.
pub proof fn law_reason_literal(
    schema: SchemaView,
    table: DispatchTableView,
    value: ValueView,
    text: Seq<char>,
)
    requires
        derives(schema, table),
        value.variant < schema.variants().len(),
        source_of(variant_of(schema, value), Target::Reason) == Some(ValueSpecView::Literal(text)),
    ensures
        table.reason_of(value) == Some(Some(text)),
{
    lemma_derived(schema, table);
    lemma_deciding_arm(
        schema.variants(),
        selected_all(schema.variants()),
        Target::Reason,
        value.variant,
    );
}

/// A reference to a field that a variant can serve refers to one of the
/// fields that the variant has.
pub proof fn lemma_referred_field(variant: VariantView, target: Target, source: ValueSpecView)
    requires
        source_error(variant, target, source) is None,
        !(source is Literal),
    ensures
        referred_field(variant, source) matches Some(place) && place < variant.shape.field_count(),
{
    if let ValueSpecView::NamedField(name) = source {
        if let VariantShapeView::Named(fields) = variant.shape {
            lemma_find_field(fields, name);
        }
    }
}

/// A variant whose status is configured as a field has the status that the
/// field holds, whatever its other fields hold.
pub proof fn law_status_field(
    schema: SchemaView,
    table: DispatchTableView,
    value: ValueView,
    source: ValueSpecView,
    code: u16,
)
    requires
        derives(schema, table),
        conforms(schema, value),
        source_of(variant_of(schema, value), Target::Status) == Some(source),
        referred_field(variant_of(schema, value), source) matches Some(place)
            && value.fields[place as int] == FieldValueView::Status(code),
    ensures
        table.status_of(value) == Some(code),
{
    lemma_derived(schema, table);
    lemma_deciding_arm(
        schema.variants(),
        selected_all(schema.variants()),
        Target::Status,
        value.variant,
    );
    assert(valid_source(
        schema.variants(),
        selected_all(schema.variants()),
        Target::Status,
        value.variant as int,
    ));
    lemma_referred_field(variant_of(schema, value), Target::Status, source);
}

/// A variant whose reason is configured as a field has for its reason the
/// text that the field holds, whatever its other fields hold.
pub proof fn law_reason_field(
    schema: SchemaView,
    table: DispatchTableView,
    value: ValueView,
    source: ValueSpecView,
    text: Seq<char>,
)
    requires
        derives(schema, table),
        conforms(schema, value),
        source_of(variant_of(schema, value), Target::Reason) == Some(source),
        referred_field(variant_of(schema, value), source) matches Some(place)
            && value.fields[place as int] == FieldValueView::Text(text),
    ensures
        table.reason_of(value) == Some(Some(text)),
{
    lemma_derived(schema, table);
    lemma_deciding_arm(
        schema.variants(),
        selected_all(schema.variants()),
        Target::Reason,
        value.variant,
    );
    assert(valid_source(
        schema.variants(),
        selected_all(schema.variants()),
        Target::Reason,
        value.variant as int,
    ));
    lemma_referred_field(variant_of(schema, value), Target::Reason, source);
}

/// The derivation is a function of what the schema holds: two schemas that
/// hold the same yield the same table, arm for arm, or the same failure.
pub proof fn law_derivation_repeats(first: Schema, second: Schema)
    requires
        first@ == second@,
    ensures
        derivation(first@) == derivation(second@),
{
}

/// Among the positional fields of a variant the last position can be referred
/// to, and the one after it cannot: the reference fails as a mismatch of
/// field and shape.
pub proof fn law_last_position(variant: VariantView, target: Target, count: u64)
    requires
        variant.shape.kind() == ShapeKind::Positional,
        variant.shape.field_count() == count,
    ensures
        count > 0 ==> source_error(
            variant,
            target,
            ValueSpecView::PositionalField((count - 1) as u64),
        ) is None,
        source_error(variant, target, ValueSpecView::PositionalField(count)) == Some(
            mismatch(variant, target, ValueSpecView::PositionalField(count)),
        ),
        mismatch(variant, target, ValueSpecView::PositionalField(count)) is FieldShapeMismatch,
{
}

} // verus!
