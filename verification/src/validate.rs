//! The validator: every source is checked against the variant it belongs to
//! before any arm is built.
//!
//! A reference by position needs a variant with positional fields and a
//! position among them; a reference by name needs a variant with a named field
//! of that name. A status given by name needs a name of the registry. The text
//! of a reason needs nothing.

use crate::config::{Sources, SourcesView, Target, ValueSpec, ValueSpecView};
use crate::error::{DeriveError, DeriveErrorView};
use crate::registry::{code_by_name, code_of_name};
use crate::schema::{ShapeKind, Variant, VariantView};
use vstd::prelude::*;

verus! {

/// The failure that reports a field reference which `variant` cannot serve.
pub open spec fn mismatch(variant: VariantView, target: Target, source: ValueSpecView) -> DeriveErrorView {
    DeriveErrorView::FieldShapeMismatch {
        variant: variant.name,
        target,
        source,
        shape: variant.shape.kind(),
        field_count: variant.shape.field_count(),
    }
}

/// What is wrong with `source` as the source of `target` for `variant`;
/// `None` where nothing is.
pub open spec fn source_error(variant: VariantView, target: Target, source: ValueSpecView) -> Option<
    DeriveErrorView,
> {
    match source {
        ValueSpecView::Literal(text) => if target == Target::Status && code_of_name(text) is None {
            Some(DeriveErrorView::UnknownStatusName { variant: variant.name, name: text })
        } else {
            None
        },
        ValueSpecView::PositionalField(index) => if variant.shape.kind() == ShapeKind::Positional
            && index < variant.shape.field_count() {
            None
        } else {
            Some(mismatch(variant, target, source))
        },
        ValueSpecView::NamedField(name) => if variant.shape.position_of(name) is Some {
            None
        } else {
            Some(mismatch(variant, target, source))
        },
    }
}

/// What is wrong with an optional source; `None` where there is no source.
pub open spec fn optional_source_error(
    variant: VariantView,
    target: Target,
    source: Option<ValueSpecView>,
) -> Option<DeriveErrorView> {
    match source {
        Some(s) => source_error(variant, target, s),
        None => None,
    }
}

/// The first thing that is wrong with the sources of `variant`: the source of
/// its status is looked at before the source of its reason.
pub open spec fn sources_error(variant: VariantView, sources: SourcesView) -> Option<DeriveErrorView> {
    match optional_source_error(variant, Target::Status, sources.status) {
        Some(e) => Some(e),
        None => optional_source_error(variant, Target::Reason, sources.reason),
    }
}

/// Builds the failure that reports a field reference which `variant` cannot
/// serve.
fn field_shape_mismatch(variant: &Variant, target: Target, source: &ValueSpec) -> (error: DeriveError)
    ensures
        error@ == mismatch(variant@, target, source@),
{
    DeriveError::FieldShapeMismatch {
        variant: variant.name.clone(),
        target,
        source: source.duplicate(),
        shape: variant.shape.kind(),
        field_count: variant.shape.field_count(),
    }
}

/// Checks one source against the variant it belongs to.
pub fn check_source(variant: &Variant, target: Target, source: &ValueSpec) -> (checked: Result<
    (),
    DeriveError,
>)
    ensures
        checked is Ok ==> source_error(variant@, target, source@) is None,
        checked matches Err(e) ==> source_error(variant@, target, source@) == Some(e@),
{
    match source {
        ValueSpec::Literal(text) => {
            match target {
                Target::Status => match code_by_name(text.as_str()) {
                    Ok(_) => Ok(()),
                    Err(_) => Err(
                        DeriveError::UnknownStatusName {
                            variant: variant.name.clone(),
                            name: text.clone(),
                        },
                    ),
                },
                Target::Reason => Ok(()),
            }
        },
        ValueSpec::PositionalField(index) => {
            let count = variant.shape.field_count();
            match variant.shape.kind() {
                ShapeKind::Positional => if *index < count as u64 {
                    Ok(())
                } else {
                    Err(field_shape_mismatch(variant, target, source))
                },
                _ => Err(field_shape_mismatch(variant, target, source)),
            }
        },
        ValueSpec::NamedField(name) => match variant.shape.position_of(name.as_str()) {
            Some(_) => Ok(()),
            None => Err(field_shape_mismatch(variant, target, source)),
        },
    }
}

/// Checks the sources of `variant`, the source of its status first.
pub fn validate(variant: &Variant, sources: &Sources) -> (checked: Result<(), DeriveError>)
    ensures
        checked is Ok ==> sources_error(variant@, sources@) is None,
        checked matches Err(e) ==> sources_error(variant@, sources@) == Some(e@),
{
    match &sources.status {
        Some(source) => match check_source(variant, Target::Status, source) {
            Ok(()) => {},
            Err(e) => {
                return Err(e);
            },
        },
        None => {},
    }
    match &sources.reason {
        Some(source) => check_source(variant, Target::Reason, source),
        None => Ok(()),
    }
}

} // verus!
