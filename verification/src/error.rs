//! The failures of a derivation.

use crate::config::{Target, ValueSpec, ValueSpecView};
use crate::schema::ShapeKind;
use vstd::prelude::*;

verus! {

/// Why a derivation failed. Every failure names the declaration at fault.
#[derive(Clone, Debug, PartialEq, Eq)]
pub enum DeriveError {
    /// The type under derivation is not a sum type.
    NotASumType { type_ident: String },
    /// A configuration entry has a key that the derivation does not know.
    UnknownAttributeKey { variant: String, key: String },
    /// A configuration entry has no value, or a group of entries for a value.
    InvalidAttributeShape { variant: String, key: String },
    /// A configuration entry has a literal of a kind that its key does not take.
    InvalidAttributeValueType { variant: String, key: String },
    /// A status was given by a number that the registry does not hold.
    UnknownStatusCode { variant: String, code: u64 },
    /// A status was given by a name that the registry does not hold.
    UnknownStatusName { variant: String, name: String },
    /// A field was referred to that the variant does not have: by position
    /// where the variant has no positional fields or too few of them, or by
    /// name where it has no named fields or none of that name.
    FieldShapeMismatch {
        variant: String,
        /// The function whose source the reference was to be.
        target: Target,
        /// The reference as it was resolved.
        source: ValueSpec,
        /// The shape that the variant has.
        shape: ShapeKind,
        /// The number of fields that the variant has.
        field_count: usize,
    },
}

/// What a [`DeriveError`] holds, as a mathematical value.
pub enum DeriveErrorView {
    NotASumType { type_ident: Seq<char> },
    UnknownAttributeKey { variant: Seq<char>, key: Seq<char> },
    InvalidAttributeShape { variant: Seq<char>, key: Seq<char> },
    InvalidAttributeValueType { variant: Seq<char>, key: Seq<char> },
    UnknownStatusCode { variant: Seq<char>, code: u64 },
    UnknownStatusName { variant: Seq<char>, name: Seq<char> },
    FieldShapeMismatch {
        variant: Seq<char>,
        target: Target,
        source: ValueSpecView,
        shape: ShapeKind,
        field_count: nat,
    },
}

impl View for DeriveError {
    type V = DeriveErrorView;

    open spec fn view(&self) -> DeriveErrorView {
        match self {
            DeriveError::NotASumType { type_ident } => DeriveErrorView::NotASumType {
                type_ident: type_ident@,
            },
            DeriveError::UnknownAttributeKey { variant, key } => {
                DeriveErrorView::UnknownAttributeKey { variant: variant@, key: key@ }
            },
            DeriveError::InvalidAttributeShape { variant, key } => {
                DeriveErrorView::InvalidAttributeShape { variant: variant@, key: key@ }
            },
            DeriveError::InvalidAttributeValueType { variant, key } => {
                DeriveErrorView::InvalidAttributeValueType { variant: variant@, key: key@ }
            },
            DeriveError::UnknownStatusCode { variant, code } => DeriveErrorView::UnknownStatusCode {
                variant: variant@,
                code: *code,
            },
            DeriveError::UnknownStatusName { variant, name } => DeriveErrorView::UnknownStatusName {
                variant: variant@,
                name: name@,
            },
            DeriveError::FieldShapeMismatch { variant, target, source, shape, field_count } => {
                DeriveErrorView::FieldShapeMismatch {
                    variant: variant@,
                    target: *target,
                    source: source@,
                    shape: *shape,
                    field_count: *field_count as nat,
                }
            },
        }
    }
}

} // verus!
