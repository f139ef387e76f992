//! The meaning of a dispatch table: the status and the reason that its arms
//! yield for a run-time value.
//!
//! A value is a variant, given by its place in the declaration, and the
//! values of its fields in declaration order. The arms of a list are tried
//! from the top; the first whose pattern matches the value yields the result.
//! A table admits a value where both of its lists yield something for it.
//! That takes a variant of the type and, where an arm binds a field, a value
//! that has the field, holding a status where a status is wanted and a text
//! where a reason is.

use crate::dispatch::{
    arm_views, Arm, ArmView, DispatchTable, DispatchTableView, Extraction, ExtractionView, Pattern,
    PatternView,
};
use crate::registry::{canonical_reason, canonical_reason_text, code_by_name, code_of_name, text_of};
use vstd::prelude::*;

verus! {

/// The run-time value of one field.
#[derive(Clone, Debug, PartialEq, Eq)]
pub enum FieldValue {
    /// A status code.
    Status(u16),
    /// A text.
    Text(String),
    /// Anything else.
    Other,
}

/// What a [`FieldValue`] holds, as a mathematical value.
pub enum FieldValueView {
    Status(u16),
    Text(Seq<char>),
    Other,
}

impl View for FieldValue {
    type V = FieldValueView;

    open spec fn view(&self) -> FieldValueView {
        match self {
            FieldValue::Status(code) => FieldValueView::Status(*code),
            FieldValue::Text(text) => FieldValueView::Text(text@),
            FieldValue::Other => FieldValueView::Other,
        }
    }
}

/// A run-time value of the type under derivation.
#[derive(Clone, Debug, PartialEq, Eq)]
pub struct Value {
    /// The variant of the value: its place in the declaration.
    pub variant: usize,
    /// The values of the fields, in declaration order.
    pub fields: Vec<FieldValue>,
}

/// What a [`Value`] holds, as a mathematical value.
pub struct ValueView {
    pub variant: nat,
    pub fields: Seq<FieldValueView>,
}

impl View for Value {
    type V = ValueView;

    open spec fn view(&self) -> ValueView {
        ValueView {
            variant: self.variant as nat,
            fields: self.fields@.map_values(|f: FieldValue| f@),
        }
    }
}

/// The place of the first of `arms` whose pattern matches the values of the
/// variant at place `variant`.
pub open spec fn first_match(arms: Seq<ArmView>, variant: nat) -> Option<nat>
    decreases arms.len(),
{
    if arms.len() == 0 {
        None
    } else {
        match first_match(arms.drop_last(), variant) {
            Some(k) => Some(k),
            None => if arms.last().pattern.matches(variant) {
                Some((arms.len() - 1) as nat)
            } else {
                None
            },
        }
    }
}

/// What `first_match` finds: the least place whose arm matches.
pub proof fn lemma_first_match(arms: Seq<ArmView>, variant: nat)
    ensures
        match first_match(arms, variant) {
            Some(k) => k < arms.len() && arms[k as int].pattern.matches(variant) && forall|j: int|
                0 <= j < k ==> !(#[trigger] arms[j]).pattern.matches(variant),
            None => forall|j: int|
                0 <= j < arms.len() ==> !(#[trigger] arms[j]).pattern.matches(variant),
        },
    decreases arms.len(),
{
    if arms.len() > 0 {
        let front = arms.drop_last();
        lemma_first_match(front, variant);
        assert(forall|j: int| 0 <= j < front.len() ==> front[j] == arms[j]);
    }
}

/// The first match is the arm that matches after none that does.
pub proof fn lemma_first_match_is(arms: Seq<ArmView>, variant: nat, k: int)
    requires
        0 <= k < arms.len(),
        arms[k].pattern.matches(variant),
        forall|j: int| 0 <= j < k ==> !(#[trigger] arms[j]).pattern.matches(variant),
    ensures
        first_match(arms, variant) == Some(k as nat),
{
    lemma_first_match(arms, variant);
}

/// A match among the first `n` arms is the first match among all.
pub proof fn lemma_first_match_prefix(arms: Seq<ArmView>, variant: nat, n: int)
    requires
        0 <= n <= arms.len(),
        first_match(arms.take(n), variant) is Some,
    ensures
        first_match(arms, variant) == first_match(arms.take(n), variant),
    decreases arms.len() - n,
{
    if n == arms.len() {
        assert(arms.take(n) =~= arms);
    } else {
        assert(arms.take(n + 1).drop_last() =~= arms.take(n));
        lemma_first_match_prefix(arms, variant, n + 1);
    }
}

/// The field that `pattern` binds in a value with the given fields; `None`
/// where the pattern binds none, or the value has no such field.
pub open spec fn bound_field(pattern: PatternView, fields: Seq<FieldValueView>) -> Option<
    FieldValueView,
> {
    match pattern {
        PatternView::Positional { arity, index, .. } => if fields.len() == arity && index < arity {
            Some(fields[index as int])
        } else {
            None
        },
        PatternView::Named { position, .. } => if position < fields.len() {
            Some(fields[position as int])
        } else {
            None
        },
        _ => None,
    }
}

/// The status that `arm` yields for `value`.
pub open spec fn arm_status(arm: ArmView, value: ValueView) -> Option<u16> {
    match arm.extraction {
        ExtractionView::Literal(name) => code_of_name(name),
        ExtractionView::Bound => match bound_field(arm.pattern, value.fields) {
            Some(FieldValueView::Status(code)) => Some(code),
            _ => None,
        },
        ExtractionView::StatusReason => None,
    }
}

/// The reason that `arm` yields for `value`, whose status is `status`.
pub open spec fn arm_reason(arm: ArmView, status: Option<u16>, value: ValueView) -> Option<
    Option<Seq<char>>,
> {
    match arm.extraction {
        ExtractionView::Literal(text) => Some(Some(text)),
        ExtractionView::Bound => match bound_field(arm.pattern, value.fields) {
            Some(FieldValueView::Text(text)) => Some(Some(text)),
            _ => None,
        },
        ExtractionView::StatusReason => match status {
            Some(code) => Some(canonical_reason_text(code)),
            None => None,
        },
    }
}

impl DispatchTableView {
    /// The status of `value`; `None` where the table does not admit the value.
    pub open spec fn status_of(self, value: ValueView) -> Option<u16> {
        if value.variant < self.variant_count {
            match first_match(self.status_arms, value.variant) {
                Some(k) => arm_status(self.status_arms[k as int], value),
                None => None,
            }
        } else {
            None
        }
    }

    /// The reason of `value`, which may be none; `None` where the table does
    /// not admit the value.
    pub open spec fn reason_of(self, value: ValueView) -> Option<Option<Seq<char>>> {
        if value.variant < self.variant_count {
            match first_match(self.reason_arms, value.variant) {
                Some(k) => arm_reason(self.reason_arms[k as int], self.status_of(value), value),
                None => None,
            }
        } else {
            None
        }
    }

    /// Whether `value` is a value that the table has a status and a reason
    /// for.
    pub open spec fn admits(self, value: ValueView) -> bool {
        self.status_of(value) is Some && self.reason_of(value) is Some
    }
}

/// The place of the first of `arms` that matches the values of the variant
/// at place `variant`.
pub fn select(arms: &Vec<Arm>, variant: usize) -> (found: Option<usize>)
    ensures
        match found {
            Some(k) => first_match(arm_views(arms@), variant as nat) == Some(k as nat) && k
                < arms@.len(),
            None => first_match(arm_views(arms@), variant as nat) is None,
        },
{
    let ghost views = arm_views(arms@);
    let mut k: usize = 0;
    while k < arms.len()
        invariant
            k <= arms.len(),
            views == arm_views(arms@),
            first_match(views.take(k as int), variant as nat) is None,
        decreases arms.len() - k,
    {
        proof {
            assert(views.take(k + 1).drop_last() =~= views.take(k as int));
            assert(views.take(k + 1).last() == arms@[k as int]@);
        }
        let hit = match arms[k].pattern.variant() {
            Some(v) => v == variant,
            None => true,
        };
        if hit {
            proof {
                lemma_first_match_prefix(views, variant as nat, k + 1);
            }
            return Some(k);
        }
        k += 1;
    }
    proof {
        assert(views.take(k as int) =~= views);
    }
    None
}

/// The field that `pattern` binds in `value`.
fn bound<'a>(pattern: &Pattern, value: &'a Value) -> (field: Option<&'a FieldValue>)
    ensures
        match field {
            Some(f) => bound_field(pattern@, value@.fields) == Some(f@),
            None => bound_field(pattern@, value@.fields) is None,
        },
{
    match pattern {
        Pattern::Positional { arity, index, .. } => if value.fields.len() == *arity && *index
            < *arity {
            Some(&value.fields[*index])
        } else {
            None
        },
        Pattern::Named { position, .. } => if *position < value.fields.len() {
            Some(&value.fields[*position])
        } else {
            None
        },
        _ => None,
    }
}

/// The characters of a reason that may be none, or may not be had at all.
pub open spec fn reason_view(reason: Option<Option<&str>>) -> Option<Option<Seq<char>>> {
    match reason {
        Some(phrase) => Some(text_of(phrase)),
        None => None,
    }
}

impl DispatchTable {
    /// The status of `value`: what the first arm that matches it yields.
    /// `None` where the table does not admit the value.
    pub fn status_of(&self, value: &Value) -> (status: Option<u16>)
        ensures
            status == self@.status_of(value@),
    {
        if value.variant >= self.variant_count() {
            return None;
        }
        let arms = self.status_arms();
        match select(arms, value.variant) {
            Some(k) => {
                let arm = &arms[k];
                match &arm.extraction {
                    Extraction::Literal(name) => match code_by_name(name.as_str()) {
                        Ok(code) => Some(code),
                        Err(_) => None,
                    },
                    Extraction::Bound => match bound(&arm.pattern, value) {
                        Some(FieldValue::Status(code)) => Some(*code),
                        _ => None,
                    },
                    Extraction::StatusReason => None,
                }
            },
            None => None,
        }
    }

    /// The reason of `value`: what the first arm that matches it yields,
    /// which is no reason where the value's status has no canonical one.
    /// `None` where the table does not admit the value.
    pub fn reason_of<'a>(&'a self, value: &'a Value) -> (reason: Option<Option<&'a str>>)
        ensures
            reason_view(reason) == self@.reason_of(value@),
    {
        if value.variant >= self.variant_count() {
            return None;
        }
        let arms = self.reason_arms();
        match select(arms, value.variant) {
            Some(k) => {
                let arm = &arms[k];
                match &arm.extraction {
                    Extraction::Literal(text) => Some(Some(text.as_str())),
                    Extraction::Bound => match bound(&arm.pattern, value) {
                        Some(FieldValue::Text(text)) => Some(Some(text.as_str())),
                        _ => None,
                    },
                    Extraction::StatusReason => match self.status_of(value) {
                        Some(code) => Some(canonical_reason(code)),
                        None => None,
                    },
                }
            },
            None => None,
        }
    }

    /// Whether the table has a status and a reason for `value`.
    pub fn admits(&self, value: &Value) -> (admitted: bool)
        ensures
            admitted == self@.admits(value@),
    {
        self.status_of(value).is_some() && self.reason_of(value).is_some()
    }
}

} // verus!
