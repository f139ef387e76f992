//! The configuration parser: from the raw entries of a variant to the source
//! of its status and the source of its reason.
//!
//! Four keys are known. `status` takes a number or a name of the registry,
//! `reason` a text, `status_field` and `reason_field` a reference to a field
//! of the variant, by position or by name. A text that reads as an unsigned
//! number is taken for the number. Where a variant configures the same
//! function more than once, the last entry counts.

use crate::error::{DeriveError, DeriveErrorView};
use crate::registry::{by_numeric_code, canonical_name, is_registered};
use crate::schema::{ConfigEntry, ConfigEntryView, ConfigValue, ConfigValueView, Variant};
use crate::text::{parse_decimal, parse_unsigned, str_eq};
use vstd::prelude::*;

verus! {

/// One of the two derived functions.
#[derive(Clone, Copy, Debug, PartialEq, Eq, Structural)]
pub enum Target {
    Status,
    Reason,
}

/// Where the result of a derived function comes from, for one variant.
#[derive(Clone, Debug, PartialEq, Eq)]
pub enum ValueSpec {
    /// A fixed value: the name of a status, or the text of a reason.
    Literal(String),
    /// The field at a position, counted from zero.
    PositionalField(u64),
    /// The field of a name.
    NamedField(String),
}

/// What a [`ValueSpec`] holds, as a mathematical value.
pub enum ValueSpecView {
    Literal(Seq<char>),
    PositionalField(u64),
    NamedField(Seq<char>),
}

impl View for ValueSpec {
    type V = ValueSpecView;

    open spec fn view(&self) -> ValueSpecView {
        match self {
            ValueSpec::Literal(text) => ValueSpecView::Literal(text@),
            ValueSpec::PositionalField(index) => ValueSpecView::PositionalField(*index),
            ValueSpec::NamedField(name) => ValueSpecView::NamedField(name@),
        }
    }
}

impl ValueSpec {
    /// A copy of the source.
    pub fn duplicate(&self) -> (copy: ValueSpec)
        ensures
            copy@ == self@,
    {
        match self {
            ValueSpec::Literal(text) => ValueSpec::Literal(text.clone()),
            ValueSpec::PositionalField(index) => ValueSpec::PositionalField(*index),
            ValueSpec::NamedField(name) => ValueSpec::NamedField(name.clone()),
        }
    }
}

/// The view of an optional source.
pub open spec fn source_view(source: Option<ValueSpec>) -> Option<ValueSpecView> {
    match source {
        Some(s) => Some(s@),
        None => None,
    }
}

/// The sources that the configuration of one variant selects.
#[derive(Clone, Debug, PartialEq, Eq)]
pub struct Sources {
    pub status: Option<ValueSpec>,
    pub reason: Option<ValueSpec>,
}

/// What a [`Sources`] holds, as a mathematical value.
pub struct SourcesView {
    pub status: Option<ValueSpecView>,
    pub reason: Option<ValueSpecView>,
}

impl View for Sources {
    type V = SourcesView;

    open spec fn view(&self) -> SourcesView {
        SourcesView { status: source_view(self.status), reason: source_view(self.reason) }
    }
}

impl SourcesView {
    /// The source for `target`.
    pub open spec fn of(self, target: Target) -> Option<ValueSpecView> {
        match target {
            Target::Status => self.status,
            Target::Reason => self.reason,
        }
    }
}

/// The greatest number that a status given as text may denote.
pub const MAX_STATUS_NUMBER: u64 = 65535;

/// The source that names the registered status `code`; a failure where the
/// registry has no such code.
pub open spec fn status_literal(variant: Seq<char>, code: u64) -> Result<
    ValueSpecView,
    DeriveErrorView,
> {
    if code <= MAX_STATUS_NUMBER && is_registered(code as u16) {
        Ok(ValueSpecView::Literal(canonical_name(code as u16)->0))
    } else {
        Err(DeriveErrorView::UnknownStatusCode { variant, code })
    }
}

/// The source that a `status` entry with the given value resolves to.
pub open spec fn status_source(variant: Seq<char>, key: Seq<char>, value: ConfigValueView) -> Result<
    ValueSpecView,
    DeriveErrorView,
> {
    match value {
        ConfigValueView::Int(code) => status_literal(variant, code),
        ConfigValueView::Str(text) => match parse_unsigned(text, MAX_STATUS_NUMBER as nat) {
            Some(code) => status_literal(variant, code as u64),
            None => Ok(ValueSpecView::Literal(text)),
        },
        _ => Err(DeriveErrorView::InvalidAttributeValueType { variant, key }),
    }
}

/// The source that a `status_field` or `reason_field` entry with the given
/// value resolves to. A text is a position where it reads as a number that a
/// `usize` can hold, and a name where it does not.
pub open spec fn field_source(variant: Seq<char>, key: Seq<char>, value: ConfigValueView) -> Result<
    ValueSpecView,
    DeriveErrorView,
> {
    match value {
        ConfigValueView::Int(index) => Ok(ValueSpecView::PositionalField(index)),
        ConfigValueView::Str(text) => match parse_unsigned(text, usize::MAX as nat) {
            Some(index) => Ok(ValueSpecView::PositionalField(index as u64)),
            None => Ok(ValueSpecView::NamedField(text)),
        },
        _ => Err(DeriveErrorView::InvalidAttributeValueType { variant, key }),
    }
}

/// The source that a `reason` entry with the given value resolves to.
pub open spec fn reason_source(variant: Seq<char>, key: Seq<char>, value: ConfigValueView) -> Result<
    ValueSpecView,
    DeriveErrorView,
> {
    match value {
        ConfigValueView::Str(text) => Ok(ValueSpecView::Literal(text)),
        _ => Err(DeriveErrorView::InvalidAttributeValueType { variant, key }),
    }
}

/// The function that an entry with the given key configures, if the key is
/// known.
pub open spec fn key_target(key: Seq<char>) -> Option<Target> {
    if key == "status"@ || key == "status_field"@ {
        Some(Target::Status)
    } else if key == "reason"@ || key == "reason_field"@ {
        Some(Target::Reason)
    } else {
        None
    }
}

/// What one entry of `variant` resolves to: the function it configures and
/// the source it gives, or the failure it causes.
pub open spec fn entry_resolution(variant: Seq<char>, entry: ConfigEntryView) -> Result<
    (Target, ValueSpecView),
    DeriveErrorView,
> {
    let key = entry.key;
    let source = if entry.value is Missing || entry.value is Nested {
        Err(DeriveErrorView::InvalidAttributeShape { variant, key })
    } else if key == "status"@ {
        status_source(variant, key, entry.value)
    } else if key == "status_field"@ || key == "reason_field"@ {
        field_source(variant, key, entry.value)
    } else if key == "reason"@ {
        reason_source(variant, key, entry.value)
    } else {
        Err(DeriveErrorView::UnknownAttributeKey { variant, key })
    };
    match source {
        Ok(s) => Ok((key_target(key)->0, s)),
        Err(e) => Err(e),
    }
}

/// The failure of the first entry that fails, if any does.
pub open spec fn config_error(variant: Seq<char>, entries: Seq<ConfigEntryView>) -> Option<
    DeriveErrorView,
>
    decreases entries.len(),
{
    if entries.len() == 0 {
        None
    } else {
        match config_error(variant, entries.drop_last()) {
            Some(e) => Some(e),
            None => match entry_resolution(variant, entries.last()) {
                Ok(_) => None,
                Err(e) => Some(e),
            },
        }
    }
}

/// The source that the last entry for `target` gives; `None` where no entry
/// configures `target`.
pub open spec fn selected(variant: Seq<char>, entries: Seq<ConfigEntryView>, target: Target) -> Option<
    ValueSpecView,
>
    decreases entries.len(),
{
    if entries.len() == 0 {
        None
    } else {
        match entry_resolution(variant, entries.last()) {
            Ok((t, source)) if t == target => Some(source),
            _ => selected(variant, entries.drop_last(), target),
        }
    }
}

/// The sources that the entries of a variant select, whether or not an entry
/// fails.
pub open spec fn selected_sources(variant: Seq<char>, entries: Seq<ConfigEntryView>) -> SourcesView {
    SourcesView {
        status: selected(variant, entries, Target::Status),
        reason: selected(variant, entries, Target::Reason),
    }
}

/// What the configuration of a variant amounts to: its sources, or the
/// failure of its first failing entry.
pub open spec fn config_sources(variant: Seq<char>, entries: Seq<ConfigEntryView>) -> Result<
    SourcesView,
    DeriveErrorView,
> {
    match config_error(variant, entries) {
        Some(e) => Err(e),
        None => Ok(selected_sources(variant, entries)),
    }
}

/// A failure among the first `n` entries is the failure of all of them.
pub proof fn lemma_config_error_prefix(variant: Seq<char>, entries: Seq<ConfigEntryView>, n: int)
    requires
        0 <= n <= entries.len(),
        config_error(variant, entries.take(n)) is Some,
    ensures
        config_error(variant, entries) == config_error(variant, entries.take(n)),
    decreases entries.len() - n,
{
    if n == entries.len() {
        assert(entries.take(n) =~= entries);
    } else {
        assert(entries.take(n + 1).drop_last() =~= entries.take(n));
        lemma_config_error_prefix(variant, entries, n + 1);
    }
}

/// The source for the registered status `code`.
fn resolve_status_code(variant: &str, code: u64) -> (source: Result<ValueSpec, DeriveError>)
    ensures
        source matches Ok(s) ==> status_literal(variant@, code) == Ok::<_, DeriveErrorView>(s@),
        source matches Err(e) ==> status_literal(variant@, code) == Err::<ValueSpecView, _>(e@),
{
    if code <= MAX_STATUS_NUMBER {
        match by_numeric_code(code as u16) {
            Ok(name) => {
                return Ok(ValueSpec::Literal(name));
            },
            Err(_) => {},
        }
    }
    Err(DeriveError::UnknownStatusCode { variant: variant.to_owned(), code })
}

/// Resolves the value of a `status` entry.
fn resolve_status(variant: &str, key: &str, value: &ConfigValue) -> (source: Result<
    ValueSpec,
    DeriveError,
>)
    ensures
        source matches Ok(s) ==> status_source(variant@, key@, value@) == Ok::<_, DeriveErrorView>(s@),
        source matches Err(e) ==> status_source(variant@, key@, value@) == Err::<ValueSpecView, _>(e@),
{
    match value {
        ConfigValue::Int(code) => resolve_status_code(variant, *code),
        ConfigValue::Str(text) => match parse_decimal(text.as_str(), MAX_STATUS_NUMBER) {
            Some(code) => resolve_status_code(variant, code),
            None => Ok(ValueSpec::Literal(text.clone())),
        },
        _ => Err(
            DeriveError::InvalidAttributeValueType { variant: variant.to_owned(), key: key.to_owned() },
        ),
    }
}

/// Resolves the value of a `status_field` or `reason_field` entry.
fn resolve_field(variant: &str, key: &str, value: &ConfigValue) -> (source: Result<
    ValueSpec,
    DeriveError,
>)
    ensures
        source matches Ok(s) ==> field_source(variant@, key@, value@) == Ok::<_, DeriveErrorView>(s@),
        source matches Err(e) ==> field_source(variant@, key@, value@) == Err::<ValueSpecView, _>(e@),
{
    match value {
        ConfigValue::Int(index) => Ok(ValueSpec::PositionalField(*index)),
        ConfigValue::Str(text) => match parse_decimal(text.as_str(), usize::MAX as u64) {
            Some(index) => Ok(ValueSpec::PositionalField(index)),
            None => Ok(ValueSpec::NamedField(text.clone())),
        },
        _ => Err(
            DeriveError::InvalidAttributeValueType { variant: variant.to_owned(), key: key.to_owned() },
        ),
    }
}

/// Resolves the value of a `reason` entry.
fn resolve_reason(variant: &str, key: &str, value: &ConfigValue) -> (source: Result<
    ValueSpec,
    DeriveError,
>)
    ensures
        source matches Ok(s) ==> reason_source(variant@, key@, value@) == Ok::<_, DeriveErrorView>(s@),
        source matches Err(e) ==> reason_source(variant@, key@, value@) == Err::<ValueSpecView, _>(e@),
{
    match value {
        ConfigValue::Str(text) => Ok(ValueSpec::Literal(text.clone())),
        _ => Err(
            DeriveError::InvalidAttributeValueType { variant: variant.to_owned(), key: key.to_owned() },
        ),
    }
}

/// Resolves one configuration entry of the variant called `variant`.
pub fn resolve_entry(variant: &str, entry: &ConfigEntry) -> (resolved: Result<
    (Target, ValueSpec),
    DeriveError,
>)
    ensures
        resolved matches Ok((t, s)) ==> entry_resolution(variant@, entry@) == Ok::<
            _,
            DeriveErrorView,
        >((t, s@)),
        resolved matches Err(e) ==> entry_resolution(variant@, entry@) == Err::<
            (Target, ValueSpecView),
            _,
        >(e@),
{
    let key = entry.key.as_str();
    match entry.value {
        ConfigValue::Missing | ConfigValue::Nested => {
            return Err(
                DeriveError::InvalidAttributeShape {
                    variant: variant.to_owned(),
                    key: key.to_owned(),
                },
            );
        },
        _ => {},
    }
    if str_eq(key, "status") {
        match resolve_status(variant, key, &entry.value) {
            Ok(s) => Ok((Target::Status, s)),
            Err(e) => Err(e),
        }
    } else if str_eq(key, "status_field") {
        match resolve_field(variant, key, &entry.value) {
            Ok(s) => Ok((Target::Status, s)),
            Err(e) => Err(e),
        }
    } else if str_eq(key, "reason_field") {
        match resolve_field(variant, key, &entry.value) {
            Ok(s) => Ok((Target::Reason, s)),
            Err(e) => Err(e),
        }
    } else if str_eq(key, "reason") {
        match resolve_reason(variant, key, &entry.value) {
            Ok(s) => Ok((Target::Reason, s)),
            Err(e) => Err(e),
        }
    } else {
        Err(DeriveError::UnknownAttributeKey { variant: variant.to_owned(), key: key.to_owned() })
    }
}

/// Resolves the configuration of `variant`: the source of its status and the
/// source of its reason, each given by the last entry that configures it, or
/// the failure of the first entry that fails.
pub fn parse_config(variant: &Variant) -> (parsed: Result<Sources, DeriveError>)
    ensures
        parsed matches Ok(sources) ==> config_sources(variant@.name, variant@.config) == Ok::<
            _,
            DeriveErrorView,
        >(sources@),
        parsed matches Err(e) ==> config_sources(variant@.name, variant@.config) == Err::<
            SourcesView,
            _,
        >(e@),
{
    let name = variant.name.as_str();
    let ghost entries = variant@.config;
    let mut sources = Sources { status: None, reason: None };
    let mut i: usize = 0;
    while i < variant.config.len()
        invariant
            i <= variant.config.len(),
            name@ == variant@.name,
            entries == variant@.config,
            entries.len() == variant.config.len(),
            config_error(name@, entries.take(i as int)) is None,
            sources@ == selected_sources(name@, entries.take(i as int)),
        decreases variant.config.len() - i,
    {
        proof {
            assert(entries.take(i + 1).drop_last() =~= entries.take(i as int));
            assert(entries.take(i + 1).last() == variant.config@[i as int]@);
        }
        match resolve_entry(name, &variant.config[i]) {
            Ok((Target::Status, source)) => {
                sources.status = Some(source);
            },
            Ok((Target::Reason, source)) => {
                sources.reason = Some(source);
            },
            Err(e) => {
                proof {
                    lemma_config_error_prefix(name@, entries, i + 1);
                }
                return Err(e);
            },
        }
        i += 1;
    }
    proof {
        assert(entries.take(i as int) =~= entries);
    }
    Ok(sources)
}

} // verus!
