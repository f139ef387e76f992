//! The dispatch builder: from validated sources to two ordered lists of arms.
//!
//! For each of the two functions the variants are walked in declaration order.
//! A variant with a source for the function gets one arm; a variant without
//! gets none. Where at least one variant got none, a single default arm is
//! appended that matches whatever is left: for the status it yields
//! `InternalServerError`, for the reason the canonical reason of the value's
//! status.

use crate::config::{Sources, SourcesView, Target, ValueSpec, ValueSpecView};
use crate::registry::{
    canonical_name, code_of_name, lemma_name_round_trip, status_from_u16, INTERNAL_SERVER_ERROR,
};
use crate::schema::{ShapeKind, Variant, VariantView};
use crate::validate::{optional_source_error, source_error, sources_error};
use vstd::prelude::*;

verus! {

/// What an arm matches, and which field of the matched value it binds.
#[derive(Clone, Debug, PartialEq, Eq)]
pub enum Pattern {
    /// Every value of one variant, none of its fields bound. Written
    /// `Type::Variant`, `Type::Variant(..)` or `Type::Variant { .. }`, by the
    /// shape of the variant.
    Whole { variant: usize, name: String, shape: ShapeKind },
    /// Every value of one variant with positional fields, the field at
    /// `index` bound: `Type::Variant(_, bound, _)`.
    Positional { variant: usize, name: String, arity: usize, index: usize },
    /// Every value of one variant with named fields, the field called `field`
    /// bound: `Type::Variant { field, .. }`. `position` is the place of that
    /// field in the declaration.
    Named { variant: usize, name: String, field: String, position: usize },
    /// Every value: `_`.
    Wildcard,
}

/// What a [`Pattern`] holds, as a mathematical value.
pub enum PatternView {
    Whole { variant: nat, name: Seq<char>, shape: ShapeKind },
    Positional { variant: nat, name: Seq<char>, arity: nat, index: nat },
    Named { variant: nat, name: Seq<char>, field: Seq<char>, position: nat },
    Wildcard,
}

impl View for Pattern {
    type V = PatternView;

    open spec fn view(&self) -> PatternView {
        match self {
            Pattern::Whole { variant, name, shape } => PatternView::Whole {
                variant: *variant as nat,
                name: name@,
                shape: *shape,
            },
            Pattern::Positional { variant, name, arity, index } => PatternView::Positional {
                variant: *variant as nat,
                name: name@,
                arity: *arity as nat,
                index: *index as nat,
            },
            Pattern::Named { variant, name, field, position } => PatternView::Named {
                variant: *variant as nat,
                name: name@,
                field: field@,
                position: *position as nat,
            },
            Pattern::Wildcard => PatternView::Wildcard,
        }
    }
}

impl PatternView {
    /// The variant that the pattern belongs to: its place in the declaration.
    /// `None` for the wildcard.
    pub open spec fn variant(self) -> Option<nat> {
        match self {
            PatternView::Whole { variant, .. } => Some(variant),
            PatternView::Positional { variant, .. } => Some(variant),
            PatternView::Named { variant, .. } => Some(variant),
            PatternView::Wildcard => None,
        }
    }

    /// Whether the pattern matches the values of the variant at place
    /// `variant`.
    pub open spec fn matches(self, variant: nat) -> bool {
        self.variant() is None || self.variant() == Some(variant)
    }
}

impl Pattern {
    /// The variant that the pattern belongs to; `None` for the wildcard.
    pub fn variant(&self) -> (variant: Option<usize>)
        ensures
            match variant {
                Some(v) => self@.variant() == Some(v as nat),
                None => self@.variant() is None,
            },
    {
        match self {
            Pattern::Whole { variant, .. } => Some(*variant),
            Pattern::Positional { variant, .. } => Some(*variant),
            Pattern::Named { variant, .. } => Some(*variant),
            Pattern::Wildcard => None,
        }
    }
}

/// What an arm yields for a value that it matches.
#[derive(Clone, Debug, PartialEq, Eq)]
pub enum Extraction {
    /// A fixed value: the name of a status, or the text of a reason.
    Literal(String),
    /// The field that the pattern binds: by value for a status, as a view of
    /// its text for a reason.
    Bound,
    /// The canonical reason of the status that the value has.
    StatusReason,
}

/// What an [`Extraction`] holds, as a mathematical value.
pub enum ExtractionView {
    Literal(Seq<char>),
    Bound,
    StatusReason,
}

impl View for Extraction {
    type V = ExtractionView;

    open spec fn view(&self) -> ExtractionView {
        match self {
            Extraction::Literal(text) => ExtractionView::Literal(text@),
            Extraction::Bound => ExtractionView::Bound,
            Extraction::StatusReason => ExtractionView::StatusReason,
        }
    }
}

/// One arm of a dispatch: a pattern and what is yielded where it matches.
#[derive(Clone, Debug, PartialEq, Eq)]
pub struct Arm {
    pub pattern: Pattern,
    pub extraction: Extraction,
}

/// What an [`Arm`] holds, as a mathematical value.
pub struct ArmView {
    pub pattern: PatternView,
    pub extraction: ExtractionView,
}

impl View for Arm {
    type V = ArmView;

    open spec fn view(&self) -> ArmView {
        ArmView { pattern: self.pattern@, extraction: self.extraction@ }
    }
}

/// The views of a list of arms.
pub open spec fn arm_views(arms: Seq<Arm>) -> Seq<ArmView> {
    arms.map_values(|a: Arm| a@)
}

/// The views of a list of variants.
pub open spec fn variant_views(variants: Seq<Variant>) -> Seq<VariantView> {
    variants.map_values(|v: Variant| v@)
}

/// The views of a list of sources.
pub open spec fn source_views(sources: Seq<Sources>) -> Seq<SourcesView> {
    sources.map_values(|s: Sources| s@)
}

/// The pattern that matches every value of `variant`, the variant at place
/// `index`, and binds nothing.
pub open spec fn whole_pattern(index: nat, variant: VariantView) -> PatternView {
    PatternView::Whole { variant: index, name: variant.name, shape: variant.shape.kind() }
}

/// The arm of `variant`, the variant at place `index`, for a source that the
/// variant can serve.
pub open spec fn arm_of(index: nat, variant: VariantView, source: ValueSpecView) -> ArmView {
    match source {
        ValueSpecView::Literal(text) => ArmView {
            pattern: whole_pattern(index, variant),
            extraction: ExtractionView::Literal(text),
        },
        ValueSpecView::PositionalField(field) => ArmView {
            pattern: PatternView::Positional {
                variant: index,
                name: variant.name,
                arity: variant.shape.field_count(),
                index: field as nat,
            },
            extraction: ExtractionView::Bound,
        },
        ValueSpecView::NamedField(field) => ArmView {
            pattern: PatternView::Named {
                variant: index,
                name: variant.name,
                field,
                position: variant.shape.position_of(field)->0,
            },
            extraction: ExtractionView::Bound,
        },
    }
}

/// The name of the status that a value has when its variant configures none.
pub open spec fn default_status_name() -> Seq<char> {
    canonical_name(INTERNAL_SERVER_ERROR)->0
}

/// The arm that stands for every variant without a source for `target`.
pub open spec fn default_arm(target: Target) -> ArmView {
    ArmView {
        pattern: PatternView::Wildcard,
        extraction: match target {
            Target::Status => ExtractionView::Literal(default_status_name()),
            Target::Reason => ExtractionView::StatusReason,
        },
    }
}

/// The arms of the first `n` variants for `target`, in declaration order: one
/// for each variant that has a source for it. `sources` holds the sources of
/// the variants, place for place.
pub open spec fn explicit_arms(
    variants: Seq<VariantView>,
    sources: Seq<SourcesView>,
    target: Target,
    n: nat,
) -> Seq<ArmView>
    decreases n,
{
    if n == 0 {
        Seq::empty()
    } else {
        let before = explicit_arms(variants, sources, target, (n - 1) as nat);
        match sources[n - 1].of(target) {
            Some(source) => before.push(arm_of((n - 1) as nat, variants[n - 1], source)),
            None => before,
        }
    }
}

/// The whole list of arms for `target`: the arms of the variants, and the
/// default arm last where some variant has none.
pub open spec fn arms_of(variants: Seq<VariantView>, sources: Seq<SourcesView>, target: Target) -> Seq<
    ArmView,
> {
    let explicit = explicit_arms(variants, sources, target, variants.len());
    if explicit.len() < variants.len() {
        explicit.push(default_arm(target))
    } else {
        explicit
    }
}

/// The pattern that matches every value of `variant`, the variant at place
/// `index`, and binds none of its fields.
pub fn variant_pattern(index: usize, variant: &Variant) -> (pattern: Pattern)
    ensures
        pattern@ == whole_pattern(index as nat, variant@),
{
    Pattern::Whole { variant: index, name: variant.name.clone(), shape: variant.shape.kind() }
}

/// The arm of `variant`, the variant at place `index`, for `source`.
pub fn build_arm(index: usize, variant: &Variant, target: Target, source: &ValueSpec) -> (arm: Arm)
    requires
        source_error(variant@, target, source@) is None,
    ensures
        arm@ == arm_of(index as nat, variant@, source@),
{
    match source {
        ValueSpec::Literal(text) => Arm {
            pattern: variant_pattern(index, variant),
            extraction: Extraction::Literal(text.clone()),
        },
        ValueSpec::PositionalField(field) => Arm {
            pattern: Pattern::Positional {
                variant: index,
                name: variant.name.clone(),
                arity: variant.shape.field_count(),
                index: *field as usize,
            },
            extraction: Extraction::Bound,
        },
        ValueSpec::NamedField(field) => {
            let position: usize = match variant.shape.position_of(field.as_str()) {
                Some(p) => p,
                None => 0,
            };
            Arm {
                pattern: Pattern::Named {
                    variant: index,
                    name: variant.name.clone(),
                    field: field.clone(),
                    position,
                },
                extraction: Extraction::Bound,
            }
        },
    }
}

/// The arm that stands for every variant without a source for `target`.
pub fn build_default_arm(target: Target) -> (arm: Arm)
    ensures
        arm@ == default_arm(target),
{
    Arm {
        pattern: Pattern::Wildcard,
        extraction: match target {
            Target::Status => Extraction::Literal(status_from_u16(INTERNAL_SERVER_ERROR)),
            Target::Reason => Extraction::StatusReason,
        },
    }
}

/// Whether `sources` holds sources for each of `variants`, place for place,
/// and every variant can serve its own.
pub open spec fn validated(variants: Seq<Variant>, sources: Seq<Sources>) -> bool {
    &&& sources.len() == variants.len()
    &&& forall|i: int|
        0 <= i < variants.len() ==> sources_error(variants[i]@, (#[trigger] sources[i])@) is None
}

/// Sources that every variant can serve are sources that it can serve for
/// each of the two functions.
pub proof fn lemma_validated(variants: Seq<Variant>, sources: Seq<Sources>)
    requires
        validated(variants, sources),
    ensures
        valid_sources(variant_views(variants), source_views(sources), Target::Status),
        valid_sources(variant_views(variants), source_views(sources), Target::Reason),
{
    let views = variant_views(variants);
    let given = source_views(sources);
    assert forall|i: int| 0 <= i < views.len() implies valid_source(views, given, Target::Status, i)
        && valid_source(views, given, Target::Reason, i) by {
        assert(sources_error(variants[i]@, sources[i]@) is None);
    }
}

/// Builds the list of arms for `target` from the sources of the variants,
/// which `sources` holds place for place.
pub fn build_arms(variants: &Vec<Variant>, sources: &Vec<Sources>, target: Target) -> (arms: Vec<Arm>)
    requires
        validated(variants@, sources@),
    ensures
        arm_views(arms@) == arms_of(variant_views(variants@), source_views(sources@), target),
{
    let ghost views = variant_views(variants@);
    let ghost given = source_views(sources@);
    let mut arms: Vec<Arm> = Vec::new();
    let mut i: usize = 0;
    while i < variants.len()
        invariant
            i <= variants.len(),
            validated(variants@, sources@),
            views == variant_views(variants@),
            given == source_views(sources@),
            arm_views(arms@) == explicit_arms(views, given, target, i as nat),
        decreases variants.len() - i,
    {
        let ghost before = arm_views(arms@);
        let source = match target {
            Target::Status => &sources[i].status,
            Target::Reason => &sources[i].reason,
        };
        match source {
            Some(s) => {
                let arm = build_arm(i, &variants[i], target, s);
                arms.push(arm);
                assert(arm_views(arms@) =~= before.push(arm@));
            },
            None => {},
        }
        i += 1;
    }
    if arms.len() < variants.len() {
        let ghost before = arm_views(arms@);
        let arm = build_default_arm(target);
        arms.push(arm);
        assert(arm_views(arms@) =~= before.push(arm@));
    }
    arms
}

/// Whether `arm` may stand in a list of arms for `target`: a pattern that
/// binds a field goes with the bound field, one that binds none with a fixed
/// value, the wildcard with the default of `target`; and a fixed status is a
/// name of the registry.
pub open spec fn arm_wf(arm: ArmView, target: Target) -> bool {
    match arm.pattern {
        PatternView::Whole { .. } => arm.extraction matches ExtractionView::Literal(text) && (target
            == Target::Status ==> code_of_name(text) is Some),
        PatternView::Positional { arity, index, .. } => arm.extraction is Bound && index < arity,
        PatternView::Named { .. } => arm.extraction is Bound,
        PatternView::Wildcard => arm == default_arm(target),
    }
}

/// The number of arms before the default arm: all of them where there is
/// none.
pub open spec fn explicit_count(arms: Seq<ArmView>) -> nat {
    if arms.len() > 0 && arms.last().pattern is Wildcard {
        (arms.len() - 1) as nat
    } else {
        arms.len()
    }
}

/// Whether `arms` is a list of arms for `target` over a type of `count`
/// variants: every arm is well formed; only the last may be the default arm; the
/// others belong to variants of the type, in declaration order and each to
/// another; and the default arm is there exactly if some variant has no arm.
pub open spec fn arms_wf(arms: Seq<ArmView>, target: Target, count: nat) -> bool {
    let explicit = explicit_count(arms);
    &&& forall|k: int| 0 <= k < arms.len() ==> arm_wf(#[trigger] arms[k], target)
    &&& forall|k: int|
        0 <= k < explicit ==> (#[trigger] arms[k]).pattern.variant() is Some
            && arms[k].pattern.variant()->0 < count
    &&& forall|j: int, k: int|
        0 <= j < k < explicit ==> (#[trigger] arms[j]).pattern.variant()->0 < (
        #[trigger] arms[k]).pattern.variant()->0
    &&& if explicit < arms.len() {
        explicit < count
    } else {
        explicit == count
    }
}

/// Whether the source that the variant at place `i` has for `target`, if it
/// has one, is one that the variant can serve.
pub open spec fn valid_source(
    variants: Seq<VariantView>,
    sources: Seq<SourcesView>,
    target: Target,
    i: int,
) -> bool {
    optional_source_error(variants[i], target, sources[i].of(target)) is None
}

/// Whether `sources` holds sources for each of `variants`, place for place,
/// and every variant can serve the source it has for `target`.
pub open spec fn valid_sources(
    variants: Seq<VariantView>,
    sources: Seq<SourcesView>,
    target: Target,
) -> bool {
    &&& sources.len() == variants.len()
    &&& forall|i: int| 0 <= i < variants.len() ==> valid_source(variants, sources, target, i)
}

/// The arms of the first `n` variants continue the arms of the first `m`:
/// they begin with them, and go on with at most one arm for each variant
/// from place `m` on, in declaration order.
pub proof fn lemma_explicit_arms(
    variants: Seq<VariantView>,
    sources: Seq<SourcesView>,
    target: Target,
    m: nat,
    n: nat,
)
    requires
        m <= n <= variants.len(),
        valid_sources(variants, sources, target),
    ensures
        ({
            let before = explicit_arms(variants, sources, target, m);
            let arms = explicit_arms(variants, sources, target, n);
            &&& before.len() <= arms.len() <= before.len() + (n - m)
            &&& forall|k: int| 0 <= k < before.len() ==> arms[k] == before[k]
            &&& forall|k: int|
                before.len() <= k < arms.len() ==> {
                    &&& arm_wf(#[trigger] arms[k], target)
                    &&& arms[k].pattern.variant() is Some
                    &&& m <= arms[k].pattern.variant()->0 < n
                }
            &&& forall|j: int, k: int|
                before.len() <= j < k < arms.len() ==> (#[trigger] arms[j]).pattern.variant()->0 < (
                #[trigger] arms[k]).pattern.variant()->0
        }),
    decreases n - m,
{
    if m < n {
        lemma_explicit_arms(variants, sources, target, m, (n - 1) as nat);
        assert(valid_source(variants, sources, target, n - 1));
    }
}

/// Where the variant at place `i` has a source for `target`, its arm stands
/// right after the arms of the variants before it.
pub proof fn lemma_arm_position(
    variants: Seq<VariantView>,
    sources: Seq<SourcesView>,
    target: Target,
    i: nat,
)
    requires
        i < variants.len(),
        valid_sources(variants, sources, target),
        sources[i as int].of(target) is Some,
    ensures
        ({
            let arms = explicit_arms(variants, sources, target, variants.len());
            let position = explicit_arms(variants, sources, target, i).len();
            &&& position < arms.len()
            &&& arms[position as int] == arm_of(
                i,
                variants[i as int],
                sources[i as int].of(target)->0,
            )
        }),
{
    lemma_explicit_arms(variants, sources, target, i, i + 1);
    lemma_explicit_arms(variants, sources, target, i + 1, variants.len());
}

/// The list of arms built from variants that can serve their sources is well
/// formed.
pub proof fn lemma_arms_of_wf(
    variants: Seq<VariantView>,
    sources: Seq<SourcesView>,
    target: Target,
)
    requires
        valid_sources(variants, sources, target),
    ensures
        arms_wf(arms_of(variants, sources, target), target, variants.len()),
{
    lemma_explicit_arms(variants, sources, target, 0, variants.len());
    if target == Target::Status {
        lemma_name_round_trip(INTERNAL_SERVER_ERROR);
    }
}

/// The two lists of arms derived for a type.
#[derive(Debug, PartialEq, Eq)]
pub struct DispatchTable {
    status_arms: Vec<Arm>,
    reason_arms: Vec<Arm>,
    variant_count: usize,
}

/// What a [`DispatchTable`] holds, as a mathematical value.
pub struct DispatchTableView {
    /// The arms that yield the status of a value, first match first.
    pub status_arms: Seq<ArmView>,
    /// The arms that yield the reason of a value, first match first.
    pub reason_arms: Seq<ArmView>,
    /// The number of variants of the type.
    pub variant_count: nat,
}

impl DispatchTableView {
    /// Whether both lists of arms are well formed.
    pub open spec fn wf(self) -> bool {
        &&& arms_wf(self.status_arms, Target::Status, self.variant_count)
        &&& arms_wf(self.reason_arms, Target::Reason, self.variant_count)
    }
}

/// The table built for `variants` from `sources`, which holds the sources of
/// the variants, place for place.
pub open spec fn table_of(variants: Seq<VariantView>, sources: Seq<SourcesView>) -> DispatchTableView {
    DispatchTableView {
        status_arms: arms_of(variants, sources, Target::Status),
        reason_arms: arms_of(variants, sources, Target::Reason),
        variant_count: variants.len(),
    }
}

impl View for DispatchTable {
    type V = DispatchTableView;

    closed spec fn view(&self) -> DispatchTableView {
        DispatchTableView {
            status_arms: arm_views(self.status_arms@),
            reason_arms: arm_views(self.reason_arms@),
            variant_count: self.variant_count as nat,
        }
    }
}

impl DispatchTable {
    #[verifier::type_invariant]
    pub(crate) closed spec fn well_formed(&self) -> bool {
        self@.wf()
    }

    /// Builds the table for `variants` from their validated sources.
    pub fn build(variants: &Vec<Variant>, sources: &Vec<Sources>) -> (table: DispatchTable)
        requires
            validated(variants@, sources@),
        ensures
            table@ == table_of(variant_views(variants@), source_views(sources@)),
            table@.wf(),
    {
        let status_arms = build_arms(variants, sources, Target::Status);
        let reason_arms = build_arms(variants, sources, Target::Reason);
        proof {
            lemma_validated(variants@, sources@);
            lemma_arms_of_wf(variant_views(variants@), source_views(sources@), Target::Status);
            lemma_arms_of_wf(variant_views(variants@), source_views(sources@), Target::Reason);
        }
        DispatchTable { status_arms, reason_arms, variant_count: variants.len() }
    }

    /// The arms that yield the status of a value, first match first. They
    /// are well formed, as are the arms of every table.
    pub fn status_arms(&self) -> (arms: &Vec<Arm>)
        ensures
            arm_views(arms@) == self@.status_arms,
            self@.wf(),
    {
        proof {
            use_type_invariant(self);
        }
        &self.status_arms
    }

    /// The arms that yield the reason of a value, first match first. They
    /// are well formed, as are the arms of every table.
    pub fn reason_arms(&self) -> (arms: &Vec<Arm>)
        ensures
            arm_views(arms@) == self@.reason_arms,
            self@.wf(),
    {
        proof {
            use_type_invariant(self);
        }
        &self.reason_arms
    }

    /// The number of variants of the type that the table was derived for.
    pub fn variant_count(&self) -> (count: usize)
        ensures
            count == self@.variant_count,
            self@.wf(),
    {
        proof {
            use_type_invariant(self);
        }
        self.variant_count
    }
}

} // verus!
