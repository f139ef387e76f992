//! The derivation: configuration parser, validator and dispatch builder, one
//! after the other.
//!
//! Nothing is built from a declaration that is at fault anywhere. The
//! configuration of every variant is resolved first, then every source is
//! checked against its variant, then the arms are built; the first failure
//! met on the way ends the derivation.

use crate::config::{
    config_error, parse_config, selected, selected_sources, Sources, SourcesView, Target,
    ValueSpecView,
};
use crate::dispatch::{
    source_views, table_of, validated, variant_views, DispatchTable, DispatchTableView,
};
use crate::error::{DeriveError, DeriveErrorView};
use crate::schema::{Schema, SchemaView, TypeBody, TypeBodyView, Variant, VariantView};
use crate::validate::{sources_error, validate};
use vstd::prelude::*;

verus! {

/// The source that the configuration of `variant` selects for `target`.
pub open spec fn source_of(variant: VariantView, target: Target) -> Option<ValueSpecView> {
    selected(variant.name, variant.config, target)
}

/// The sources that the configurations of `variants` select, place for place.
pub open spec fn selected_all(variants: Seq<VariantView>) -> Seq<SourcesView> {
    Seq::new(variants.len(), |i: int| selected_sources(variants[i].name, variants[i].config))
}

/// The failure of the first variant whose configuration fails, if any does.
pub open spec fn parse_error(variants: Seq<VariantView>) -> Option<DeriveErrorView>
    decreases variants.len(),
{
    if variants.len() == 0 {
        None
    } else {
        match parse_error(variants.drop_last()) {
            Some(e) => Some(e),
            None => config_error(variants.last().name, variants.last().config),
        }
    }
}

/// What is wrong with the sources that `variant` selects; `None` where
/// nothing is.
pub open spec fn variant_error(variant: VariantView) -> Option<DeriveErrorView> {
    sources_error(variant, selected_sources(variant.name, variant.config))
}

/// The failure of the first variant that cannot serve its sources, if any
/// cannot.
pub open spec fn validation_error(variants: Seq<VariantView>) -> Option<DeriveErrorView>
    decreases variants.len(),
{
    if variants.len() == 0 {
        None
    } else {
        match validation_error(variants.drop_last()) {
            Some(e) => Some(e),
            None => variant_error(variants.last()),
        }
    }
}

/// What the derivation for `schema` yields: the dispatch table of a sum type
/// whose configuration resolves and whose sources its variants can serve, and
/// else the first failure, looked for in this order: the kind of the type, the
/// configuration of each variant in turn, the sources of each variant in turn.
pub open spec fn derivation(schema: SchemaView) -> Result<DispatchTableView, DeriveErrorView> {
    match schema.body {
        TypeBodyView::Other => Err(DeriveErrorView::NotASumType { type_ident: schema.name }),
        TypeBodyView::Sum(variants) => match parse_error(variants) {
            Some(e) => Err(e),
            None => match validation_error(variants) {
                Some(e) => Err(e),
                None => Ok(table_of(variants, selected_all(variants))),
            },
        },
    }
}

/// A failure among the first `n` variants is the failure of all of them.
pub proof fn lemma_parse_error_prefix(variants: Seq<VariantView>, n: int)
    requires
        0 <= n <= variants.len(),
        parse_error(variants.take(n)) is Some,
    ensures
        parse_error(variants) == parse_error(variants.take(n)),
    decreases variants.len() - n,
{
    if n == variants.len() {
        assert(variants.take(n) =~= variants);
    } else {
        assert(variants.take(n + 1).drop_last() =~= variants.take(n));
        lemma_parse_error_prefix(variants, n + 1);
    }
}

/// A failure among the first `n` variants is the failure of all of them.
pub proof fn lemma_validation_error_prefix(variants: Seq<VariantView>, n: int)
    requires
        0 <= n <= variants.len(),
        validation_error(variants.take(n)) is Some,
    ensures
        validation_error(variants) == validation_error(variants.take(n)),
    decreases variants.len() - n,
{
    if n == variants.len() {
        assert(variants.take(n) =~= variants);
    } else {
        assert(variants.take(n + 1).drop_last() =~= variants.take(n));
        lemma_validation_error_prefix(variants, n + 1);
    }
}

/// Where no variant fails, none of them does: each configuration resolves,
/// and each variant can serve its sources.
pub proof fn lemma_no_error(variants: Seq<VariantView>)
    ensures
        parse_error(variants) is None ==> forall|i: int|
            0 <= i < variants.len() ==> config_error(
                (#[trigger] variants[i]).name,
                variants[i].config,
            ) is None,
        validation_error(variants) is None ==> forall|i: int|
            0 <= i < variants.len() ==> variant_error(#[trigger] variants[i]) is None,
    decreases variants.len(),
{
    if variants.len() > 0 {
        let front = variants.drop_last();
        lemma_no_error(front);
        assert(forall|i: int| 0 <= i < front.len() ==> front[i] == variants[i]);
    }
}

/// Resolves the configuration of every variant, in declaration order.
fn parse_all(variants: &Vec<Variant>) -> (parsed: Result<Vec<Sources>, DeriveError>)
    ensures
        match parsed {
            Ok(sources) => {
                &&& parse_error(variant_views(variants@)) is None
                &&& sources@.len() == variants@.len()
                &&& forall|i: int|
                    0 <= i < variants@.len() ==> (#[trigger] sources@[i])@ == selected_sources(
                        variants@[i]@.name,
                        variants@[i]@.config,
                    )
            },
            Err(e) => parse_error(variant_views(variants@)) == Some(e@),
        },
{
    let ghost views = variant_views(variants@);
    let mut sources: Vec<Sources> = Vec::new();
    let mut i: usize = 0;
    while i < variants.len()
        invariant
            i <= variants.len(),
            views == variant_views(variants@),
            parse_error(views.take(i as int)) is None,
            sources@.len() == i,
            forall|j: int|
                0 <= j < i ==> (#[trigger] sources@[j])@ == selected_sources(
                    variants@[j]@.name,
                    variants@[j]@.config,
                ),
        decreases variants.len() - i,
    {
        proof {
            assert(views.take(i + 1).drop_last() =~= views.take(i as int));
            assert(views.take(i + 1).last() == variants@[i as int]@);
        }
        match parse_config(&variants[i]) {
            Ok(s) => {
                sources.push(s);
            },
            Err(e) => {
                proof {
                    lemma_parse_error_prefix(views, i + 1);
                }
                return Err(e);
            },
        }
        i += 1;
    }
    proof {
        assert(views.take(i as int) =~= views);
    }
    Ok(sources)
}

/// Checks the sources of every variant, in declaration order.
fn validate_all(variants: &Vec<Variant>, sources: &Vec<Sources>) -> (checked: Result<
    (),
    DeriveError,
>)
    requires
        sources@.len() == variants@.len(),
        forall|i: int|
            0 <= i < variants@.len() ==> (#[trigger] sources@[i])@ == selected_sources(
                variants@[i]@.name,
                variants@[i]@.config,
            ),
    ensures
        match checked {
            Ok(()) => validation_error(variant_views(variants@)) is None && validated(
                variants@,
                sources@,
            ),
            Err(e) => validation_error(variant_views(variants@)) == Some(e@),
        },
{
    let ghost views = variant_views(variants@);
    let mut i: usize = 0;
    while i < variants.len()
        invariant
            i <= variants.len(),
            views == variant_views(variants@),
            sources@.len() == variants@.len(),
            forall|j: int|
                0 <= j < variants@.len() ==> (#[trigger] sources@[j])@ == selected_sources(
                    variants@[j]@.name,
                    variants@[j]@.config,
                ),
            validation_error(views.take(i as int)) is None,
            forall|j: int| 0 <= j < i ==> sources_error(variants@[j]@, (#[trigger] sources@[j])@) is None,
        decreases variants.len() - i,
    {
        proof {
            assert(views.take(i + 1).drop_last() =~= views.take(i as int));
            assert(views.take(i + 1).last() == variants@[i as int]@);
        }
        match validate(&variants[i], &sources[i]) {
            Ok(()) => {},
            Err(e) => {
                proof {
                    lemma_validation_error_prefix(views, i + 1);
                }
                return Err(e);
            },
        }
        i += 1;
    }
    proof {
        assert(views.take(i as int) =~= views);
    }
    Ok(())
}

/// Derives the dispatch table of the type that `schema` declares.
///
/// The result is exactly what [`derivation`] says of the schema: the table, or
/// the first failure. A table that comes back is well formed.
pub fn derive(schema: &Schema) -> (derived: Result<DispatchTable, DeriveError>)
    ensures
        match derived {
            Ok(table) => derivation(schema@) == Ok::<_, DeriveErrorView>(table@) && table@.wf(),
            Err(e) => derivation(schema@) == Err::<DispatchTableView, _>(e@),
        },
{
    let variants = match &schema.body {
        TypeBody::Sum(variants) => variants,
        TypeBody::Other => {
            return Err(DeriveError::NotASumType { type_ident: schema.name.clone() });
        },
    };
    let sources = match parse_all(variants) {
        Ok(sources) => sources,
        Err(e) => {
            return Err(e);
        },
    };
    match validate_all(variants, &sources) {
        Ok(()) => {},
        Err(e) => {
            return Err(e);
        },
    }
    proof {
        assert(source_views(sources@) =~= selected_all(variant_views(variants@)));
    }
    Ok(DispatchTable::build(variants, &sources))
}

} // verus!
