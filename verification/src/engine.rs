//! The orchestrator: discover the project root from the build context's
//! hint, obtain the component's override sub-table from the override file's
//! text, enforce strict mode, and resolve every declared field.

use vstd::prelude::*;
use vstd::string::StringExecFns;

use crate::overrides::{assoc_lookup, parse_override_text, parsed_overrides};
use crate::paths::{resolve_root, root_of, seg_views};
use crate::resolve::{LoadOutcomeV, ResolveError, ResolveErrorV, SourceMiss, resolve_fields_spec,
    resolve_schema};
use crate::schema::{ResolvedConfig, ResolvedEntryV, SchemaField, SchemaFieldV, field_views};

verus! {

/// The build context, passed explicitly: the build output hint that root
/// discovery starts from, the identity of the component being built, and
/// the strict-mode toggle.
#[derive(Debug)]
pub struct BuildContext {
    pub out_dir_hint: Option<Vec<String>>,
    pub component_id: String,
    pub strict: bool,
}

/// The reserved name of the build layout's output directory: root discovery
/// walks up to it and takes its parent as the project root.
pub open spec fn sentinel_name() -> Seq<char> {
    "target"@
}

/// The sentinel as a string value.
pub fn sentinel_string() -> (r: String)
    ensures
        r@ == sentinel_name(),
{
    String::from_str("target")
}

/// The views of an optional hint path.
pub open spec fn hint_views(hint: Option<Vec<String>>) -> Option<Seq<Seq<char>>> {
    match hint {
        None => None,
        Some(h) => Some(seg_views(h@)),
    }
}

/// The view of optional override-file text.
pub open spec fn text_view(contents: Option<&String>) -> Option<Seq<char>> {
    match contents {
        None => None,
        Some(s) => Some(s@),
    }
}

/// How the override source turns out for a component: an absent hint or one
/// without the sentinel yields no root; with a root, absent text means the
/// file could not be read; text that does not parse is malformed; a parsed
/// table without the component's key lacks the component. Otherwise the
/// component's sub-table is the source.
pub open spec fn source_outcome(
    hint: Option<Seq<Seq<char>>>,
    contents: Option<Seq<char>>,
    id: Seq<char>,
) -> LoadOutcomeV {
    let root = match hint {
        None => None,
        Some(h) => root_of(h, sentinel_name()),
    };
    match root {
        None => LoadOutcomeV::Miss(SourceMiss::RootNotFound),
        Some(_) => match contents {
            None => LoadOutcomeV::Miss(SourceMiss::FileUnavailable),
            Some(text) => match parsed_overrides(text) {
                None => LoadOutcomeV::Miss(SourceMiss::Malformed),
                Some(table) => match assoc_lookup(table, id) {
                    None => LoadOutcomeV::Miss(SourceMiss::ComponentAbsent),
                    Some(c) => LoadOutcomeV::Found(c),
                },
            },
        },
    }
}

/// The engine's verdict over an obtained (or missed) source: a miss under
/// strict mode is fatal with its cause, whatever the schema holds; a miss
/// otherwise resolves every field to its default; a found sub-table
/// resolves every field against it.
pub open spec fn engine_result(
    fields: Seq<SchemaFieldV>,
    outcome: LoadOutcomeV,
    strict: bool,
) -> Result<Seq<ResolvedEntryV>, ResolveErrorV> {
    match outcome {
        LoadOutcomeV::Found(c) => resolve_fields_spec(fields, Some(c)),
        LoadOutcomeV::Miss(m) => if strict {
            Err(ResolveErrorV::StrictViolation(m))
        } else {
            resolve_fields_spec(fields, None)
        },
    }
}

/// One resolution pass, end to end.
pub open spec fn engine_spec(
    fields: Seq<SchemaFieldV>,
    hint: Option<Seq<Seq<char>>>,
    contents: Option<Seq<char>>,
    id: Seq<char>,
    strict: bool,
) -> Result<Seq<ResolvedEntryV>, ResolveErrorV> {
    engine_result(fields, source_outcome(hint, contents, id), strict)
}

/// The strict gate: a missed source aborts under strict mode and falls back
/// to defaults otherwise.
fn resolve_after_miss(schema: &Vec<SchemaField>, m: SourceMiss, strict: bool) -> (r: Result<
    ResolvedConfig,
    ResolveError,
>)
    ensures
        match r {
            Ok(cfg) => engine_result(field_views(schema@), LoadOutcomeV::Miss(m), strict) == Ok::<
                Seq<ResolvedEntryV>,
                ResolveErrorV,
            >(cfg@),
            Err(e) => engine_result(field_views(schema@), LoadOutcomeV::Miss(m), strict) == Err::<
                Seq<ResolvedEntryV>,
                ResolveErrorV,
            >(e@),
        },
{
    if strict {
        Err(ResolveError::StrictViolation(m))
    } else {
        resolve_schema(schema, None)
    }
}

/// Resolve one component's configuration from its declared schema, the
/// build context, and the override file's text (absent when the file could
/// not be read). Every declared field yields exactly one entry, in
/// declaration order; the first fatal field aborts the pass.
pub fn resolve_component_config(
    schema: &Vec<SchemaField>,
    ctx: &BuildContext,
    contents: Option<&String>,
) -> (r: Result<ResolvedConfig, ResolveError>)
    ensures
        match r {
            Ok(cfg) => engine_spec(
                field_views(schema@),
                hint_views(ctx.out_dir_hint),
                text_view(contents),
                ctx.component_id@,
                ctx.strict,
            ) == Ok::<Seq<ResolvedEntryV>, ResolveErrorV>(cfg@),
            Err(e) => engine_spec(
                field_views(schema@),
                hint_views(ctx.out_dir_hint),
                text_view(contents),
                ctx.component_id@,
                ctx.strict,
            ) == Err::<Seq<ResolvedEntryV>, ResolveErrorV>(e@),
        },
{
    let sentinel = sentinel_string();
    let root = resolve_root(ctx.out_dir_hint.as_ref(), &sentinel);
    match root {
        None => resolve_after_miss(schema, SourceMiss::RootNotFound, ctx.strict),
        Some(_) => match contents {
            None => resolve_after_miss(schema, SourceMiss::FileUnavailable, ctx.strict),
            Some(text) => match parse_override_text(text.as_str()) {
                None => resolve_after_miss(schema, SourceMiss::Malformed, ctx.strict),
                Some(table) => match table.component(&ctx.component_id) {
                    None => resolve_after_miss(schema, SourceMiss::ComponentAbsent, ctx.strict),
                    Some(c) => resolve_schema(schema, Some(c)),
                },
            },
        },
    }
}

/// Strict mode with no obtained override source is always fatal: whatever
/// the schema declares — even one that no override would have touched —
/// and whatever the cause of the miss, the verdict is the strict violation
/// naming that cause.
pub proof fn lemma_strict_miss_always_fatal(fields: Seq<SchemaFieldV>, m: SourceMiss)
    ensures
        engine_result(fields, LoadOutcomeV::Miss(m), true) == Err::<
            Seq<ResolvedEntryV>,
            ResolveErrorV,
        >(ResolveErrorV::StrictViolation(m)),
{
}

/// Outside strict mode, every way of missing the override source resolves
/// alike: a component absent from the table, an unreadable or malformed
/// file and an undiscovered root all fall back to the defaults, identically.
pub proof fn lemma_miss_causes_alike(fields: Seq<SchemaFieldV>, m1: SourceMiss, m2: SourceMiss)
    ensures
        engine_result(fields, LoadOutcomeV::Miss(m1), false) == engine_result(
            fields,
            LoadOutcomeV::Miss(m2),
            false,
        ),
{
}

} // verus!
