//! The resolution engine: per-field reconciliation of an override literal
//! against the field's declared type, the pass over a whole schema, and the
//! strict-mode gate over how the override source was obtained.

use vstd::prelude::*;

use crate::overrides::{ComponentOverrides, assoc_lookup};
use crate::schema::{ResolvedConfig, ResolvedEntry, ResolvedEntryV, SchemaField, SchemaFieldV,
    TypeTag, TypeTagV, VariantTypeV, field_views};
use crate::value::{Expr, ExprV, RawVal, RawValue, ScalarKind, contains_string, lit_of_raw,
    raw_has_kind};

verus! {

/// Why no override source was obtained: no project root was discovered, the
/// override file could not be read, it did not parse as an override
/// document, or it holds no sub-table for the component.
#[derive(Clone, Copy, Debug, PartialEq, Eq, Structural)]
pub enum SourceMiss {
    RootNotFound,
    FileUnavailable,
    Malformed,
    ComponentAbsent,
}

/// A fatal resolution outcome. Type-kind mismatches and missing defaults
/// are always fatal; a missed override source is fatal only under strict
/// mode, and the error names what was missed.
#[derive(Debug, PartialEq, Eq)]
pub enum ResolveError {
    StrictViolation(SourceMiss),
    TypeMismatch { field: String, expected: TypeTag, found: RawValue },
    MissingDefault { field: String },
}

/// The mathematical reading of a `ResolveError`.
pub enum ResolveErrorV {
    StrictViolation(SourceMiss),
    TypeMismatch { field: Seq<char>, expected: TypeTagV, found: RawVal },
    MissingDefault { field: Seq<char> },
}

impl View for ResolveError {
    type V = ResolveErrorV;

    open spec fn view(&self) -> ResolveErrorV {
        match self {
            ResolveError::StrictViolation(m) => ResolveErrorV::StrictViolation(*m),
            ResolveError::TypeMismatch { field, expected, found } => ResolveErrorV::TypeMismatch {
                field: field@,
                expected: expected@,
                found: found@,
            },
            ResolveError::MissingDefault { field } => ResolveErrorV::MissingDefault {
                field: field@,
            },
        }
    }
}

/// How the override source turned out for one component: a sub-table, or a
/// miss with its cause.
pub enum LoadOutcomeV {
    Found(Seq<(Seq<char>, RawVal)>),
    Miss(SourceMiss),
}

/// Reconciliation of one override literal with the field's declared type:
/// a scalar override must be of the declared kind and becomes that literal;
/// a variant-typed override must be a string naming a known variant and
/// becomes a reference to that variant. Anything else is a fatal type-kind
/// mismatch naming the field, the expected type and the offending literal.
pub open spec fn reconcile_spec(name: Seq<char>, tag: TypeTagV, raw: RawVal) -> Result<
    ExprV,
    ResolveErrorV,
> {
    match tag {
        TypeTagV::Scalar(k) => if raw_has_kind(raw, k) {
            Ok(lit_of_raw(raw))
        } else {
            Err(ResolveErrorV::TypeMismatch { field: name, expected: tag, found: raw })
        },
        TypeTagV::NamedVariant(vt) => match raw {
            RawVal::Str(s) => if vt.variants.contains(s) {
                Ok(ExprV::VariantRef(vt.name, s))
            } else {
                Err(ResolveErrorV::TypeMismatch { field: name, expected: tag, found: raw })
            },
            _ => Err(ResolveErrorV::TypeMismatch { field: name, expected: tag, found: raw }),
        },
    }
}

/// Resolution of one field: a field without a default is rejected; a field
/// whose name the sub-table does not hold — or with no sub-table at all —
/// keeps its default unchanged; an overridden field gets the reconciled
/// override value.
pub open spec fn resolve_field_spec(f: SchemaFieldV, ov: Option<Seq<(Seq<char>, RawVal)>>) -> Result<
    ExprV,
    ResolveErrorV,
> {
    match f.default_expr {
        None => Err(ResolveErrorV::MissingDefault { field: f.name }),
        Some(d) => {
            let found = match ov {
                None => None,
                Some(entries) => assoc_lookup(entries, f.name),
            };
            match found {
                None => Ok(d),
                Some(raw) => reconcile_spec(f.name, f.type_tag, raw),
            }
        },
    }
}

/// Resolution of a whole schema, in declaration order: every field yields
/// exactly one entry, and the first fatal field aborts the pass — no
/// partial configuration is emitted.
pub open spec fn resolve_fields_spec(
    fields: Seq<SchemaFieldV>,
    ov: Option<Seq<(Seq<char>, RawVal)>>,
) -> Result<Seq<ResolvedEntryV>, ResolveErrorV>
    decreases fields.len(),
{
    if fields.len() == 0 {
        Ok(Seq::empty())
    } else {
        match resolve_fields_spec(fields.drop_last(), ov) {
            Err(e) => Err(e),
            Ok(prefix) => match resolve_field_spec(fields.last(), ov) {
                Err(e) => Err(e),
                Ok(x) => Ok(
                    prefix.push(
                        ResolvedEntryV {
                            name: fields.last().name,
                            type_tag: fields.last().type_tag,
                            resolved_expr: x,
                        },
                    ),
                ),
            },
        }
    }
}

/// A fatal prefix stays fatal: once some prefix of the schema resolves to
/// an error, the whole schema resolves to that same error.
pub proof fn lemma_error_persists(
    fields: Seq<SchemaFieldV>,
    ov: Option<Seq<(Seq<char>, RawVal)>>,
    k: int,
)
    requires
        0 <= k <= fields.len(),
        resolve_fields_spec(fields.take(k), ov) is Err,
    ensures
        resolve_fields_spec(fields, ov) == resolve_fields_spec(fields.take(k), ov),
    decreases fields.len() - k,
{
    if k == fields.len() {
        assert(fields.take(k) =~= fields);
    } else {
        assert(fields.take(k + 1).drop_last() =~= fields.take(k));
        lemma_error_persists(fields, ov, k + 1);
    }
}

/// No field is silently dropped and none is invented: a successful pass
/// yields exactly one entry per declared field, in declaration order, each
/// keeping its field's name and type tag, and each resolved from its own
/// field and the sub-table alone — never from the other fields.
pub proof fn lemma_every_field_resolved(
    fields: Seq<SchemaFieldV>,
    ov: Option<Seq<(Seq<char>, RawVal)>>,
    entries: Seq<ResolvedEntryV>,
)
    requires
        resolve_fields_spec(fields, ov) == Ok::<Seq<ResolvedEntryV>, ResolveErrorV>(entries),
    ensures
        entries.len() == fields.len(),
        forall|i: int|
            0 <= i < fields.len() ==> {
                &&& (#[trigger] entries[i]).name == fields[i].name
                &&& entries[i].type_tag == fields[i].type_tag
                &&& resolve_field_spec(fields[i], ov) == Ok::<ExprV, ResolveErrorV>(
                    entries[i].resolved_expr,
                )
            },
    decreases fields.len(),
{
    if fields.len() > 0 {
        let sub = fields.drop_last();
        let subr = resolve_fields_spec(sub, ov);
        assert(subr is Ok);
        let prefix = subr->Ok_0;
        lemma_every_field_resolved(sub, ov, prefix);
        assert(forall|i: int| 0 <= i < sub.len() ==> sub[i] == fields[i]);
        assert(entries == prefix.push(
            ResolvedEntryV {
                name: fields.last().name,
                type_tag: fields.last().type_tag,
                resolved_expr: resolve_field_spec(fields.last(), ov)->Ok_0,
            },
        ));
    }
}

/// A field with a default and no matching override — no sub-table at all,
/// or one that lacks the field's name — resolves to the declared default
/// unchanged, whatever else the table holds.
pub proof fn lemma_no_override_keeps_default(
    f: SchemaFieldV,
    ov: Option<Seq<(Seq<char>, RawVal)>>,
    d: ExprV,
)
    requires
        f.default_expr == Some(d),
        match ov {
            None => true,
            Some(entries) => assoc_lookup(entries, f.name) is None,
        },
    ensures
        resolve_field_spec(f, ov) == Ok::<ExprV, ResolveErrorV>(d),
{
}

/// A scalar field overridden with a literal of its declared kind resolves
/// to the override's value — never to the default.
pub proof fn lemma_scalar_override_wins(
    f: SchemaFieldV,
    entries: Seq<(Seq<char>, RawVal)>,
    k: ScalarKind,
    raw: RawVal,
)
    requires
        f.default_expr is Some,
        f.type_tag == TypeTagV::Scalar(k),
        assoc_lookup(entries, f.name) == Some(raw),
        raw_has_kind(raw, k),
    ensures
        resolve_field_spec(f, Some(entries)) == Ok::<ExprV, ResolveErrorV>(lit_of_raw(raw)),
{
}

/// A scalar field overridden with a literal of another kind is a fatal
/// type-kind mismatch naming the field, its declared type and the literal.
pub proof fn lemma_scalar_mismatch_fatal(
    f: SchemaFieldV,
    entries: Seq<(Seq<char>, RawVal)>,
    k: ScalarKind,
    raw: RawVal,
)
    requires
        f.default_expr is Some,
        f.type_tag == TypeTagV::Scalar(k),
        assoc_lookup(entries, f.name) == Some(raw),
        !raw_has_kind(raw, k),
    ensures
        resolve_field_spec(f, Some(entries)) == Err::<ExprV, ResolveErrorV>(
            ResolveErrorV::TypeMismatch { field: f.name, expected: TypeTagV::Scalar(k), found: raw },
        ),
{
}

/// A variant-typed field overridden with a string naming a known variant
/// resolves to a reference to exactly that variant of the field's type.
pub proof fn lemma_known_variant_resolves(
    f: SchemaFieldV,
    entries: Seq<(Seq<char>, RawVal)>,
    vt: VariantTypeV,
    s: Seq<char>,
)
    requires
        f.default_expr is Some,
        f.type_tag == TypeTagV::NamedVariant(vt),
        assoc_lookup(entries, f.name) == Some(RawVal::Str(s)),
        vt.variants.contains(s),
    ensures
        resolve_field_spec(f, Some(entries)) == Ok::<ExprV, ResolveErrorV>(
            ExprV::VariantRef(vt.name, s),
        ),
{
}

/// A variant-typed field overridden with anything else — a non-string
/// literal, or a string naming no known variant — is a fatal type-kind
/// mismatch naming the field and the literal: resolution never guesses a
/// fallback variant.
pub proof fn lemma_unknown_variant_fatal(
    f: SchemaFieldV,
    entries: Seq<(Seq<char>, RawVal)>,
    vt: VariantTypeV,
    raw: RawVal,
)
    requires
        f.default_expr is Some,
        f.type_tag == TypeTagV::NamedVariant(vt),
        assoc_lookup(entries, f.name) == Some(raw),
        match raw {
            RawVal::Str(s) => !vt.variants.contains(s),
            _ => true,
        },
    ensures
        resolve_field_spec(f, Some(entries)) == Err::<ExprV, ResolveErrorV>(
            ResolveErrorV::TypeMismatch {
                field: f.name,
                expected: TypeTagV::NamedVariant(vt),
                found: raw,
            },
        ),
{
}

/// An override source that is present but empty resolves a field exactly as
/// no source at all does.
pub proof fn lemma_empty_subtable_is_default(f: SchemaFieldV)
    ensures
        resolve_field_spec(f, Some(Seq::empty())) == resolve_field_spec(f, None),
{
}

/// Over a whole schema, an empty sub-table yields the all-defaults
/// configuration, identical to resolving with no source.
pub proof fn lemma_empty_subtable_all_defaults(fields: Seq<SchemaFieldV>)
    ensures
        resolve_fields_spec(fields, Some(Seq::empty())) == resolve_fields_spec(fields, None),
    decreases fields.len(),
{
    if fields.len() > 0 {
        lemma_empty_subtable_all_defaults(fields.drop_last());
        lemma_empty_subtable_is_default(fields.last());
    }
}

/// The exec counterpart of `reconcile_spec`.
pub fn reconcile(name: &String, tag: &TypeTag, raw: &RawValue) -> (r: Result<Expr, ResolveError>)
    ensures
        match r {
            Ok(e) => reconcile_spec(name@, tag@, raw@) == Ok::<ExprV, ResolveErrorV>(e@),
            Err(e) => reconcile_spec(name@, tag@, raw@) == Err::<ExprV, ResolveErrorV>(e@),
        },
{
    match tag {
        TypeTag::Scalar(k) => match (k, raw) {
            (ScalarKind::Int, RawValue::Int(i)) => Ok(Expr::IntLit(*i)),
            (ScalarKind::Str, RawValue::Str(s)) => Ok(Expr::StrLit(s.clone())),
            (ScalarKind::Bool, RawValue::Bool(b)) => Ok(Expr::BoolLit(*b)),
            _ => Err(
                ResolveError::TypeMismatch {
                    field: name.clone(),
                    expected: tag.clone(),
                    found: raw.clone(),
                },
            ),
        },
        TypeTag::NamedVariant(vt) => match raw {
            RawValue::Str(s) => if contains_string(&vt.variants, s) {
                Ok(Expr::VariantRef(vt.name.clone(), s.clone()))
            } else {
                Err(
                    ResolveError::TypeMismatch {
                        field: name.clone(),
                        expected: tag.clone(),
                        found: raw.clone(),
                    },
                )
            },
            _ => Err(
                ResolveError::TypeMismatch {
                    field: name.clone(),
                    expected: tag.clone(),
                    found: raw.clone(),
                },
            ),
        },
    }
}

/// Resolve one schema field against the component's override sub-table, if
/// any: the default when nothing overrides the field, the reconciled
/// override value otherwise.
pub fn resolve_field(field: &SchemaField, overrides: Option<&ComponentOverrides>) -> (r: Result<
    Expr,
    ResolveError,
>)
    ensures
        match r {
            Ok(e) => resolve_field_spec(field@, ov_views(overrides)) == Ok::<
                ExprV,
                ResolveErrorV,
            >(e@),
            Err(e) => resolve_field_spec(field@, ov_views(overrides)) == Err::<
                ExprV,
                ResolveErrorV,
            >(e@),
        },
{
    let default = match &field.default_expr {
        Some(d) => d,
        None => {
            return Err(ResolveError::MissingDefault { field: field.name.clone() });
        },
    };
    let raw = match overrides {
        None => None,
        Some(ov) => ov.get(&field.name),
    };
    match raw {
        None => Ok(default.clone()),
        Some(raw) => reconcile(&field.name, &field.type_tag, raw),
    }
}

/// The views of an optional override sub-table.
pub open spec fn ov_views(overrides: Option<&ComponentOverrides>) -> Option<
    Seq<(Seq<char>, RawVal)>,
> {
    match overrides {
        None => None,
        Some(c) => Some(c@),
    }
}

/// Resolve every declared field, in declaration order, against the
/// component's override sub-table. The first fatal field aborts: no partial
/// configuration is ever returned.
#[verifier::loop_isolation(false)]
pub fn resolve_schema(schema: &Vec<SchemaField>, overrides: Option<&ComponentOverrides>) -> (r:
    Result<ResolvedConfig, ResolveError>)
    ensures
        match r {
            Ok(cfg) => resolve_fields_spec(field_views(schema@), ov_views(overrides)) == Ok::<
                Seq<ResolvedEntryV>,
                ResolveErrorV,
            >(cfg@),
            Err(e) => resolve_fields_spec(field_views(schema@), ov_views(overrides)) == Err::<
                Seq<ResolvedEntryV>,
                ResolveErrorV,
            >(e@),
        },
{
    let ghost fs = field_views(schema@);
    let ghost ovv = ov_views(overrides);
    let mut entries: Vec<ResolvedEntry> = Vec::new();
    let mut i: usize = 0;
    proof {
        assert(fs.take(0) =~= Seq::<SchemaFieldV>::empty());
        assert(entries@.map_values(|e: ResolvedEntry| e@) =~= Seq::<ResolvedEntryV>::empty());
    }
    while i < schema.len()
        invariant
            0 <= i <= schema.len(),
            resolve_fields_spec(fs.take(i as int), ovv) == Ok::<
                Seq<ResolvedEntryV>,
                ResolveErrorV,
            >(entries@.map_values(|e: ResolvedEntry| e@)),
        decreases schema.len() - i,
    {
        let field = &schema[i];
        proof {
            assert(fs.take(i as int + 1).drop_last() =~= fs.take(i as int));
            assert(fs.take(i as int + 1).last() == field@);
        }
        match resolve_field(field, overrides) {
            Err(e) => {
                proof {
                    assert(resolve_fields_spec(fs.take(i as int + 1), ovv) == Err::<
                        Seq<ResolvedEntryV>,
                        ResolveErrorV,
                    >(e@));
                    lemma_error_persists(fs, ovv, i as int + 1);
                }
                return Err(e);
            },
            Ok(expr) => {
                let ghost prior = entries@;
                let entry = ResolvedEntry {
                    name: field.name.clone(),
                    type_tag: field.type_tag.clone(),
                    resolved_expr: expr,
                };
                let ghost ev = entry@;
                entries.push(entry);
                proof {
                    assert(entries@.map_values(|e: ResolvedEntry| e@) =~= prior.map_values(
                        |e: ResolvedEntry| e@,
                    ).push(ev));
                }
            },
        }
        i = i + 1;
    }
    proof {
        assert(fs.take(i as int) =~= fs);
    }
    Ok(ResolvedConfig { entries })
}

} // verus!
