//! The declared side of resolution: schema fields with explicit type tags
//! and default expressions, and the resolved entries they produce.
//!
//! The type classification is a first-class attribute of the field, never
//! inferred from the textual shape of its default.

use vstd::prelude::*;

use crate::value::{Expr, ExprV, ScalarKind, str_views};

verus! {

/// An enumerated type that a variant-typed field refers to: its name and
/// the names of its declared variants.
#[derive(Debug, PartialEq, Eq)]
pub struct VariantType {
    pub name: String,
    pub variants: Vec<String>,
}

/// The mathematical reading of a `VariantType`.
pub struct VariantTypeV {
    pub name: Seq<char>,
    pub variants: Seq<Seq<char>>,
}

impl View for VariantType {
    type V = VariantTypeV;

    open spec fn view(&self) -> VariantTypeV {
        VariantTypeV { name: self.name@, variants: str_views(self.variants@) }
    }
}

impl Clone for VariantType {
    fn clone(&self) -> (res: Self)
        ensures
            res@ == self@,
    {
        let variants = self.variants.clone();
        proof {
            assert(str_views(variants@) =~= str_views(self.variants@));
        }
        VariantType { name: self.name.clone(), variants }
    }
}

/// The declared type of a schema field: a scalar of a fixed kind, or one
/// named variant of an enumerated type.
#[derive(Debug, PartialEq, Eq)]
pub enum TypeTag {
    Scalar(ScalarKind),
    NamedVariant(VariantType),
}

/// The mathematical reading of a `TypeTag`.
pub enum TypeTagV {
    Scalar(ScalarKind),
    NamedVariant(VariantTypeV),
}

impl View for TypeTag {
    type V = TypeTagV;

    open spec fn view(&self) -> TypeTagV {
        match self {
            TypeTag::Scalar(k) => TypeTagV::Scalar(*k),
            TypeTag::NamedVariant(vt) => TypeTagV::NamedVariant(vt@),
        }
    }
}

impl Clone for TypeTag {
    fn clone(&self) -> (res: Self)
        ensures
            res@ == self@,
    {
        match self {
            TypeTag::Scalar(k) => TypeTag::Scalar(*k),
            TypeTag::NamedVariant(vt) => TypeTag::NamedVariant(vt.clone()),
        }
    }
}

/// One declared configuration field: a name, an explicit type tag, and the
/// default expression the declaration carries. A declaration that omitted
/// its default is represented with `None` and is rejected at resolution.
#[derive(Debug, PartialEq, Eq)]
pub struct SchemaField {
    pub name: String,
    pub type_tag: TypeTag,
    pub default_expr: Option<Expr>,
}

/// The mathematical reading of a `SchemaField`.
pub struct SchemaFieldV {
    pub name: Seq<char>,
    pub type_tag: TypeTagV,
    pub default_expr: Option<ExprV>,
}

impl View for SchemaField {
    type V = SchemaFieldV;

    open spec fn view(&self) -> SchemaFieldV {
        SchemaFieldV {
            name: self.name@,
            type_tag: self.type_tag@,
            default_expr: match self.default_expr {
                Some(e) => Some(e@),
                None => None,
            },
        }
    }
}

/// The views of a sequence of schema fields.
pub open spec fn field_views(fields: Seq<SchemaField>) -> Seq<SchemaFieldV> {
    fields.map_values(|f: SchemaField| f@)
}

/// One resolved configuration entry: the field's name and type tag, and the
/// concrete expression resolution decided on.
#[derive(Debug, PartialEq, Eq)]
pub struct ResolvedEntry {
    pub name: String,
    pub type_tag: TypeTag,
    pub resolved_expr: Expr,
}

/// The mathematical reading of a `ResolvedEntry`.
pub struct ResolvedEntryV {
    pub name: Seq<char>,
    pub type_tag: TypeTagV,
    pub resolved_expr: ExprV,
}

impl View for ResolvedEntry {
    type V = ResolvedEntryV;

    open spec fn view(&self) -> ResolvedEntryV {
        ResolvedEntryV {
            name: self.name@,
            type_tag: self.type_tag@,
            resolved_expr: self.resolved_expr@,
        }
    }
}

/// The full outcome of one resolution pass: one entry per declared field,
/// in declaration order.
#[derive(Debug, PartialEq, Eq)]
pub struct ResolvedConfig {
    pub entries: Vec<ResolvedEntry>,
}

impl View for ResolvedConfig {
    type V = Seq<ResolvedEntryV>;

    open spec fn view(&self) -> Seq<ResolvedEntryV> {
        self.entries@.map_values(|e: ResolvedEntry| e@)
    }
}

} // verus!
