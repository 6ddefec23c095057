//! Values on the two sides of resolution: the untyped literal that an
//! override file supplies for a field, and the concrete expression that
//! resolution emits for it.

use vstd::prelude::*;

verus! {

/// The kind of a scalar schema field.
#[derive(Clone, Copy, Debug, PartialEq, Eq, Structural)]
pub enum ScalarKind {
    Int,
    Str,
    Bool,
}

/// An untyped literal read from the override file. Absence of a field from
/// the file is represented by absence from the table, never by a `RawValue`.
/// A literal of any other shape (a float, a datetime, an array, a nested
/// table) is carried as `Other` with its textual form: it matches no scalar
/// kind and no variant name, so an override with it is always a type-kind
/// mismatch.
#[derive(Debug, PartialEq, Eq)]
pub enum RawValue {
    Str(String),
    Int(i64),
    Bool(bool),
    Other(String),
}

impl Clone for RawValue {
    fn clone(&self) -> (res: Self)
        ensures
            res == *self,
    {
        match self {
            RawValue::Str(s) => RawValue::Str(s.clone()),
            RawValue::Int(i) => RawValue::Int(*i),
            RawValue::Bool(b) => RawValue::Bool(*b),
            RawValue::Other(t) => RawValue::Other(t.clone()),
        }
    }
}

/// The mathematical reading of a `RawValue`.
pub enum RawVal {
    Str(Seq<char>),
    Int(i64),
    Bool(bool),
    Other(Seq<char>),
}

impl View for RawValue {
    type V = RawVal;

    open spec fn view(&self) -> RawVal {
        match self {
            RawValue::Str(s) => RawVal::Str(s@),
            RawValue::Int(i) => RawVal::Int(*i),
            RawValue::Bool(b) => RawVal::Bool(*b),
            RawValue::Other(t) => RawVal::Other(t@),
        }
    }
}

/// A compile-time-constant expression: the resolved value of one field.
/// `VariantRef` names one variant of an enumerated type; `Raw` carries an
/// arbitrary constant expression as written in a schema default.
#[derive(Debug, PartialEq, Eq)]
pub enum Expr {
    IntLit(i64),
    StrLit(String),
    BoolLit(bool),
    VariantRef(String, String),
    Raw(String),
}

impl Clone for Expr {
    fn clone(&self) -> (res: Self)
        ensures
            res == *self,
    {
        match self {
            Expr::IntLit(i) => Expr::IntLit(*i),
            Expr::StrLit(s) => Expr::StrLit(s.clone()),
            Expr::BoolLit(b) => Expr::BoolLit(*b),
            Expr::VariantRef(t, v) => Expr::VariantRef(t.clone(), v.clone()),
            Expr::Raw(t) => Expr::Raw(t.clone()),
        }
    }
}

/// The mathematical reading of an `Expr`.
pub enum ExprV {
    IntLit(i64),
    StrLit(Seq<char>),
    BoolLit(bool),
    VariantRef(Seq<char>, Seq<char>),
    Raw(Seq<char>),
}

impl View for Expr {
    type V = ExprV;

    open spec fn view(&self) -> ExprV {
        match self {
            Expr::IntLit(i) => ExprV::IntLit(*i),
            Expr::StrLit(s) => ExprV::StrLit(s@),
            Expr::BoolLit(b) => ExprV::BoolLit(*b),
            Expr::VariantRef(t, v) => ExprV::VariantRef(t@, v@),
            Expr::Raw(t) => ExprV::Raw(t@),
        }
    }
}

/// The views of a sequence of strings.
pub open spec fn str_views(s: Seq<String>) -> Seq<Seq<char>> {
    s.map_values(|x: String| x@)
}

/// String equality over views.
pub fn string_eq(a: &String, b: &String) -> (r: bool)
    ensures
        r == (a@ == b@),
{
    a.eq(b)
}

/// Whether one of the strings has the given view.
#[verifier::loop_isolation(false)]
pub fn contains_string(v: &Vec<String>, s: &String) -> (r: bool)
    ensures
        r == str_views(v@).contains(s@),
{
    let mut i: usize = 0;
    while i < v.len()
        invariant
            0 <= i <= v.len(),
            forall|j: int| 0 <= j < i ==> str_views(v@)[j] != s@,
        decreases v.len() - i,
    {
        if string_eq(&v[i], s) {
            assert(str_views(v@)[i as int] == s@);
            assert(str_views(v@).contains(s@));
            return true;
        }
        i = i + 1;
    }
    assert(!str_views(v@).contains(s@)) by {
        if str_views(v@).contains(s@) {
            let j = choose|j: int| 0 <= j < str_views(v@).len() && str_views(v@)[j] == s@;
        }
    }
    false
}

/// Whether a raw literal is of the given scalar kind.
pub open spec fn raw_has_kind(raw: RawVal, kind: ScalarKind) -> bool {
    match (raw, kind) {
        (RawVal::Int(_), ScalarKind::Int) => true,
        (RawVal::Str(_), ScalarKind::Str) => true,
        (RawVal::Bool(_), ScalarKind::Bool) => true,
        _ => false,
    }
}

/// The literal expression that a kind-matching raw value converts to.
pub open spec fn lit_of_raw(raw: RawVal) -> ExprV {
    match raw {
        RawVal::Int(i) => ExprV::IntLit(i),
        RawVal::Str(s) => ExprV::StrLit(s),
        RawVal::Bool(b) => ExprV::BoolLit(b),
        RawVal::Other(t) => ExprV::Raw(t),
    }
}

} // verus!
