//! The override side of resolution: the two-level table that the root
//! crate's override file supplies, and the loader that extracts one
//! component's sub-table from it.
//!
//! The textual format is read by the `toml` crate behind one trusted
//! wrapper; everything after the parse — component lookup, field lookup —
//! is verified.

use vstd::prelude::*;

use crate::value::{RawVal, RawValue, string_eq};

verus! {

/// The overrides that the file holds for one component: field name to raw
/// literal, in file order. A sub-table may be empty: that is a valid
/// override source, distinct from an absent one.
#[derive(Debug, PartialEq, Eq)]
pub struct ComponentOverrides {
    pub entries: Vec<(String, RawValue)>,
}

impl View for ComponentOverrides {
    type V = Seq<(Seq<char>, RawVal)>;

    open spec fn view(&self) -> Seq<(Seq<char>, RawVal)> {
        self.entries@.map_values(|e: (String, RawValue)| (e.0@, e.1@))
    }
}

impl Clone for ComponentOverrides {
    fn clone(&self) -> (res: Self)
        ensures
            res@ == self@,
    {
        let mut entries: Vec<(String, RawValue)> = Vec::new();
        let mut i: usize = 0;
        while i < self.entries.len()
            invariant
                0 <= i <= self.entries.len(),
                entries@.len() == i,
                forall|j: int|
                    0 <= j < i ==> #[trigger] entries@[j].0@ == self.entries@[j].0@
                        && entries@[j].1 == self.entries@[j].1,
            decreases self.entries.len() - i,
        {
            let e = &self.entries[i];
            entries.push((e.0.clone(), e.1.clone()));
            i = i + 1;
        }
        let res = ComponentOverrides { entries };
        proof {
            assert(res@ =~= self@);
        }
        res
    }
}

/// The whole override table: component identity to that component's
/// sub-table, in file order.
#[derive(Debug, PartialEq, Eq)]
pub struct OverrideTable {
    pub components: Vec<(String, ComponentOverrides)>,
}

impl View for OverrideTable {
    type V = Seq<(Seq<char>, Seq<(Seq<char>, RawVal)>)>;

    open spec fn view(&self) -> Seq<(Seq<char>, Seq<(Seq<char>, RawVal)>)> {
        self.components@.map_values(|e: (String, ComponentOverrides)| (e.0@, e.1@))
    }
}

/// The first value bound to a key in an association sequence. The trusted
/// parser never yields a duplicate key (the format rejects them), so the
/// first match is the only one.
pub open spec fn assoc_lookup<V>(entries: Seq<(Seq<char>, V)>, key: Seq<char>) -> Option<V>
    decreases entries.len(),
{
    if entries.len() == 0 {
        None
    } else if entries[0].0 == key {
        Some(entries[0].1)
    } else {
        assoc_lookup(entries.drop_first(), key)
    }
}

impl ComponentOverrides {
    /// The raw override literal for a field name, if the file holds one.
    #[verifier::loop_isolation(false)]
    pub fn get(&self, name: &String) -> (r: Option<&RawValue>)
        ensures
            match r {
                Some(v) => assoc_lookup(self@, name@) == Some(v@),
                None => assoc_lookup(self@, name@) is None,
            },
    {
        let mut i: usize = 0;
        proof {
            assert(self@.skip(0) =~= self@);
        }
        while i < self.entries.len()
            invariant
                0 <= i <= self.entries.len(),
                assoc_lookup(self@, name@) == assoc_lookup(self@.skip(i as int), name@),
            decreases self.entries.len() - i,
        {
            let e = &self.entries[i];
            proof {
                assert(self@.skip(i as int)[0] == (self@[i as int].0, self@[i as int].1));
            }
            if string_eq(&e.0, name) {
                return Some(&e.1);
            }
            proof {
                assert(self@.skip(i as int).drop_first() =~= self@.skip(i as int + 1));
            }
            i = i + 1;
        }
        proof {
            assert(self@.skip(i as int) =~= Seq::<(Seq<char>, RawVal)>::empty());
        }
        None
    }
}

impl OverrideTable {
    /// The sub-table of the named component, if the file holds one.
    #[verifier::loop_isolation(false)]
    pub fn component(&self, id: &String) -> (r: Option<&ComponentOverrides>)
        ensures
            match r {
                Some(c) => assoc_lookup(self@, id@) == Some(c@),
                None => assoc_lookup(self@, id@) is None,
            },
    {
        let mut i: usize = 0;
        proof {
            assert(self@.skip(0) =~= self@);
        }
        while i < self.components.len()
            invariant
                0 <= i <= self.components.len(),
                assoc_lookup(self@, id@) == assoc_lookup(self@.skip(i as int), id@),
            decreases self.components.len() - i,
        {
            let e = &self.components[i];
            proof {
                assert(self@.skip(i as int)[0] == (self@[i as int].0, self@[i as int].1));
            }
            if string_eq(&e.0, id) {
                return Some(&e.1);
            }
            proof {
                assert(self@.skip(i as int).drop_first() =~= self@.skip(i as int + 1));
            }
            i = i + 1;
        }
        proof {
            assert(self@.skip(i as int) =~= Seq::<(Seq<char>, Seq<(Seq<char>, RawVal)>)>::empty());
        }
        None
    }
}

/// What the override text parses to: the two-level table when the text is a
/// well-formed override document — every top-level value a table of
/// literals — and nothing when it is malformed. The tables keep the
/// parser's deterministic order, keyed without duplicates.
pub uninterp spec fn parsed_overrides(text: Seq<char>) -> Option<
    Seq<(Seq<char>, Seq<(Seq<char>, RawVal)>)>,
>;

/// Relies on `toml::from_str::<toml::Table>`: it yields the document's
/// key-to-value table (rejecting duplicate keys) or an error on malformed
/// text, and its result depends on the text alone, in a deterministic
/// order (the table is ordered by key). A top-level value that is not
/// itself a table makes the document malformed. String, integer and
/// boolean field literals are carried as themselves; any other literal is
/// carried as its text, through `toml::Value`'s display form.
#[verifier::external_body]
pub(crate) fn parse_override_text(text: &str) -> (r: Option<OverrideTable>)
    ensures
        match r {
            Some(t) => parsed_overrides(text@) == Some(t@),
            None => parsed_overrides(text@) is None,
        },
{
    let tab: toml::Table = match toml::from_str(text) { Ok(t) => t, Err(_) => return None };
    let mut components: Vec<(String, ComponentOverrides)> = Vec::new();
    for (k, v) in tab {
        let sub = match v { toml::Value::Table(t) => t, _ => return None };
        let entries = sub.into_iter().map(|(fk, fv)| (fk, match fv {
            toml::Value::String(x) => RawValue::Str(x),
            toml::Value::Integer(x) => RawValue::Int(x),
            toml::Value::Boolean(x) => RawValue::Bool(x),
            other => RawValue::Other(other.to_string()),
        })).collect();
        components.push((k, ComponentOverrides { entries }));
    }
    Some(OverrideTable { components })
}

/// What loading yields for one component: the parse of the text, then the
/// component's sub-table. Absent text, a malformed document and an absent
/// component all yield nothing.
pub open spec fn loaded_overrides(contents: Option<Seq<char>>, id: Seq<char>) -> Option<
    Seq<(Seq<char>, RawVal)>,
> {
    match contents {
        None => None,
        Some(text) => match parsed_overrides(text) {
            None => None,
            Some(table) => assoc_lookup(table, id),
        },
    }
}

/// Load one component's override sub-table from the override file's text.
/// An unreadable file (`None`), a malformed document and a component absent
/// from the table all degrade to `None`: no override data, never an error.
pub fn load(contents: Option<&String>, component_id: &String) -> (r: Option<ComponentOverrides>)
    ensures
        match r {
            Some(c) => loaded_overrides(
                match contents {
                    Some(s) => Some(s@),
                    None => None,
                },
                component_id@,
            ) == Some(c@),
            None => loaded_overrides(
                match contents {
                    Some(s) => Some(s@),
                    None => None,
                },
                component_id@,
            ) is None,
        },
{
    let text = match contents {
        Some(t) => t,
        None => {
            return None;
        },
    };
    let table = match parse_override_text(text.as_str()) {
        Some(t) => t,
        None => {
            return None;
        },
    };
    match table.component(component_id) {
        Some(c) => Some(c.clone()),
        None => None,
    }
}

} // verus!
