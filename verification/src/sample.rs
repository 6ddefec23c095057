//! A small sample component: the enumerated types that its schema refers to
//! by variant name, and the shape of its resolved configuration.

use vstd::prelude::*;

verus! {

/// An enumerated setting. An override selects one of its variants by name.
#[derive(Debug)]
pub enum Choice {
    One,
    Other,
    Third,
}

impl Choice {
    /// The variant that a numeric setting selects; values past the known
    /// variants fall back to `Third`.
    pub open spec fn spec_from_int(n: usize) -> Choice {
        if n == 0 {
            Choice::One
        } else if n == 1 {
            Choice::Other
        } else {
            Choice::Third
        }
    }

    pub fn from_int(n: usize) -> (r: Choice)
        ensures
            r == Choice::spec_from_int(n),
    {
        match n {
            0 => Choice::One,
            1 => Choice::Other,
            _ => Choice::Third,
        }
    }
}

/// A second enumerated setting, configured directly as a field value.
#[derive(Debug)]
pub enum OtherChoice {
    Foo,
    Bar,
}

/// The sample component's resolved configuration: one concrete value per
/// declared schema field.
pub struct Config {
    pub buffer_size: usize,
    pub choice: usize,
    pub other_choice: OtherChoice,
}

impl Config {
    /// The enumerated reading of the numeric `choice` field.
    pub fn choice(&self) -> (r: Choice)
        ensures
            r == Choice::spec_from_int(self.choice),
    {
        Choice::from_int(self.choice)
    }
}

} // verus!
