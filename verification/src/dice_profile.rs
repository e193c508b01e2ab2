//! Profiles: the templates that new dice are built from.

use vstd::prelude::*;

verus! {
/// The kinds of die a profile can ask for.
#[derive(Debug, Clone, Copy, PartialEq, Eq, Structural)]
pub enum DieType {
    /// A die with this many faces, numbered from `1`.
    Numerical(u32),
    /// A die with faces of its own. None can be built yet.
    Custom,
}

/// A template for a die: which kind, and under which label. Without a label
/// the die is named after its face count.
#[derive(Debug)]
pub struct DieProfile {
    pub label: Option<String>,
    pub die_type: DieType,
}

/// The mathematical content of a [`DieProfile`].
pub struct DieProfileView {
    pub label: Option<Seq<char>>,
    pub die_type: DieType,
}

impl View for DieProfile {
    type V = DieProfileView;

    open spec fn view(&self) -> DieProfileView {
        DieProfileView {
            label: match self.label {
                Some(l) => Some(l@),
                None => None,
            },
            die_type: self.die_type,
        }
    }
}

impl DieProfile {
    /// A profile for dice of `die_type`, under `label` if one is given.
    pub fn new(label: Option<String>, die_type: DieType) -> (profile: DieProfile)
        ensures
            profile.label == label,
            profile.die_type == die_type,
    {
        DieProfile { label, die_type }
    }
}

} // verus!
