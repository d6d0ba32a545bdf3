//! The conflict reported in an append-entries answer.
use vstd::prelude::*;
use super::ConflictOpt;

verus! {

/// Where the logs agree, reported when an append-entries request fails.
#[derive(Debug, Clone, Copy, PartialEq, Eq, Structural)]
pub enum Conflict {
    ConflictOpt(ConflictOpt),
}

impl Conflict {
    /// The conflict of a conflict option.
    pub fn from_opt(that: ConflictOpt) -> (r: Conflict)
        ensures
            r == Conflict::ConflictOpt(that),
    {
        Conflict::ConflictOpt(that)
    }

    /// The conflict option this conflict carries.
    pub fn into_opt(self) -> (r: ConflictOpt)
        ensures
            self == Conflict::ConflictOpt(r),
    {
        match self {
            Conflict::ConflictOpt(c) => c,
        }
    }
}

} // verus!
