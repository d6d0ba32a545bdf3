//! The payload of a log entry.
use vstd::prelude::*;

verus! {

/// This entry's payload.
#[derive(Debug)]
pub enum Payload {
    Normal(super::EntryNormal),
    ConfigChange(super::MembershipConfig),
    SnapshotPointer(super::SnapshotPath),
    Blank(()),
}

} // verus!
