//! Balance-related types.

use vstd::prelude::*;

verus! {

/// The time of day a balance snapshot was taken at.
#[derive(Debug, Clone, Copy, PartialEq, Eq, Structural)]
pub enum SnapshotTimeOfDay {
    /// End of day.
    Eod,
    /// Beginning of day.
    Bod,
}

impl SnapshotTimeOfDay {
    /// The display name of this variant.
    pub open spec fn spec_name(&self) -> Seq<char> {
        match self {
            SnapshotTimeOfDay::Eod => "Eod"@,
            SnapshotTimeOfDay::Bod => "Bod"@,
        }
    }

    /// Returns the display name of this variant.
    pub fn name(&self) -> (r: String)
        ensures
            r@ == self.spec_name(),
    {
        match self {
            SnapshotTimeOfDay::Eod => "Eod".to_owned(),
            SnapshotTimeOfDay::Bod => "Bod".to_owned(),
        }
    }

    /// The name of this variant on the wire.
    pub open spec fn spec_wire_name(&self) -> Seq<char> {
        match self {
            SnapshotTimeOfDay::Eod => "EOD"@,
            SnapshotTimeOfDay::Bod => "BOD"@,
        }
    }

    /// Returns the name of this variant on the wire.
    pub fn wire_name(&self) -> (r: String)
        ensures
            r@ == self.spec_wire_name(),
    {
        match self {
            SnapshotTimeOfDay::Eod => "EOD".to_owned(),
            SnapshotTimeOfDay::Bod => "BOD".to_owned(),
        }
    }
}

} // verus!
