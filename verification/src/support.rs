//! The support level: how much surrounding context a backend needs or
//! accepts to run a fragment. The levels form a total order, from running
//! nothing at all up to whole-project context.

use vstd::prelude::*;

verus! {

/// How much surrounding context a backend runs a fragment with.
///
/// The order is total: `Unsupported` < `Line` < `Bloc` < `Import` < `File`
/// < `Project`. A backend declares a *maximum* level (its intrinsic
/// ceiling) and runs at a *configured* level, and configured <= maximum
/// always holds.
#[derive(Debug, Clone, Copy, PartialEq, Eq, Structural)]
pub enum SupportLevel {
    /// The backend cannot run anything.
    Unsupported,
    /// A single line of code.
    Line,
    /// A selected block of code.
    Bloc,
    /// A block plus the file's import section.
    Import,
    /// The whole file.
    File,
    /// The whole project.
    Project,
}

impl SupportLevel {
    /// Position of the level in the total order.
    pub open spec fn rank(self) -> int {
        match self {
            SupportLevel::Unsupported => 0,
            SupportLevel::Line => 1,
            SupportLevel::Bloc => 2,
            SupportLevel::Import => 3,
            SupportLevel::File => 4,
            SupportLevel::Project => 5,
        }
    }

    /// The rank as a machine integer.
    pub fn rank_value(self) -> (r: u8)
        ensures
            r as int == self.rank(),
    {
        match self {
            SupportLevel::Unsupported => 0,
            SupportLevel::Line => 1,
            SupportLevel::Bloc => 2,
            SupportLevel::Import => 3,
            SupportLevel::File => 4,
            SupportLevel::Project => 5,
        }
    }

    /// Whether `self` sits at or above `other` in the order.
    pub fn at_least(self, other: SupportLevel) -> (r: bool)
        ensures
            r == (self.rank() >= other.rank()),
    {
        self.rank_value() >= other.rank_value()
    }
}

/// The ranks order the levels totally: any two levels compare, and no two
/// levels share a rank.
pub proof fn lemma_levels_totally_ordered(a: SupportLevel, b: SupportLevel)
    ensures
        a.rank() <= b.rank() || b.rank() <= a.rank(),
        a.rank() == b.rank() ==> a == b,
{
}

} // verus!
