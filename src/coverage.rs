//! The three-step classification of a cell by who reaches it first.
use vstd::prelude::*;

verus! {

/// How well the defence covers a cell. Its value in the coverage layer is
/// `halves / 2`: 0.0, 0.5 or 1.0.
#[derive(Clone, Copy, Debug, PartialEq, Eq, Structural)]
pub enum CoverageLevel {
    Covered,
    SemiCovered,
    Open,
}

impl CoverageLevel {
    pub open spec fn halves_spec(self) -> nat {
        match self {
            CoverageLevel::Covered => 0,
            CoverageLevel::SemiCovered => 1,
            CoverageLevel::Open => 2,
        }
    }

    /// The layer value in halves.
    pub fn halves(&self) -> (h: u8)
        ensures
            h == self.halves_spec(),
    {
        match self {
            CoverageLevel::Covered => 0,
            CoverageLevel::SemiCovered => 1,
            CoverageLevel::Open => 2,
        }
    }
}

/// Classifies a cell. `defender_first`: the nearest receiver is no closer
/// than the nearest coverage-side defender plus the defender's handicap.
/// `defender_contests`: that handicapped defender distance is under half
/// the disc-to-cell distance. Each condition alone lowers the value (to 0
/// and to 1/2 respectively); the lower of the two is taken.
pub fn classify_cell(defender_first: bool, defender_contests: bool) -> (l: CoverageLevel)
    ensures
        l.halves_spec() == vstd::math::min(
            if defender_first { 0int } else { 2int },
            if defender_contests { 1int } else { 2int },
        ),
{
    if defender_first {
        CoverageLevel::Covered
    } else if defender_contests {
        CoverageLevel::SemiCovered
    } else {
        CoverageLevel::Open
    }
}

/// A coverage value is always 0, 1/2 or 1.
pub proof fn lemma_coverage_steps(l: CoverageLevel)
    ensures
        l.halves_spec() == 0 || l.halves_spec() == 1 || l.halves_spec() == 2,
{
}

} // verus!
