//! Enumerations that belong to a betting round.

use vstd::prelude::*;

verus! {

/// The order in which the players act in a betting round.
#[non_exhaustive]
#[derive(Clone, Copy, Debug, PartialEq, Eq, Hash)]
pub enum BettingOrder {
    /// Action follows the blinds.
    FollowBlinds,
}

} // verus!
