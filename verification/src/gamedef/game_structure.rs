//! The deck a game is played with.

use vstd::prelude::*;

use crate::gamedef::StandardDeck;

verus! {

/// How the deck of a game is chosen: exactly one of the ways.
#[non_exhaustive]
#[derive(Clone, Copy, Debug, PartialEq, Eq, Hash)]
pub enum Deck {
    /// One of the well-known decks.
    StandardDeck(StandardDeck),
}

} // verus!
