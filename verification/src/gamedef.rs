//! The data contract for game descriptions.
//!
//! A [`GameStructure`] describes a card game: the deck it is played with, the
//! phases it runs through in order, the number of community boards and the
//! scoring rules. The deck of a game and the kind of a phase are tagged
//! unions held in an `Option`; a description is well formed when each of them
//! is populated.

use vstd::prelude::*;

use crate::gamedef::game_structure::Deck;
use crate::gamedef::phase::{PhaseType, PhaseTypeView};

pub mod game_structure;
pub mod phase;

verus! {

/// The well-known decks.
#[non_exhaustive]
#[derive(Clone, Copy, Debug, PartialEq, Eq, Hash)]
pub enum StandardDeck {
    /// The 52-card poker deck.
    DeckPoker,
}

/// A rule by which hands are scored.
#[non_exhaustive]
#[derive(Clone, Copy, Debug, PartialEq, Eq, Hash)]
pub struct Scoring {}

/// One step of the game.
#[derive(Clone, Debug, PartialEq, Eq, Hash)]
pub struct Phase {
    /// What happens in this phase.
    pub phase_type: Option<PhaseType>,
}

/// The mathematical value of a [`Phase`].
pub struct PhaseView {
    pub phase_type: Option<PhaseTypeView>,
}

impl View for Phase {
    type V = PhaseView;

    open spec fn view(&self) -> PhaseView {
        PhaseView {
            phase_type: match self.phase_type {
                Some(kind) => Some(kind@),
                None => None,
            },
        }
    }
}

/// The description of a game.
#[derive(Clone, Debug, PartialEq, Eq, Hash)]
pub struct GameStructure {
    /// The identifier of the game.
    pub id: String,
    /// The name shown to players.
    pub name: String,
    /// The deck the game is played with.
    pub deck: Option<Deck>,
    /// The phases, in the order in which they are played.
    pub phases: Vec<Phase>,
    /// How many community boards are shared by the players.
    pub community_board_count: i32,
    /// The scoring rules.
    pub scorings: Vec<Scoring>,
}

/// The mathematical value of a [`GameStructure`].
pub struct GameStructureView {
    pub id: Seq<char>,
    pub name: Seq<char>,
    pub deck: Option<Deck>,
    pub phases: Seq<PhaseView>,
    pub community_board_count: int,
    pub scorings: Seq<Scoring>,
}

impl GameStructureView {
    /// Every tagged union of the description is populated: the game has a
    /// deck, and each phase has a kind.
    pub open spec fn well_formed(self) -> bool {
        &&& self.deck is Some
        &&& forall|i: int|
            0 <= i < self.phases.len() ==> (#[trigger] self.phases[i]).phase_type is Some
    }
}

impl View for GameStructure {
    type V = GameStructureView;

    open spec fn view(&self) -> GameStructureView {
        GameStructureView {
            id: self.id@,
            name: self.name@,
            deck: self.deck,
            phases: self.phases@.map_values(|p: Phase| p@),
            community_board_count: self.community_board_count as int,
            scorings: self.scorings@,
        }
    }
}

impl GameStructure {
    /// The description is well formed when its value is.
    pub open spec fn well_formed(&self) -> bool {
        self@.well_formed()
    }
}

} // verus!
