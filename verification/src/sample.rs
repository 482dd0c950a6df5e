//! A sample game description: a two-phase Texas Hold'em.

use vstd::prelude::*;

use crate::gamedef::game_structure::Deck;
use crate::gamedef::phase::betting_round::BettingOrder;
use crate::gamedef::phase::{
    BettingRound, BettingRoundView, PhaseType, PhaseTypeView, PlayerDeal, PlayerDealView,
};
use crate::gamedef::{GameStructure, GameStructureView, Phase, PhaseView, StandardDeck};

verus! {

/// The value of the sample game: a poker deck, two hole cards dealt face
/// down to each player, one pre-flop betting round that follows the blinds,
/// one community board and no scoring rule.
pub open spec fn sample_game() -> GameStructureView {
    GameStructureView {
        id: "test-game"@,
        name: "Test Texas Hold'em"@,
        deck: Some(Deck::StandardDeck(StandardDeck::DeckPoker)),
        phases: seq![
            PhaseView {
                phase_type: Some(
                    PhaseTypeView::PlayerDeal(PlayerDealView { cards: 2, face_up: false }),
                ),
            },
            PhaseView {
                phase_type: Some(
                    PhaseTypeView::BettingRound(
                        BettingRoundView {
                            name: "Pre-flop"@,
                            min_bet: 1,
                            order: BettingOrder::FollowBlinds,
                        },
                    ),
                ),
            },
        ],
        community_board_count: 1,
        scorings: Seq::empty(),
    }
}

/// Creates the sample game. Every call builds a fresh description of the
/// same value.
pub fn create_sample_game() -> (game: GameStructure)
    ensures
        game@ == sample_game(),
        game.well_formed(),
{
    let game = GameStructure {
        id: "test-game".to_string(),
        name: "Test Texas Hold'em".to_string(),
        deck: Some(Deck::StandardDeck(StandardDeck::DeckPoker)),
        phases: vec![
            Phase {
                phase_type: Some(PhaseType::PlayerDeal(PlayerDeal { cards: 2, face_up: false })),
            },
            Phase {
                phase_type: Some(
                    PhaseType::BettingRound(
                        BettingRound {
                            name: "Pre-flop".to_string(),
                            min_bet: 1,
                            order: BettingOrder::FollowBlinds,
                        },
                    ),
                ),
            },
        ],
        community_board_count: 1,
        scorings: Vec::new(),
    };
    assert(game@.phases =~= sample_game().phases);
    game
}

} // verus!
