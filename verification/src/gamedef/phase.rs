//! The kinds of phase a game is played in.

use vstd::prelude::*;

use crate::gamedef::phase::betting_round::BettingOrder;

pub mod betting_round;

verus! {

/// Cards are dealt to every player.
#[derive(Clone, Copy, Debug, PartialEq, Eq, Hash)]
pub struct PlayerDeal {
    /// How many cards each player receives.
    pub cards: i32,
    /// Whether the cards are dealt face up.
    pub face_up: bool,
}

/// The mathematical value of a [`PlayerDeal`].
pub struct PlayerDealView {
    pub cards: int,
    pub face_up: bool,
}

impl View for PlayerDeal {
    type V = PlayerDealView;

    open spec fn view(&self) -> PlayerDealView {
        PlayerDealView { cards: self.cards as int, face_up: self.face_up }
    }
}

/// The players bet.
#[derive(Clone, Debug, PartialEq, Eq, Hash)]
pub struct BettingRound {
    /// The name of the round.
    pub name: String,
    /// The smallest bet that the round accepts.
    pub min_bet: i32,
    /// The order in which the players act.
    pub order: BettingOrder,
}

/// The mathematical value of a [`BettingRound`].
pub struct BettingRoundView {
    pub name: Seq<char>,
    pub min_bet: int,
    pub order: BettingOrder,
}

impl View for BettingRound {
    type V = BettingRoundView;

    open spec fn view(&self) -> BettingRoundView {
        BettingRoundView { name: self.name@, min_bet: self.min_bet as int, order: self.order }
    }
}

/// What happens in a phase: exactly one of the kinds.
#[non_exhaustive]
#[derive(Clone, Debug, PartialEq, Eq, Hash)]
pub enum PhaseType {
    PlayerDeal(PlayerDeal),
    BettingRound(BettingRound),
}

/// The mathematical value of a [`PhaseType`].
pub enum PhaseTypeView {
    PlayerDeal(PlayerDealView),
    BettingRound(BettingRoundView),
}

impl View for PhaseType {
    type V = PhaseTypeView;

    open spec fn view(&self) -> PhaseTypeView {
        match *self {
            PhaseType::PlayerDeal(deal) => PhaseTypeView::PlayerDeal(deal@),
            PhaseType::BettingRound(round) => PhaseTypeView::BettingRound(round@),
        }
    }
}

} // verus!
