use rustlib::game_structure::Deck;
use rustlib::phase;
use rustlib::phase::betting_round::BettingOrder;
use rustlib::{create_sample_game, GameStructure, Phase, StandardDeck};

#[test]
fn test_proto_instantiation() {
    let game = create_sample_game();

    // The description carries the values it was built with.
    assert_eq!(game.id, "test-game");
    assert_eq!(game.name, "Test Texas Hold'em");
    assert_eq!(game.phases.len(), 2);
    assert_eq!(game.community_board_count, 1);

    // The description can be printed.
    println!("Created game structure: {:?}", game);

    // The first phase is a player deal.
    match &game.phases[0].phase_type {
        Some(phase::PhaseType::PlayerDeal(deal)) => {
            assert_eq!(deal.cards, 2);
            assert_eq!(deal.face_up, false);
        }
        _ => panic!("Expected PlayerDeal phase"),
    }

    // The second phase is a betting round.
    match &game.phases[1].phase_type {
        Some(phase::PhaseType::BettingRound(betting)) => {
            assert_eq!(betting.name, "Pre-flop");
            assert_eq!(betting.min_bet, 1);
        }
        _ => panic!("Expected BettingRound phase"),
    }
}

#[test]
fn sample_game_has_its_id_and_name() {
    let game = create_sample_game();
    assert_eq!(game.id, "test-game");
    assert_eq!(game.name, "Test Texas Hold'em");
}

#[test]
fn sample_game_is_played_with_the_poker_deck() {
    let game = create_sample_game();
    assert_eq!(game.deck, Some(Deck::StandardDeck(StandardDeck::DeckPoker)));
}

#[test]
fn sample_game_deals_then_bets() {
    let game = create_sample_game();
    assert_eq!(game.phases.len(), 2);
    assert_eq!(
        game.phases[0],
        Phase {
            phase_type: Some(phase::PhaseType::PlayerDeal(phase::PlayerDeal {
                cards: 2,
                face_up: false,
            })),
        }
    );
    assert_eq!(
        game.phases[1],
        Phase {
            phase_type: Some(phase::PhaseType::BettingRound(phase::BettingRound {
                name: "Pre-flop".to_string(),
                min_bet: 1,
                order: BettingOrder::FollowBlinds,
            })),
        }
    );
}

#[test]
fn sample_game_betting_follows_the_blinds() {
    let game = create_sample_game();
    match &game.phases[1].phase_type {
        Some(phase::PhaseType::BettingRound(betting)) => {
            assert_eq!(betting.order, BettingOrder::FollowBlinds);
        }
        _ => panic!("the second phase is a betting round"),
    }
}

#[test]
fn sample_game_has_one_board_and_no_scoring() {
    let game = create_sample_game();
    assert_eq!(game.community_board_count, 1);
    assert!(game.scorings.is_empty());
    assert_eq!(game.scorings.len(), 0);
}

#[test]
fn sample_game_is_well_formed() {
    let game = create_sample_game();
    assert!(game.deck.is_some());
    assert!(game.phases.iter().all(|phase| phase.phase_type.is_some()));
}

#[test]
fn sample_game_is_the_whole_description() {
    let expected = GameStructure {
        id: "test-game".to_string(),
        name: "Test Texas Hold'em".to_string(),
        deck: Some(Deck::StandardDeck(StandardDeck::DeckPoker)),
        phases: vec![
            Phase {
                phase_type: Some(phase::PhaseType::PlayerDeal(phase::PlayerDeal {
                    cards: 2,
                    face_up: false,
                })),
            },
            Phase {
                phase_type: Some(phase::PhaseType::BettingRound(phase::BettingRound {
                    name: "Pre-flop".to_string(),
                    min_bet: 1,
                    order: BettingOrder::FollowBlinds,
                })),
            },
        ],
        community_board_count: 1,
        scorings: vec![],
    };
    assert_eq!(create_sample_game(), expected);
}

#[test]
fn every_call_builds_a_fresh_equal_game() {
    let mut first = create_sample_game();
    let second = create_sample_game();
    assert_eq!(first, second);

    // What is done to one description leaves the other alone.
    first.name.push_str(" (changed)");
    first.phases.pop();
    first.community_board_count = 5;
    assert_ne!(first, second);
    assert_eq!(second, create_sample_game());
    assert_eq!(second.name, "Test Texas Hold'em");
    assert_eq!(second.phases.len(), 2);
    assert_eq!(second.community_board_count, 1);
}
