use prediction_market::{
    MarketError, MarketStatus, PredictionMarket, PredictionMarketEffect, PredictionMarketMessage,
};

const CREATOR: u64 = 1;
const ALICE: u64 = 2;
const BOB: u64 = 3;
const CAROL: u64 = 4;

/// One hour in milliseconds: a market created at time 0 with a duration of
/// 60 minutes ends at this timestamp.
const HOUR: u64 = 3_600_000;

fn yes_no_market(max_reward: u64) -> PredictionMarket {
    let mut pm = PredictionMarket::instantiate();
    let r = pm.create_market(
        Some(CREATOR),
        0,
        "Will it rain tomorrow?".to_string(),
        "A simple weather market".to_string(),
        60,
        vec!["Yes".to_string(), "No".to_string()],
        max_reward,
    );
    assert!(r.is_ok());
    pm
}

fn reward_of(pm: &PredictionMarket, market_id: u64, user: u64) -> u64 {
    let bet = pm
        .state
        .user_bets
        .iter()
        .find(|b| b.market_id == market_id && b.user == user)
        .expect("bet exists");
    bet.reward_amount
}

#[test]
fn instantiate_starts_empty() {
    let pm = PredictionMarket::instantiate();
    assert_eq!(pm.state.next_market_id, 1);
    assert!(pm.state.markets.is_empty());
    assert!(pm.state.user_bets.is_empty());
}

#[test]
fn create_market_assigns_ids_and_emits_event() {
    let mut pm = PredictionMarket::instantiate();
    let r = pm.create_market(
        Some(CREATOR),
        500,
        "Question?".to_string(),
        "Description".to_string(),
        2,
        vec!["A".to_string(), "B".to_string(), "C".to_string()],
        10,
    );
    assert_eq!(
        r.unwrap(),
        vec![PredictionMarketEffect::MarketCreated { market_id: 1, creator: CREATOR }]
    );
    assert_eq!(pm.state.next_market_id, 2);
    let m = &pm.state.markets[0];
    assert_eq!(m.id, 1);
    assert_eq!(m.creator, CREATOR);
    assert_eq!(m.end_time, 500 + 2 * 60_000);
    assert_eq!(m.status, MarketStatus::Active);
    assert_eq!(m.options.len(), 3);
    assert_eq!(m.bets, vec![0, 0, 0]);
    assert_eq!(m.total_pool, 0);
    assert_eq!(m.correct_answer, None);
    assert_eq!(m.created_at, 500);

    let r2 = pm.create_market(
        Some(ALICE),
        600,
        "Another?".to_string(),
        String::new(),
        1,
        vec!["X".to_string(), "Y".to_string()],
        5,
    );
    assert_eq!(
        r2.unwrap(),
        vec![PredictionMarketEffect::MarketCreated { market_id: 2, creator: ALICE }]
    );
    assert_eq!(pm.state.next_market_id, 3);
}

#[test]
fn create_market_rejects_bad_input() {
    let mut pm = PredictionMarket::instantiate();
    let r = pm.create_market(
        Some(CREATOR),
        0,
        String::new(),
        String::new(),
        1,
        vec!["A".to_string(), "B".to_string()],
        10,
    );
    assert_eq!(r.unwrap_err(), MarketError::InvalidInput);

    let r = pm.create_market(
        Some(CREATOR),
        0,
        "Q".to_string(),
        String::new(),
        1,
        vec!["A".to_string()],
        10,
    );
    assert_eq!(r.unwrap_err(), MarketError::InvalidInput);

    let r = pm.create_market(
        Some(CREATOR),
        0,
        "Q".to_string(),
        String::new(),
        1,
        vec!["A".to_string(), "B".to_string()],
        0,
    );
    assert_eq!(r.unwrap_err(), MarketError::InvalidInput);

    let r = pm.create_market(
        Some(CREATOR),
        0,
        "Q".to_string(),
        String::new(),
        1,
        vec!["A".to_string(), "A".to_string()],
        10,
    );
    assert_eq!(r.unwrap_err(), MarketError::InvalidInput);

    let r = pm.create_market(
        None,
        0,
        "Q".to_string(),
        String::new(),
        1,
        vec!["A".to_string(), "B".to_string()],
        10,
    );
    assert_eq!(r.unwrap_err(), MarketError::Unauthenticated);

    assert!(pm.state.markets.is_empty());
    assert_eq!(pm.state.next_market_id, 1);
}

#[test]
fn place_bet_records_stake_and_emits_event() {
    let mut pm = yes_no_market(1000);
    let r = pm.place_bet(Some(ALICE), 10, 1, "Yes".to_string(), 100);
    assert_eq!(
        r.unwrap(),
        vec![PredictionMarketEffect::BetPlaced {
            market_id: 1,
            user: ALICE,
            option: "Yes".to_string(),
            amount: 100,
        }]
    );
    let m = &pm.state.markets[0];
    assert_eq!(m.bets, vec![100, 0]);
    assert_eq!(m.total_pool, 100);
    let b = &pm.state.user_bets[0];
    assert_eq!(b.market_id, 1);
    assert_eq!(b.user, ALICE);
    assert_eq!(b.option, "Yes");
    assert_eq!(b.amount, 100);
    assert_eq!(b.timestamp, 10);
    assert!(!b.claimed);
    assert_eq!(b.reward_amount, 0);
}

#[test]
fn pools_always_sum_to_total() {
    let mut pm = yes_no_market(1000);
    pm.place_bet(Some(ALICE), 1, 1, "Yes".to_string(), 100).unwrap();
    pm.place_bet(Some(BOB), 2, 1, "No".to_string(), 300).unwrap();
    pm.place_bet(Some(CAROL), 3, 1, "Yes".to_string(), 100).unwrap();
    let m = &pm.state.markets[0];
    assert_eq!(m.bets.iter().sum::<u64>(), m.total_pool);
    assert_eq!(m.total_pool, 500);
    assert_eq!(m.bets, vec![200, 300]);
}

#[test]
fn place_bet_error_cases() {
    let mut pm = yes_no_market(1000);

    let r = pm.place_bet(Some(ALICE), 10, 1, "Yes".to_string(), 0);
    assert_eq!(r.unwrap_err(), MarketError::InvalidInput);

    let r = pm.place_bet(None, 10, 1, "Yes".to_string(), 5);
    assert_eq!(r.unwrap_err(), MarketError::Unauthenticated);

    let r = pm.place_bet(Some(ALICE), 10, 7, "Yes".to_string(), 5);
    assert_eq!(r.unwrap_err(), MarketError::MarketNotFound);

    let r = pm.place_bet(Some(ALICE), 10, 1, "Maybe".to_string(), 5);
    assert_eq!(r.unwrap_err(), MarketError::InvalidOption);

    assert!(pm.state.user_bets.is_empty());
    assert_eq!(pm.state.markets[0].total_pool, 0);
}

#[test]
fn second_bet_fails_with_duplicate_bet() {
    let mut pm = yes_no_market(1000);
    pm.place_bet(Some(ALICE), 10, 1, "Yes".to_string(), 100).unwrap();
    let r = pm.place_bet(Some(ALICE), 11, 1, "No".to_string(), 50);
    assert_eq!(r.unwrap_err(), MarketError::DuplicateBet);
    assert_eq!(pm.state.user_bets.len(), 1);
    assert_eq!(pm.state.markets[0].total_pool, 100);
    assert_eq!(pm.state.markets[0].bets, vec![100, 0]);
}

#[test]
fn bet_after_deadline_fails_even_while_status_reads_active() {
    let mut pm = yes_no_market(1000);
    assert_eq!(pm.state.markets[0].status, MarketStatus::Active);
    let r = pm.place_bet(Some(ALICE), HOUR, 1, "Yes".to_string(), 100);
    assert_eq!(r.unwrap_err(), MarketError::MarketEnded);
    assert_eq!(pm.state.markets[0].status, MarketStatus::Active);
    assert!(pm.state.user_bets.is_empty());
}

#[test]
fn proportional_rewards_truncated_and_zero_for_losers() {
    let mut pm = yes_no_market(1000);
    pm.place_bet(Some(ALICE), 1, 1, "Yes".to_string(), 100).unwrap();
    pm.place_bet(Some(BOB), 2, 1, "No".to_string(), 300).unwrap();
    pm.place_bet(Some(CAROL), 3, 1, "Yes".to_string(), 100).unwrap();

    let r = pm.resolve_market(Some(CREATOR), HOUR, 1, "Yes".to_string());
    assert_eq!(
        r.unwrap(),
        vec![PredictionMarketEffect::MarketResolved {
            market_id: 1,
            correct_answer: "Yes".to_string(),
        }]
    );
    let m = &pm.state.markets[0];
    assert_eq!(m.status, MarketStatus::Resolved);
    assert_eq!(m.correct_answer, Some("Yes".to_string()));
    // winning pool 200, total pool 500: each Yes bettor gets floor(100 * 500 / 200) = 250
    assert_eq!(reward_of(&pm, 1, ALICE), 250);
    assert_eq!(reward_of(&pm, 1, CAROL), 250);
    assert_eq!(reward_of(&pm, 1, BOB), 0);
}

#[test]
fn rewards_are_capped_at_max_reward() {
    let mut pm = yes_no_market(200);
    pm.place_bet(Some(ALICE), 1, 1, "Yes".to_string(), 100).unwrap();
    pm.place_bet(Some(BOB), 2, 1, "No".to_string(), 300).unwrap();
    pm.place_bet(Some(CAROL), 3, 1, "Yes".to_string(), 100).unwrap();

    pm.resolve_market(Some(CREATOR), HOUR, 1, "Yes".to_string()).unwrap();
    // computed share is 250 for each winner, capped at 200
    assert_eq!(reward_of(&pm, 1, ALICE), 200);
    assert_eq!(reward_of(&pm, 1, CAROL), 200);
    assert_eq!(reward_of(&pm, 1, BOB), 0);

    let winner_count = 2u64;
    let total_rewards: u64 = pm.state.user_bets.iter().map(|b| b.reward_amount).sum();
    assert!(total_rewards <= winner_count * pm.state.markets[0].max_reward);
}

#[test]
fn zero_winning_pool_resolves_without_error_and_pays_nothing() {
    let mut pm = yes_no_market(1000);
    pm.place_bet(Some(ALICE), 1, 1, "No".to_string(), 100).unwrap();
    pm.place_bet(Some(BOB), 2, 1, "No".to_string(), 300).unwrap();

    let r = pm.resolve_market(Some(CREATOR), HOUR, 1, "Yes".to_string());
    assert!(r.is_ok());
    assert_eq!(pm.state.markets[0].status, MarketStatus::Resolved);
    assert_eq!(reward_of(&pm, 1, ALICE), 0);
    assert_eq!(reward_of(&pm, 1, BOB), 0);
}

#[test]
fn resolve_error_cases() {
    let mut pm = yes_no_market(1000);
    pm.place_bet(Some(ALICE), 1, 1, "Yes".to_string(), 100).unwrap();

    let r = pm.resolve_market(None, HOUR, 1, "Yes".to_string());
    assert_eq!(r.unwrap_err(), MarketError::Unauthenticated);

    let r = pm.resolve_market(Some(CREATOR), HOUR, 9, "Yes".to_string());
    assert_eq!(r.unwrap_err(), MarketError::MarketNotFound);

    let r = pm.resolve_market(Some(CREATOR), HOUR - 1, 1, "Yes".to_string());
    assert_eq!(r.unwrap_err(), MarketError::TooEarly);

    let r = pm.resolve_market(Some(CREATOR), HOUR, 1, "Maybe".to_string());
    assert_eq!(r.unwrap_err(), MarketError::InvalidOption);

    assert_eq!(pm.state.markets[0].status, MarketStatus::Active);
    assert_eq!(reward_of(&pm, 1, ALICE), 0);
}

#[test]
fn resolve_by_non_creator_fails_and_twice_fails_with_already_resolved() {
    let mut pm = yes_no_market(1000);
    pm.place_bet(Some(ALICE), 1, 1, "Yes".to_string(), 100).unwrap();

    let r = pm.resolve_market(Some(ALICE), HOUR, 1, "Yes".to_string());
    assert_eq!(r.unwrap_err(), MarketError::Unauthorized);
    assert_eq!(pm.state.markets[0].status, MarketStatus::Active);

    pm.resolve_market(Some(CREATOR), HOUR, 1, "Yes".to_string()).unwrap();
    let r = pm.resolve_market(Some(CREATOR), HOUR + 1, 1, "Yes".to_string());
    assert_eq!(r.unwrap_err(), MarketError::AlreadyResolved);
}

#[test]
fn betting_on_resolved_market_fails_with_not_active() {
    let mut pm = yes_no_market(1000);
    pm.resolve_market(Some(CREATOR), HOUR, 1, "Yes".to_string()).unwrap();
    let r = pm.place_bet(Some(ALICE), HOUR + 1, 1, "Yes".to_string(), 5);
    assert_eq!(r.unwrap_err(), MarketError::NotActive);
}

#[test]
fn claim_pays_once_and_only_winners() {
    let mut pm = yes_no_market(1000);
    pm.place_bet(Some(ALICE), 1, 1, "Yes".to_string(), 100).unwrap();
    pm.place_bet(Some(BOB), 2, 1, "No".to_string(), 300).unwrap();

    let r = pm.claim_reward(Some(ALICE), 1);
    assert_eq!(r.unwrap_err(), MarketError::NotResolved);

    pm.resolve_market(Some(CREATOR), HOUR, 1, "Yes".to_string()).unwrap();

    let r = pm.claim_reward(None, 1);
    assert_eq!(r.unwrap_err(), MarketError::Unauthenticated);

    let r = pm.claim_reward(Some(ALICE), 5);
    assert_eq!(r.unwrap_err(), MarketError::MarketNotFound);

    let r = pm.claim_reward(Some(CAROL), 1);
    assert_eq!(r.unwrap_err(), MarketError::NoBet);

    let r = pm.claim_reward(Some(BOB), 1);
    assert_eq!(r.unwrap_err(), MarketError::DidNotWin);

    let r = pm.claim_reward(Some(ALICE), 1);
    assert_eq!(
        r.unwrap(),
        vec![PredictionMarketEffect::RewardClaimed { market_id: 1, user: ALICE, amount: 400 }]
    );
    assert!(pm.state.user_bets[0].claimed);
}

#[test]
fn second_claim_fails_and_reward_is_unchanged() {
    let mut pm = yes_no_market(1000);
    pm.place_bet(Some(ALICE), 1, 1, "Yes".to_string(), 100).unwrap();
    pm.resolve_market(Some(CREATOR), HOUR, 1, "Yes".to_string()).unwrap();

    let before = reward_of(&pm, 1, ALICE);
    pm.claim_reward(Some(ALICE), 1).unwrap();
    assert_eq!(reward_of(&pm, 1, ALICE), before);

    let r = pm.claim_reward(Some(ALICE), 1);
    assert_eq!(r.unwrap_err(), MarketError::AlreadyClaimed);
    assert_eq!(reward_of(&pm, 1, ALICE), before);
    assert!(pm.state.user_bets[0].claimed);
}

#[test]
fn execute_message_dispatches_all_actions() {
    let mut pm = PredictionMarket::instantiate();
    let r = pm.execute_message(
        Some(CREATOR),
        0,
        PredictionMarketMessage::CreateMarket {
            question: "Q?".to_string(),
            description: String::new(),
            duration_minutes: 60,
            options: vec!["Yes".to_string(), "No".to_string()],
            max_reward: 1000,
        },
    );
    assert_eq!(
        r.unwrap(),
        vec![PredictionMarketEffect::MarketCreated { market_id: 1, creator: CREATOR }]
    );

    let r = pm.execute_message(
        Some(ALICE),
        1,
        PredictionMarketMessage::PlaceBet { market_id: 1, option: "Yes".to_string(), amount: 80 },
    );
    assert_eq!(
        r.unwrap(),
        vec![PredictionMarketEffect::BetPlaced {
            market_id: 1,
            user: ALICE,
            option: "Yes".to_string(),
            amount: 80,
        }]
    );

    let r = pm.execute_message(
        Some(CREATOR),
        HOUR,
        PredictionMarketMessage::ResolveMarket {
            market_id: 1,
            correct_answer: "Yes".to_string(),
        },
    );
    assert_eq!(
        r.unwrap(),
        vec![PredictionMarketEffect::MarketResolved {
            market_id: 1,
            correct_answer: "Yes".to_string(),
        }]
    );

    let r = pm.execute_message(
        Some(ALICE),
        HOUR + 1,
        PredictionMarketMessage::ClaimReward { market_id: 1 },
    );
    assert_eq!(
        r.unwrap(),
        vec![PredictionMarketEffect::RewardClaimed { market_id: 1, user: ALICE, amount: 80 }]
    );
}

#[test]
fn execute_effect_changes_nothing() {
    let mut pm = yes_no_market(1000);
    let markets_before = pm.state.markets.len();
    let r = pm.execute_effect(PredictionMarketEffect::MarketCreated {
        market_id: 1,
        creator: CREATOR,
    });
    assert_eq!(r.unwrap(), Vec::<PredictionMarketEffect>::new());
    assert_eq!(pm.state.markets.len(), markets_before);
}

#[test]
fn large_stakes_do_not_overflow_the_reward_computation() {
    let big = 1_000_000_000_000u64;
    let mut pm = yes_no_market(u64::MAX);
    pm.place_bet(Some(ALICE), 1, 1, "Yes".to_string(), big).unwrap();
    pm.place_bet(Some(BOB), 2, 1, "No".to_string(), 3 * big).unwrap();
    pm.resolve_market(Some(CREATOR), HOUR, 1, "Yes".to_string()).unwrap();
    // winning pool = big, total pool = 4 * big: the winner is owed the whole pool
    assert_eq!(reward_of(&pm, 1, ALICE), 4 * big);
}

#[test]
fn resolution_touches_only_its_own_market() {
    let mut pm = PredictionMarket::instantiate();
    for q in ["First?", "Second?"] {
        pm.create_market(
            Some(CREATOR),
            0,
            q.to_string(),
            String::new(),
            60,
            vec!["Yes".to_string(), "No".to_string()],
            1000,
        )
        .unwrap();
    }
    pm.place_bet(Some(ALICE), 1, 1, "Yes".to_string(), 100).unwrap();
    pm.place_bet(Some(ALICE), 2, 2, "Yes".to_string(), 70).unwrap();
    pm.place_bet(Some(BOB), 3, 2, "No".to_string(), 30).unwrap();

    pm.resolve_market(Some(CREATOR), HOUR, 2, "Yes".to_string()).unwrap();

    assert_eq!(pm.state.markets[0].status, MarketStatus::Active);
    assert_eq!(reward_of(&pm, 1, ALICE), 0);
    // market 2: winning pool 70, total pool 100, share floor(70 * 100 / 70) = 100
    assert_eq!(reward_of(&pm, 2, ALICE), 100);
    assert_eq!(reward_of(&pm, 2, BOB), 0);

    let r = pm.claim_reward(Some(ALICE), 1);
    assert_eq!(r.unwrap_err(), MarketError::NotResolved);
    let r = pm.claim_reward(Some(ALICE), 2);
    assert_eq!(
        r.unwrap(),
        vec![PredictionMarketEffect::RewardClaimed { market_id: 2, user: ALICE, amount: 100 }]
    );
}
