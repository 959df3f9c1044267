use prediction_market::query::{bet_to_response, market_to_response, u64_to_string};
use prediction_market::{MarketStatus, PredictionMarket, QueryRoot};

const CREATOR: u64 = 1;
const ALICE: u64 = 2;
const BOB: u64 = 3;

const HOUR: u64 = 3_600_000;

fn sample() -> PredictionMarket {
    let mut pm = PredictionMarket::instantiate();
    pm.create_market(
        Some(CREATOR),
        0,
        "Will it rain tomorrow?".to_string(),
        "A simple weather market".to_string(),
        60,
        vec!["Yes".to_string(), "No".to_string()],
        1000,
    )
    .unwrap();
    pm.place_bet(Some(ALICE), 1, 1, "Yes".to_string(), 100).unwrap();
    pm.place_bet(Some(BOB), 2, 1, "No".to_string(), 300).unwrap();
    pm
}

#[test]
fn u64_renders_as_decimal() {
    assert_eq!(u64_to_string(0), "0");
    assert_eq!(u64_to_string(7), "7");
    assert_eq!(u64_to_string(10), "10");
    assert_eq!(u64_to_string(1_234_567_890), "1234567890");
    assert_eq!(u64_to_string(u64::MAX), "18446744073709551615");
}

#[test]
fn market_renders_every_field() {
    let pm = sample();
    let r = market_to_response(&pm.state.markets[0]);
    assert_eq!(r.id, 1);
    assert_eq!(r.creator, "1");
    assert_eq!(r.question, "Will it rain tomorrow?");
    assert_eq!(r.description, "A simple weather market");
    assert_eq!(r.end_time, HOUR as i64);
    assert_eq!(r.status, "Active");
    assert_eq!(r.options, vec!["Yes".to_string(), "No".to_string()]);
    assert_eq!(r.correct_answer, None);
    assert_eq!(r.bets.len(), 2);
    assert_eq!(r.bets[0].option, "Yes");
    assert_eq!(r.bets[0].amount, "100");
    assert_eq!(r.bets[1].option, "No");
    assert_eq!(r.bets[1].amount, "300");
    assert_eq!(r.total_pool, "400");
    assert_eq!(r.max_reward, "1000");
    assert_eq!(r.created_at, 0);
}

#[test]
fn market_rendering_skips_unstaked_options() {
    let mut pm = PredictionMarket::instantiate();
    pm.create_market(
        Some(CREATOR),
        0,
        "Q?".to_string(),
        String::new(),
        60,
        vec!["A".to_string(), "B".to_string(), "C".to_string()],
        10,
    )
    .unwrap();
    pm.place_bet(Some(ALICE), 1, 1, "C".to_string(), 42).unwrap();
    let r = market_to_response(&pm.state.markets[0]);
    assert_eq!(r.bets.len(), 1);
    assert_eq!(r.bets[0].option, "C");
    assert_eq!(r.bets[0].amount, "42");
}

#[test]
fn resolved_market_renders_status_and_answer() {
    let mut pm = sample();
    pm.resolve_market(Some(CREATOR), HOUR, 1, "Yes".to_string()).unwrap();
    let r = market_to_response(&pm.state.markets[0]);
    assert_eq!(r.status, "Resolved");
    assert_eq!(r.correct_answer, Some("Yes".to_string()));
}

#[test]
fn bet_renders_every_field() {
    let pm = sample();
    let r = bet_to_response(&pm.state.user_bets[0]);
    assert_eq!(r.market_id, 1);
    assert_eq!(r.user, "2");
    assert_eq!(r.option, "Yes");
    assert_eq!(r.amount, "100");
    assert_eq!(r.timestamp, 1);
    assert!(!r.claimed);
    assert_eq!(r.reward_amount, "0");
}

#[test]
fn query_root_lists_markets() {
    let mut pm = sample();
    pm.create_market(
        Some(CREATOR),
        10,
        "Second?".to_string(),
        String::new(),
        1,
        vec!["X".to_string(), "Y".to_string()],
        5,
    )
    .unwrap();
    let q = QueryRoot;
    let all = q.markets(&pm.state);
    assert_eq!(all.len(), 2);
    assert_eq!(all[0].id, 1);
    assert_eq!(all[1].id, 2);
    assert_eq!(all[1].question, "Second?");
}

#[test]
fn query_root_finds_market_by_id() {
    let pm = sample();
    let q = QueryRoot;
    let found = q.market(&pm.state, 1);
    assert_eq!(found.unwrap().question, "Will it rain tomorrow?");
    assert!(q.market(&pm.state, 0).is_none());
    assert!(q.market(&pm.state, 2).is_none());
}

#[test]
fn query_root_lists_bets_of_a_market() {
    let pm = sample();
    let q = QueryRoot;
    let bets = q.user_bets(&pm.state, 1, String::new());
    assert_eq!(bets.len(), 2);
    assert_eq!(bets[0].user, "2");
    assert_eq!(bets[1].user, "3");
    let none = q.user_bets(&pm.state, 9, String::new());
    assert!(none.is_empty());
}

#[test]
fn query_root_lists_claimable_rewards() {
    let mut pm = sample();
    let q = QueryRoot;
    assert!(q.claimable_rewards(&pm.state, ALICE).is_empty());

    pm.resolve_market(Some(CREATOR), HOUR, 1, "Yes".to_string()).unwrap();
    let rewards = q.claimable_rewards(&pm.state, ALICE);
    assert_eq!(rewards.len(), 1);
    assert_eq!(rewards[0].market_id, 1);
    assert_eq!(rewards[0].user, "2");
    assert_eq!(rewards[0].amount, "400");
    assert!(!rewards[0].claimed);

    assert!(q.claimable_rewards(&pm.state, BOB).is_empty());

    pm.claim_reward(Some(ALICE), 1).unwrap();
    assert!(q.claimable_rewards(&pm.state, ALICE).is_empty());
}
