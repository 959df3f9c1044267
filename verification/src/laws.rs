//! Ledger-wide guarantees, stated and proved once over the action contracts
//! and the well-formedness invariant.

use vstd::prelude::*;
use crate::state::{
    bet_idx, bet_won, has_bet, has_label, lemma_bet_idx, market_exists, market_of, state_wf,
    sum_amounts, winning_pool, AccountId, Amount, Bet, PredictionMarketState, Timestamp,
};
use crate::engine::{
    claim_reward_post, place_bet_err, place_bet_post, MarketError, PredictionMarketEffect,
};

verus! {

/// The rewards booked for `market_id` across a prefix of the bet ledger.
pub open spec fn sum_rewards_for_market(bets: Seq<Bet>, market_id: u64) -> int
    decreases bets.len(),
{
    if bets.len() == 0 {
        0
    } else {
        sum_rewards_for_market(bets.drop_last(), market_id) + if bets.last().market_id
            == market_id {
            bets.last().reward_amount as int
        } else {
            0
        }
    }
}

/// How many bets on `market_id` chose the option labelled `answer`.
pub open spec fn count_winners(bets: Seq<Bet>, market_id: u64, answer: Seq<char>) -> int
    decreases bets.len(),
{
    if bets.len() == 0 {
        0
    } else {
        count_winners(bets.drop_last(), market_id, answer) + if bets.last().market_id == market_id
            && bets.last().option@ == answer {
            1int
        } else {
            0int
        }
    }
}

/// In every well-formed ledger — and every action's contract re-establishes
/// well-formedness — each market's per-option pools sum exactly to its total
/// pool, however many bets have been placed.
pub proof fn law_option_pools_sum_to_total(s: PredictionMarketState, i: int)
    requires
        state_wf(s),
        0 <= i < s.markets@.len(),
    ensures
        sum_amounts(s.markets@[i].bets@) == s.markets@[i].total_pool,
{
}

/// No two bets by the same user on the same market can ever succeed: after
/// one has been placed, every further request by `u` for `market_id` is
/// rejected — whatever its option, amount or timing — and leaves the ledger
/// unchanged.
pub proof fn law_no_second_bet_succeeds(
    s0: PredictionMarketState,
    s1: PredictionMarketState,
    s2: PredictionMarketState,
    r1: Result<Vec<PredictionMarketEffect>, MarketError>,
    r2: Result<Vec<PredictionMarketEffect>, MarketError>,
    u: AccountId,
    now1: Timestamp,
    now2: Timestamp,
    market_id: u64,
    option1: String,
    option2: String,
    amount1: Amount,
    amount2: Amount,
)
    requires
        place_bet_post(s0, s1, r1, Some(u), now1, market_id, option1, amount1),
        r1 is Ok,
        place_bet_post(s1, s2, r2, Some(u), now2, market_id, option2, amount2),
    ensures
        r2 is Err,
        s2 == s1,
{
    assert(place_bet_err(s0, Some(u), now1, market_id, option1@, amount1) is None);
    let n0 = s0.user_bets@.len() as int;
    assert(s1.user_bets@[n0].market_id == market_id && s1.user_bets@[n0].user == u);
    assert(has_bet(s1, market_id, u));
    assert(place_bet_err(s1, Some(u), now2, market_id, option2@, amount2) is Some);
}

/// Where a repeated bet passes every earlier check — a positive amount on a
/// still-open market and a valid option — the rejection is specifically
/// `DuplicateBet`.
pub proof fn law_second_bet_rejected(
    s0: PredictionMarketState,
    s1: PredictionMarketState,
    s2: PredictionMarketState,
    r1: Result<Vec<PredictionMarketEffect>, MarketError>,
    r2: Result<Vec<PredictionMarketEffect>, MarketError>,
    u: AccountId,
    now1: Timestamp,
    now2: Timestamp,
    market_id: u64,
    option1: String,
    option2: String,
    amount1: Amount,
    amount2: Amount,
)
    requires
        place_bet_post(s0, s1, r1, Some(u), now1, market_id, option1, amount1),
        r1 is Ok,
        place_bet_post(s1, s2, r2, Some(u), now2, market_id, option2, amount2),
        amount2 > 0,
        now2 < market_of(s1, market_id).end_time,
        has_label(market_of(s1, market_id).options@, option2@),
    ensures
        r2 matches Err(e) && e == MarketError::DuplicateBet,
        s2 == s1,
{
    assert(place_bet_err(s0, Some(u), now1, market_id, option1@, amount1) is None);
    let n0 = s0.user_bets@.len() as int;
    assert(s1.user_bets@[n0].market_id == market_id && s1.user_bets@[n0].user == u);
    assert(has_bet(s1, market_id, u));
    assert(place_bet_err(s1, Some(u), now2, market_id, option2@, amount2) == Some(
        MarketError::DuplicateBet,
    ));
}

/// Rewards never outrun the cap: on any well-formed ledger, the rewards
/// booked for a resolved market total at most the number of winning bets
/// times the market's per-winner cap, and every bet not on the winning
/// option is owed exactly zero.
pub proof fn law_rewards_capped(s: PredictionMarketState, i: int)
    requires
        state_wf(s),
        0 <= i < s.markets@.len(),
        s.markets@[i].status is Resolved,
    ensures
        s.markets@[i].correct_answer matches Some(a) && sum_rewards_for_market(
            s.user_bets@,
            (i + 1) as u64,
        ) <= count_winners(s.user_bets@, (i + 1) as u64, a@) * s.markets@[i].max_reward,
        forall|j: int| 0 <= j < s.user_bets@.len() && s.user_bets@[j].market_id == i + 1
            && !bet_won(s.markets@[i], #[trigger] s.user_bets@[j]) ==> s.user_bets@[j].reward_amount
            == 0,
{
    let m = s.markets@[i];
    let a = m.correct_answer.unwrap();
    lemma_rewards_capped_prefix(s, (i + 1) as u64, a@, s.user_bets@.len() as int);
    assert(s.user_bets@.take(s.user_bets@.len() as int) =~= s.user_bets@);
}

/// Induction over a prefix of the bet ledger for `law_rewards_capped`:
/// each winning bet contributes at most `max_reward`, every other bet of
/// the market contributes zero.
proof fn lemma_rewards_capped_prefix(
    s: PredictionMarketState,
    market_id: u64,
    answer: Seq<char>,
    n: int,
)
    requires
        state_wf(s),
        market_exists(s, market_id),
        market_of(s, market_id).status is Resolved,
        market_of(s, market_id).correct_answer matches Some(a) && a@ == answer,
        0 <= n <= s.user_bets@.len(),
    ensures
        sum_rewards_for_market(s.user_bets@.take(n), market_id) <= count_winners(
            s.user_bets@.take(n),
            market_id,
            answer,
        ) * market_of(s, market_id).max_reward,
    decreases n,
{
    let mr = market_of(s, market_id).max_reward as int;
    if n > 0 {
        lemma_rewards_capped_prefix(s, market_id, answer, n - 1);
        let t = s.user_bets@.take(n);
        assert(t.drop_last() =~= s.user_bets@.take(n - 1));
        let b = s.user_bets@[n - 1];
        assert(crate::state::bet_wf(s, b));
        let c = count_winners(s.user_bets@.take(n - 1), market_id, answer);
        assert((c + 1) * mr == c * mr + mr) by (nonlinear_arith);
        lemma_count_winners_nonneg(s.user_bets@.take(n - 1), market_id, answer);
    }
}

/// A winner count is never negative.
proof fn lemma_count_winners_nonneg(bets: Seq<Bet>, market_id: u64, answer: Seq<char>)
    ensures
        count_winners(bets, market_id, answer) >= 0,
    decreases bets.len(),
{
    if bets.len() > 0 {
        lemma_count_winners_nonneg(bets.drop_last(), market_id, answer);
    }
}

/// A market resolved to an option nobody staked on pays nothing: when the
/// winning pool is zero, every bet on the market — winner or not — is owed
/// a zero reward, and that outcome is not an error.
pub proof fn law_zero_winning_pool(s: PredictionMarketState, i: int)
    requires
        state_wf(s),
        0 <= i < s.markets@.len(),
        s.markets@[i].status is Resolved,
        winning_pool(s.markets@[i]) == 0,
    ensures
        forall|j: int| 0 <= j < s.user_bets@.len() && (#[trigger] s.user_bets@[j]).market_id == i
            + 1 ==> s.user_bets@[j].reward_amount == 0,
{
    assert forall|j: int| 0 <= j < s.user_bets@.len() && (#[trigger] s.user_bets@[j]).market_id
        == i + 1 implies s.user_bets@[j].reward_amount == 0 by {
        assert(crate::state::bet_wf(s, s.user_bets@[j]));
    }
}

/// Claiming is idempotent-safe: after a successful claim, a second claim by
/// the same user on the same market is rejected with `AlreadyClaimed` and
/// leaves the ledger unchanged; and claiming never changes the bet's reward
/// amount.
pub proof fn law_second_claim_rejected(
    s0: PredictionMarketState,
    s1: PredictionMarketState,
    s2: PredictionMarketState,
    r1: Result<Vec<PredictionMarketEffect>, MarketError>,
    r2: Result<Vec<PredictionMarketEffect>, MarketError>,
    u: AccountId,
    market_id: u64,
)
    requires
        state_wf(s0),
        claim_reward_post(s0, s1, r1, Some(u), market_id),
        r1 is Ok,
        claim_reward_post(s1, s2, r2, Some(u), market_id),
    ensures
        r2 matches Err(e) && e == MarketError::AlreadyClaimed,
        s2 == s1,
        bet_idx(s1, market_id, u) == bet_idx(s0, market_id, u),
        s1.user_bets@[bet_idx(s1, market_id, u)].reward_amount == s0.user_bets@[bet_idx(
            s0,
            market_id,
            u,
        )].reward_amount,
{
    assert(crate::engine::claim_reward_err(s0, Some(u), market_id) is None);
    let bi = bet_idx(s0, market_id, u);
    let b0 = s0.user_bets@[bi];
    assert(has_bet(s0, market_id, u));
    assert(0 <= bi < s0.user_bets@.len() && b0.market_id == market_id && b0.user == u);
    assert(s1.user_bets@[bi].market_id == market_id && s1.user_bets@[bi].user == u);
    assert forall|p: int, q: int| 0 <= p < q < s1.user_bets@.len() implies !(s1.user_bets@[p].market_id
        == s1.user_bets@[q].market_id && s1.user_bets@[p].user == s1.user_bets@[q].user) by {
        assert(s1.user_bets@[p].market_id == s0.user_bets@[p].market_id && s1.user_bets@[p].user
            == s0.user_bets@[p].user);
        assert(s1.user_bets@[q].market_id == s0.user_bets@[q].market_id && s1.user_bets@[q].user
            == s0.user_bets@[q].user);
    }
    lemma_bet_idx(s1, market_id, u, bi);
    assert(s1.user_bets@[bi].claimed);
    assert(crate::engine::claim_reward_err(s1, Some(u), market_id) == Some(
        MarketError::AlreadyClaimed,
    ));
}

} // verus!
