//! The read-only view layer: response and input shapes for the external
//! query surface, and the verified rendering of ledger records into them.
//! Rendering never mutates the ledger.

use vstd::prelude::*;
use crate::state::{
    market_exists, market_of, AccountId, Amount, Bet, Market, MarketStatus, PredictionMarketState,
};

verus! {

/// A market rendered for the query surface; amounts are decimal strings.
#[derive(Clone, Debug)]
pub struct MarketResponse {
    pub id: u64,
    pub creator: String,
    pub question: String,
    pub description: String,
    pub end_time: i64,
    pub status: String,
    pub options: Vec<String>,
    pub correct_answer: Option<String>,
    pub bets: Vec<OptionBetResponse>,
    pub total_pool: String,
    pub max_reward: String,
    pub created_at: i64,
}

/// One option's accumulated stake, rendered for the query surface.
#[derive(Clone, Debug)]
pub struct OptionBetResponse {
    pub option: String,
    pub amount: String,
}

/// A bet rendered for the query surface.
#[derive(Clone, Debug)]
pub struct BetResponse {
    pub market_id: u64,
    pub user: String,
    pub option: String,
    pub amount: String,
    pub timestamp: i64,
    pub claimed: bool,
    pub reward_amount: String,
}

/// An unclaimed positive reward, rendered for the query surface.
#[derive(Clone, Debug)]
pub struct RewardResponse {
    pub market_id: u64,
    pub user: String,
    pub amount: String,
    pub claimed: bool,
}

/// A market's pool figures, rendered for subscription updates.
#[derive(Clone, Debug)]
pub struct PoolUpdateResponse {
    pub market_id: u64,
    pub total_pool: String,
    pub option_bets: Vec<OptionBetResponse>,
}

/// The external shape of a CreateMarket request.
#[derive(Clone, Debug)]
pub struct CreateMarketInput {
    pub question: String,
    pub description: String,
    pub duration_minutes: u64,
    pub options: Vec<String>,
    pub max_reward: String,
}

/// The external shape of a PlaceBet request.
#[derive(Clone, Debug)]
pub struct PlaceBetInput {
    pub market_id: u64,
    pub option: String,
    pub amount: String,
}

/// The external shape of a ResolveMarket request.
#[derive(Clone, Debug)]
pub struct ResolveMarketInput {
    pub market_id: u64,
    pub correct_answer: String,
}

/// The external shape of a ClaimReward request.
#[derive(Clone, Debug)]
pub struct ClaimRewardInput {
    pub market_id: u64,
}

/// The decimal digit character for a value below ten.
pub open spec fn dec_digit(d: int) -> char {
    if d == 0 {
        '0'
    } else if d == 1 {
        '1'
    } else if d == 2 {
        '2'
    } else if d == 3 {
        '3'
    } else if d == 4 {
        '4'
    } else if d == 5 {
        '5'
    } else if d == 6 {
        '6'
    } else if d == 7 {
        '7'
    } else if d == 8 {
        '8'
    } else {
        '9'
    }
}

/// The decimal rendering of a non-negative integer, most significant digit
/// first, with no leading zeros (a lone zero for zero itself).
pub open spec fn spec_udec(n: int) -> Seq<char>
    decreases n,
{
    if n < 10 {
        seq![dec_digit(n)]
    } else {
        spec_udec(n / 10).push(dec_digit(n % 10))
    }
}

/// A timestamp clamped into a signed 64-bit value.
pub open spec fn spec_ts_i64(t: u64) -> int {
    if t <= i64::MAX {
        t as int
    } else {
        i64::MAX as int
    }
}

/// The label the query surface shows for a status.
pub open spec fn status_label(st: MarketStatus) -> Seq<char> {
    match st {
        MarketStatus::Active => "Active"@,
        MarketStatus::Locked => "Locked"@,
        MarketStatus::Resolved => "Resolved"@,
    }
}

/// The one-character string for a decimal digit.
fn digit_str(d: u64) -> (s: &'static str)
    requires
        d < 10,
    ensures
        s@ == seq![dec_digit(d as int)],
{
    match d {
        0 => {
            proof {
                reveal_strlit("0");
                assert("0"@ =~= seq![dec_digit(0)]);
            }
            "0"
        },
        1 => {
            proof {
                reveal_strlit("1");
                assert("1"@ =~= seq![dec_digit(1)]);
            }
            "1"
        },
        2 => {
            proof {
                reveal_strlit("2");
                assert("2"@ =~= seq![dec_digit(2)]);
            }
            "2"
        },
        3 => {
            proof {
                reveal_strlit("3");
                assert("3"@ =~= seq![dec_digit(3)]);
            }
            "3"
        },
        4 => {
            proof {
                reveal_strlit("4");
                assert("4"@ =~= seq![dec_digit(4)]);
            }
            "4"
        },
        5 => {
            proof {
                reveal_strlit("5");
                assert("5"@ =~= seq![dec_digit(5)]);
            }
            "5"
        },
        6 => {
            proof {
                reveal_strlit("6");
                assert("6"@ =~= seq![dec_digit(6)]);
            }
            "6"
        },
        7 => {
            proof {
                reveal_strlit("7");
                assert("7"@ =~= seq![dec_digit(7)]);
            }
            "7"
        },
        8 => {
            proof {
                reveal_strlit("8");
                assert("8"@ =~= seq![dec_digit(8)]);
            }
            "8"
        },
        _ => {
            proof {
                reveal_strlit("9");
                assert("9"@ =~= seq![dec_digit(d as int)]);
            }
            "9"
        },
    }
}

/// Render an unsigned value as its decimal string.
pub fn u64_to_string(n: u64) -> (s: String)
    ensures
        s@ == spec_udec(n as int),
    decreases n,
{
    if n < 10 {
        String::from_str(digit_str(n))
    } else {
        let mut s = u64_to_string(n / 10);
        s.append(digit_str(n % 10));
        proof {
            assert(s@ =~= spec_udec(n as int));
        }
        s
    }
}

/// Clamp a timestamp into a signed 64-bit value.
fn timestamp_to_i64(t: u64) -> (r: i64)
    ensures
        r == spec_ts_i64(t),
{
    if t > i64::MAX as u64 {
        i64::MAX
    } else {
        t as i64
    }
}

/// Render a status as the label the query surface shows.
fn status_str(st: MarketStatus) -> (s: String)
    ensures
        s@ == status_label(st),
{
    match st {
        MarketStatus::Active => String::from_str("Active"),
        MarketStatus::Locked => String::from_str("Locked"),
        MarketStatus::Resolved => String::from_str("Resolved"),
    }
}

/// The (label, stake) pairs of a market, in option order.
pub open spec fn pairs_of(m: Market) -> Seq<(String, Amount)> {
    Seq::new(m.options@.len(), |i: int| (m.options@[i], m.bets@[i]))
}

/// The pairs whose stake is positive, in order: exactly the entries the
/// rendered market shows.
pub open spec fn positive_entries(pairs: Seq<(String, Amount)>) -> Seq<(String, Amount)> {
    pairs.filter(|p: (String, Amount)| p.1 > 0)
}

/// How a rendered option entry relates to its ledger pair.
pub open spec fn option_bet_matches(r: OptionBetResponse, p: (String, Amount)) -> bool {
    r.option@ == p.0@ && r.amount@ == spec_udec(p.1 as int)
}

/// How a rendered market relates to its ledger record, field by field.
pub open spec fn market_response_matches(r: MarketResponse, m: Market) -> bool {
    &&& r.id == m.id
    &&& r.creator@ == spec_udec(m.creator as int)
    &&& r.question@ == m.question@
    &&& r.description@ == m.description@
    &&& r.end_time == spec_ts_i64(m.end_time)
    &&& r.status@ == status_label(m.status)
    &&& r.options@ == m.options@
    &&& r.correct_answer == m.correct_answer
    &&& r.bets@.len() == positive_entries(pairs_of(m)).len()
    &&& (forall|i: int| 0 <= i < r.bets@.len() ==> option_bet_matches(
        #[trigger] r.bets@[i],
        positive_entries(pairs_of(m))[i],
    ))
    &&& r.total_pool@ == spec_udec(m.total_pool as int)
    &&& r.max_reward@ == spec_udec(m.max_reward as int)
    &&& r.created_at == spec_ts_i64(m.created_at)
}

/// How a rendered bet relates to its ledger record, field by field.
pub open spec fn bet_response_matches(r: BetResponse, b: Bet) -> bool {
    &&& r.market_id == b.market_id
    &&& r.user@ == spec_udec(b.user as int)
    &&& r.option@ == b.option@
    &&& r.amount@ == spec_udec(b.amount as int)
    &&& r.timestamp == spec_ts_i64(b.timestamp)
    &&& r.claimed == b.claimed
    &&& r.reward_amount@ == spec_udec(b.reward_amount as int)
}

/// Clone a list of labels.
fn clone_labels(options: &Vec<String>) -> (r: Vec<String>)
    ensures
        r@ == options@,
{
    let mut r: Vec<String> = Vec::new();
    let n = options.len();
    let mut i: usize = 0;
    while i < n
        invariant
            i <= n,
            n == options@.len(),
            r@ == options@.take(i as int),
        decreases n - i,
    {
        r.push(options[i].clone());
        proof {
            assert(r@ =~= options@.take(i as int + 1));
        }
        i = i + 1;
    }
    proof {
        assert(options@.take(n as int) =~= options@);
    }
    r
}

/// Render a market for the query surface: every scalar as shown above, and
/// one entry per option that received stake, in option order.
#[verifier::loop_isolation(false)]
pub fn market_to_response(m: &Market) -> (r: MarketResponse)
    requires
        m.bets@.len() == m.options@.len(),
    ensures
        market_response_matches(r, *m),
{
    let ghost pairs = pairs_of(*m);
    let mut obets: Vec<OptionBetResponse> = Vec::new();
    proof {
        reveal(Seq::filter);
        assert(positive_entries(pairs.take(0)).len() == 0);
    }
    let n = m.options.len();
    let mut i: usize = 0;
    while i < n
        invariant
            i <= n,
            obets@.len() == positive_entries(pairs.take(i as int)).len(),
            forall|j: int| 0 <= j < obets@.len() ==> option_bet_matches(
                #[trigger] obets@[j],
                positive_entries(pairs.take(i as int))[j],
            ),
        decreases n - i,
    {
        let stake = m.bets[i];
        if stake > 0 {
            obets.push(
                OptionBetResponse { option: m.options[i].clone(), amount: u64_to_string(stake) },
            );
        }
        proof {
            reveal(Seq::filter);
            let t0 = pairs.take(i as int);
            let t1 = pairs.take(i as int + 1);
            assert(t1.drop_last() =~= t0);
            assert(t1.last() == pairs[i as int]);
            assert(pairs[i as int] == (m.options@[i as int], m.bets@[i as int]));
            if stake > 0 {
                assert(positive_entries(t1) == positive_entries(t0).push(pairs[i as int]));
            } else {
                assert(positive_entries(t1) == positive_entries(t0));
            }
        }
        i = i + 1;
    }
    proof {
        assert(pairs.take(n as int) =~= pairs);
    }

    MarketResponse {
        id: m.id,
        creator: u64_to_string(m.creator),
        question: m.question.clone(),
        description: m.description.clone(),
        end_time: timestamp_to_i64(m.end_time),
        status: status_str(m.status),
        options: clone_labels(&m.options),
        correct_answer: match &m.correct_answer {
            Some(a) => Some(a.clone()),
            None => None,
        },
        bets: obets,
        total_pool: u64_to_string(m.total_pool),
        max_reward: u64_to_string(m.max_reward),
        created_at: timestamp_to_i64(m.created_at),
    }
}

/// Render a bet for the query surface.
pub fn bet_to_response(b: &Bet) -> (r: BetResponse)
    ensures
        bet_response_matches(r, *b),
{
    BetResponse {
        market_id: b.market_id,
        user: u64_to_string(b.user),
        option: b.option.clone(),
        amount: u64_to_string(b.amount),
        timestamp: timestamp_to_i64(b.timestamp),
        claimed: b.claimed,
        reward_amount: u64_to_string(b.reward_amount),
    }
}

/// The bets placed on one market, in placement order.
pub open spec fn bets_of_market(bets: Seq<Bet>, market_id: u64) -> Seq<Bet> {
    bets.filter(|b: Bet| b.market_id == market_id)
}

/// The bets of `user` holding an unclaimed positive reward, in placement order.
pub open spec fn claimable_bets(bets: Seq<Bet>, user: AccountId) -> Seq<Bet> {
    bets.filter(|b: Bet| b.user == user && b.reward_amount > 0 && !b.claimed)
}

/// How a rendered reward relates to its ledger record.
pub open spec fn reward_response_matches(r: RewardResponse, b: Bet) -> bool {
    &&& r.market_id == b.market_id
    &&& r.user@ == spec_udec(b.user as int)
    &&& r.amount@ == spec_udec(b.reward_amount as int)
    &&& r.claimed == b.claimed
}

/// The root of the read-only query surface. Every method renders the ledger
/// it is handed and never mutates it.
pub struct QueryRoot;

impl QueryRoot {
    /// All markets, in creation order.
    pub fn markets(&self, state: &PredictionMarketState) -> (r: Vec<MarketResponse>)
        requires
            forall|i: int| 0 <= i < state.markets@.len() ==> (#[trigger] state.markets@[i]).bets@.len()
                == state.markets@[i].options@.len(),
        ensures
            r@.len() == state.markets@.len(),
            forall|i: int| 0 <= i < r@.len() ==> market_response_matches(
                #[trigger] r@[i],
                state.markets@[i],
            ),
    {
        let mut r: Vec<MarketResponse> = Vec::new();
        let n = state.markets.len();
        let mut i: usize = 0;
        while i < n
            invariant
                i <= n,
                n == state.markets@.len(),
                forall|j: int| 0 <= j < n ==> (#[trigger] state.markets@[j]).bets@.len()
                    == state.markets@[j].options@.len(),
                r@.len() == i,
                forall|j: int| 0 <= j < i ==> market_response_matches(
                    #[trigger] r@[j],
                    state.markets@[j],
                ),
            decreases n - i,
        {
            r.push(market_to_response(&state.markets[i]));
            i = i + 1;
        }
        r
    }

    /// The market with the given id, if it exists.
    pub fn market(&self, state: &PredictionMarketState, id: u64) -> (r: Option<MarketResponse>)
        requires
            market_exists(*state, id) ==> market_of(*state, id).bets@.len() == market_of(
                *state,
                id,
            ).options@.len(),
        ensures
            match r {
                Some(resp) => market_exists(*state, id) && market_response_matches(
                    resp,
                    market_of(*state, id),
                ),
                None => !market_exists(*state, id),
            },
    {
        if id < 1 || id > state.markets.len() as u64 {
            return None;
        }
        let idx = (id - 1) as usize;
        Some(market_to_response(&state.markets[idx]))
    }

    /// The bets placed on one market, in placement order. The `user`
    /// argument is accepted by the query surface but not yet used to narrow
    /// the result.
    #[allow(unused_variables)]
    pub fn user_bets(
        &self,
        state: &PredictionMarketState,
        market_id: u64,
        user: String,
    ) -> (r: Vec<BetResponse>)
        ensures
            r@.len() == bets_of_market(state.user_bets@, market_id).len(),
            forall|i: int| 0 <= i < r@.len() ==> bet_response_matches(
                #[trigger] r@[i],
                bets_of_market(state.user_bets@, market_id)[i],
            ),
    {
        let ghost all = state.user_bets@;
        let mut r: Vec<BetResponse> = Vec::new();
        proof {
            reveal(Seq::filter);
            assert(bets_of_market(all.take(0), market_id).len() == 0);
        }
        let n = state.user_bets.len();
        let mut i: usize = 0;
        while i < n
            invariant
                i <= n,
                n == all.len(),
                all == state.user_bets@,
                r@.len() == bets_of_market(all.take(i as int), market_id).len(),
                forall|j: int| 0 <= j < r@.len() ==> bet_response_matches(
                    #[trigger] r@[j],
                    bets_of_market(all.take(i as int), market_id)[j],
                ),
            decreases n - i,
        {
            if state.user_bets[i].market_id == market_id {
                r.push(bet_to_response(&state.user_bets[i]));
            }
            proof {
                reveal(Seq::filter);
                let t0 = all.take(i as int);
                let t1 = all.take(i as int + 1);
                assert(t1.drop_last() =~= t0);
                assert(t1.last() == all[i as int]);
                if all[i as int].market_id == market_id {
                    assert(bets_of_market(t1, market_id) == bets_of_market(t0, market_id).push(
                        all[i as int],
                    ));
                } else {
                    assert(bets_of_market(t1, market_id) == bets_of_market(t0, market_id));
                }
            }
            i = i + 1;
        }
        proof {
            assert(all.take(n as int) =~= all);
        }
        r
    }

    /// Every unclaimed positive reward owed to `user`, in placement order.
    pub fn claimable_rewards(
        &self,
        state: &PredictionMarketState,
        user: AccountId,
    ) -> (r: Vec<RewardResponse>)
        ensures
            r@.len() == claimable_bets(state.user_bets@, user).len(),
            forall|i: int| 0 <= i < r@.len() ==> reward_response_matches(
                #[trigger] r@[i],
                claimable_bets(state.user_bets@, user)[i],
            ),
    {
        let ghost all = state.user_bets@;
        let mut r: Vec<RewardResponse> = Vec::new();
        proof {
            reveal(Seq::filter);
            assert(claimable_bets(all.take(0), user).len() == 0);
        }
        let n = state.user_bets.len();
        let mut i: usize = 0;
        while i < n
            invariant
                i <= n,
                n == all.len(),
                all == state.user_bets@,
                r@.len() == claimable_bets(all.take(i as int), user).len(),
                forall|j: int| 0 <= j < r@.len() ==> reward_response_matches(
                    #[trigger] r@[j],
                    claimable_bets(all.take(i as int), user)[j],
                ),
            decreases n - i,
        {
            let b = &state.user_bets[i];
            if b.user == user && b.reward_amount > 0 && !b.claimed {
                r.push(
                    RewardResponse {
                        market_id: b.market_id,
                        user: u64_to_string(user),
                        amount: u64_to_string(b.reward_amount),
                        claimed: b.claimed,
                    },
                );
            }
            proof {
                reveal(Seq::filter);
                let t0 = all.take(i as int);
                let t1 = all.take(i as int + 1);
                assert(t1.drop_last() =~= t0);
                assert(t1.last() == all[i as int]);
                if all[i as int].user == user && all[i as int].reward_amount > 0
                    && !all[i as int].claimed {
                    assert(claimable_bets(t1, user) == claimable_bets(t0, user).push(
                        all[i as int],
                    ));
                } else {
                    assert(claimable_bets(t1, user) == claimable_bets(t0, user));
                }
            }
            i = i + 1;
        }
        proof {
            assert(all.take(n as int) =~= all);
        }
        r
    }
}

/// The root of the mutation surface. The hosting environment turns each
/// mutation into a `PredictionMarketMessage` for the dispatcher; no mutation
/// is served directly from the query layer.
pub struct MutationRoot;

/// The root of the subscription surface. Event streams are produced by the
/// hosting environment from the dispatcher's effects.
pub struct SubscriptionRoot;

} // verus!
