//! The ledger store: market records, bet records, and the well-formedness
//! predicates that every action preserves.

use vstd::prelude::*;

verus! {

/// Identity of an actor, as resolved by the hosting environment. The engine
/// never inspects it beyond equality.
pub type AccountId = u64;

/// A token amount, in the host's smallest unit.
pub type Amount = u64;

/// A timestamp in milliseconds, supplied by the hosting environment.
pub type Timestamp = u64;

/// Lifecycle status of a market.
///
/// Only `Active` and `Resolved` are ever stored. `Locked` (betting deadline
/// passed, not yet resolved) is a logical condition derived from the current
/// time at each read site, never persisted.
#[derive(Clone, Copy, Debug, PartialEq, Eq, Structural)]
pub enum MarketStatus {
    /// Market is accepting bets (while the deadline has not passed).
    Active,
    /// Market has passed its deadline but is not yet resolved (derived, never stored).
    Locked,
    /// Market has been resolved; terminal.
    Resolved,
}

/// A prediction market.
#[derive(Clone, Debug)]
pub struct Market {
    /// Unique id, assigned at creation, never reused.
    pub id: u64,
    /// Identity of the creator; only the creator may resolve the market.
    pub creator: AccountId,
    /// The question being predicted; non-empty.
    pub question: String,
    /// Free-form description.
    pub description: String,
    /// Absolute deadline: bets are accepted strictly before this time.
    pub end_time: Timestamp,
    /// Stored status; `Active` or `Resolved`.
    pub status: MarketStatus,
    /// The distinct option labels, fixed at creation; at least two.
    pub options: Vec<String>,
    /// The winning option label, set once at resolution.
    pub correct_answer: Option<String>,
    /// Cumulative stake per option, indexed in parallel with `options`.
    pub bets: Vec<Amount>,
    /// Total stake ever placed on the market; the sum of `bets`.
    pub total_pool: Amount,
    /// Per-winner payout cap, fixed at creation; positive.
    pub max_reward: Amount,
    /// Creation timestamp.
    pub created_at: Timestamp,
}

/// One user's single irrevocable stake on one option of one market.
#[derive(Clone, Debug)]
pub struct Bet {
    /// The market this bet is placed on.
    pub market_id: u64,
    /// The bettor; at most one bet per (market, user) pair.
    pub user: AccountId,
    /// The chosen option label; a member of the market's options.
    pub option: String,
    /// The stake; positive.
    pub amount: Amount,
    /// Placement time.
    pub timestamp: Timestamp,
    /// Whether the reward has been claimed; set at most once.
    pub claimed: bool,
    /// Payout owed, computed at resolution; zero unless the bet won.
    pub reward_amount: Amount,
}

/// The authoritative ledger: all markets and all bets.
#[derive(Clone, Debug)]
pub struct PredictionMarketState {
    /// The id the next created market receives; ids start at 1.
    pub next_market_id: u64,
    /// All markets, in creation order: the market with id `i` sits at index `i - 1`.
    pub markets: Vec<Market>,
    /// All bets, in placement order, with distinct (market, user) keys.
    pub user_bets: Vec<Bet>,
}

/// Sum of a sequence of amounts, as an unbounded integer.
pub open spec fn sum_amounts(s: Seq<Amount>) -> int
    decreases s.len(),
{
    if s.len() == 0 {
        0
    } else {
        sum_amounts(s.drop_last()) + s.last()
    }
}

/// Whether some option in `options` carries the label `label`.
pub open spec fn has_label(options: Seq<String>, label: Seq<char>) -> bool {
    exists|k: int| 0 <= k < options.len() && options[k]@ == label
}

/// The index of the option labelled `label`; meaningful when `has_label`
/// holds and the labels are distinct.
pub open spec fn label_idx(options: Seq<String>, label: Seq<char>) -> int {
    choose|k: int| 0 <= k < options.len() && options[k]@ == label
}

/// Whether the labels in `options` are pairwise distinct.
pub open spec fn distinct_labels(options: Seq<String>) -> bool {
    forall|i: int, j: int| 0 <= i < j < options.len() ==> options[i]@ != options[j]@
}

/// The stake accumulated on the winning option of a resolved market
/// (zero when the market is unresolved).
pub open spec fn winning_pool(m: Market) -> int {
    match m.correct_answer {
        Some(a) => {
            if has_label(m.options@, a@) {
                m.bets@[label_idx(m.options@, a@)] as int
            } else {
                0
            }
        },
        None => 0,
    }
}

/// The payout owed to a winning bet of `amount` out of a market with the
/// given total pool, winning pool and cap: the bettor's pool-weighted share
/// of the total pool, truncated toward zero, then capped at `max_reward`.
/// A market with an empty winning pool pays nothing.
pub open spec fn reward_for(amount: Amount, total_pool: Amount, wpool: int, max_reward: Amount) -> Amount {
    if wpool <= 0 {
        0
    } else {
        let share = (amount * total_pool) / wpool;
        if share > max_reward {
            max_reward
        } else {
            share as Amount
        }
    }
}

/// Well-formedness of a single market record.
pub open spec fn market_wf(m: Market) -> bool {
    &&& m.question@.len() > 0
    &&& m.options@.len() >= 2
    &&& distinct_labels(m.options@)
    &&& m.bets@.len() == m.options@.len()
    &&& m.max_reward > 0
    &&& sum_amounts(m.bets@) == m.total_pool
    &&& (m.status is Active || m.status is Resolved)
    &&& (m.status is Resolved <==> m.correct_answer is Some)
    &&& (match m.correct_answer {
        Some(a) => has_label(m.options@, a@),
        None => true,
    })
}

/// Whether a market with id `market_id` exists in `s`.
pub open spec fn market_exists(s: PredictionMarketState, market_id: u64) -> bool {
    1 <= market_id <= s.markets@.len()
}

/// The market record with id `market_id`; meaningful when it exists.
pub open spec fn market_of(s: PredictionMarketState, market_id: u64) -> Market {
    s.markets@[market_id - 1]
}

/// Whether the bet `b` matches the winning option of the market `m`.
pub open spec fn bet_won(m: Market, b: Bet) -> bool {
    match m.correct_answer {
        Some(a) => a@ == b.option@,
        None => false,
    }
}

/// Well-formedness of one bet record against the ledger it sits in.
pub open spec fn bet_wf(s: PredictionMarketState, b: Bet) -> bool {
    &&& market_exists(s, b.market_id)
    &&& b.amount > 0
    &&& has_label(market_of(s, b.market_id).options@, b.option@)
    &&& b.reward_amount <= market_of(s, b.market_id).max_reward
    &&& (b.reward_amount > 0 ==> market_of(s, b.market_id).status is Resolved
        && bet_won(market_of(s, b.market_id), b))
    &&& (market_of(s, b.market_id).status is Resolved && bet_won(market_of(s, b.market_id), b)
        ==> b.reward_amount == reward_for(
            b.amount,
            market_of(s, b.market_id).total_pool,
            winning_pool(market_of(s, b.market_id)),
            market_of(s, b.market_id).max_reward,
        ))
    &&& (b.claimed ==> b.reward_amount > 0)
}

/// The stake the bet ledger holds on one option of one market: the sum of
/// the amounts of the bets on `market_id` that chose the label `label`.
pub open spec fn stakes_on(bets: Seq<Bet>, market_id: u64, label: Seq<char>) -> int
    decreases bets.len(),
{
    if bets.len() == 0 {
        0
    } else {
        stakes_on(bets.drop_last(), market_id, label) + if bets.last().market_id == market_id
            && bets.last().option@ == label {
            bets.last().amount as int
        } else {
            0
        }
    }
}

/// Appending one bet adds its amount to exactly the (market, label) slot it
/// belongs to and to no other.
pub proof fn lemma_stakes_push(bets: Seq<Bet>, b: Bet, market_id: u64, label: Seq<char>)
    ensures
        stakes_on(bets.push(b), market_id, label) == stakes_on(bets, market_id, label) + if b.market_id
            == market_id && b.option@ == label {
            b.amount as int
        } else {
            0
        },
{
    assert(bets.push(b).drop_last() =~= bets);
}

/// Stakes ignore every field but the key and the amount: two ledgers that
/// agree on market, option and amount of every bet hold the same stakes.
pub proof fn lemma_stakes_same(bets1: Seq<Bet>, bets2: Seq<Bet>, market_id: u64, label: Seq<char>)
    requires
        bets1.len() == bets2.len(),
        forall|j: int| 0 <= j < bets1.len() ==> (#[trigger] bets2[j]).market_id
            == bets1[j].market_id && bets2[j].option@ == bets1[j].option@ && bets2[j].amount
            == bets1[j].amount,
    ensures
        stakes_on(bets1, market_id, label) == stakes_on(bets2, market_id, label),
    decreases bets1.len(),
{
    if bets1.len() > 0 {
        lemma_stakes_same(bets1.drop_last(), bets2.drop_last(), market_id, label);
    }
}

/// A market nobody has bet on holds no stake.
pub proof fn lemma_stakes_absent(bets: Seq<Bet>, market_id: u64, label: Seq<char>)
    requires
        forall|j: int| 0 <= j < bets.len() ==> (#[trigger] bets[j]).market_id != market_id,
    ensures
        stakes_on(bets, market_id, label) == 0,
    decreases bets.len(),
{
    if bets.len() > 0 {
        lemma_stakes_absent(bets.drop_last(), market_id, label);
    }
}

/// Whether the user `user` already holds a bet on market `market_id`.
pub open spec fn has_bet(s: PredictionMarketState, market_id: u64, user: AccountId) -> bool {
    exists|i: int| 0 <= i < s.user_bets@.len()
        && s.user_bets@[i].market_id == market_id
        && s.user_bets@[i].user == user
}

/// The index of the bet of `user` on `market_id`; meaningful when `has_bet`
/// holds, and unique by well-formedness.
pub open spec fn bet_idx(s: PredictionMarketState, market_id: u64, user: AccountId) -> int {
    choose|i: int| 0 <= i < s.user_bets@.len()
        && s.user_bets@[i].market_id == market_id
        && s.user_bets@[i].user == user
}

/// Well-formedness of the whole ledger. Every action requires and preserves it.
pub open spec fn state_wf(s: PredictionMarketState) -> bool {
    &&& s.next_market_id == s.markets@.len() + 1
    &&& (forall|i: int| 0 <= i < s.markets@.len() ==> (#[trigger] s.markets@[i]).id == i + 1)
    &&& (forall|i: int| 0 <= i < s.markets@.len() ==> market_wf(#[trigger] s.markets@[i]))
    &&& (forall|i: int, j: int| 0 <= i < j < s.user_bets@.len()
        ==> !(s.user_bets@[i].market_id == s.user_bets@[j].market_id
            && s.user_bets@[i].user == s.user_bets@[j].user))
    &&& (forall|i: int| 0 <= i < s.user_bets@.len() ==> bet_wf(s, #[trigger] s.user_bets@[i]))
    &&& (forall|i: int, k: int| 0 <= i < s.markets@.len() && 0 <= k
        < s.markets@[i].options@.len() ==> (#[trigger] s.markets@[i].bets@[k]) == stakes_on(
        s.user_bets@,
        (i + 1) as u64,
        s.markets@[i].options@[k]@,
    ))
}

/// A sum of amounts is never negative.
pub proof fn lemma_sum_nonneg(s: Seq<Amount>)
    ensures
        sum_amounts(s) >= 0,
    decreases s.len(),
{
    if s.len() > 0 {
        lemma_sum_nonneg(s.drop_last());
    }
}

/// Each entry is bounded by the sum of the whole sequence.
pub proof fn lemma_sum_entry_bound(s: Seq<Amount>, k: int)
    requires
        0 <= k < s.len(),
    ensures
        s[k] <= sum_amounts(s),
    decreases s.len(),
{
    if k == s.len() - 1 {
        lemma_sum_nonneg(s.drop_last());
    } else {
        lemma_sum_entry_bound(s.drop_last(), k);
    }
}

/// Updating one entry changes the sum by the difference at that entry.
pub proof fn lemma_sum_update(s: Seq<Amount>, k: int, v: Amount)
    requires
        0 <= k < s.len(),
    ensures
        sum_amounts(s.update(k, v)) == sum_amounts(s) - s[k] + v,
    decreases s.len(),
{
    if k == s.len() - 1 {
        assert(s.update(k, v).drop_last() =~= s.drop_last());
    } else {
        assert(s.update(k, v).drop_last() =~= s.drop_last().update(k, v));
        lemma_sum_update(s.drop_last(), k, v);
    }
}

/// With distinct labels, `label_idx` names exactly the index where a label
/// was found.
pub proof fn lemma_label_idx(options: Seq<String>, label: Seq<char>, k: int)
    requires
        distinct_labels(options),
        0 <= k < options.len(),
        options[k]@ == label,
    ensures
        has_label(options, label),
        label_idx(options, label) == k,
{
    assert(has_label(options, label));
    let k2 = label_idx(options, label);
    assert(0 <= k2 < options.len() && options[k2]@ == label) by {
        assert(exists|j: int| 0 <= j < options.len() && options[j]@ == label);
    }
}

/// With distinct (market, user) keys, `bet_idx` names exactly the index
/// where a bet was found.
pub proof fn lemma_bet_idx(s: PredictionMarketState, market_id: u64, user: AccountId, i: int)
    requires
        forall|p: int, q: int| 0 <= p < q < s.user_bets@.len()
            ==> !(s.user_bets@[p].market_id == s.user_bets@[q].market_id
                && s.user_bets@[p].user == s.user_bets@[q].user),
        0 <= i < s.user_bets@.len(),
        s.user_bets@[i].market_id == market_id,
        s.user_bets@[i].user == user,
    ensures
        has_bet(s, market_id, user),
        bet_idx(s, market_id, user) == i,
{
    assert(has_bet(s, market_id, user));
    let i2 = bet_idx(s, market_id, user);
    assert(0 <= i2 < s.user_bets@.len() && s.user_bets@[i2].market_id == market_id
        && s.user_bets@[i2].user == user) by {
        assert(exists|j: int| 0 <= j < s.user_bets@.len() && s.user_bets@[j].market_id == market_id
            && s.user_bets@[j].user == user);
    }
}

impl Default for PredictionMarketState {
    /// The empty ledger: no markets, no bets, ids starting at 1.
    fn default() -> (s: Self)
        ensures
            s.next_market_id == 1,
            s.markets@.len() == 0,
            s.user_bets@.len() == 0,
            state_wf(s),
    {
        PredictionMarketState { next_market_id: 1, markets: Vec::new(), user_bets: Vec::new() }
    }
}

} // verus!
