//! The action dispatcher and the lifecycle/accounting engine: the four
//! externally-triggered operations, each an atomic transition on the ledger.

use vstd::prelude::*;
use crate::state::{
    bet_idx, bet_won, distinct_labels, has_bet, has_label, label_idx, lemma_bet_idx, lemma_label_idx,
    lemma_sum_entry_bound, lemma_sum_update, market_exists, market_of,
    reward_for, state_wf, sum_amounts, winning_pool, AccountId, Amount, Bet, Market, MarketStatus,
    PredictionMarketState, Timestamp,
};

verus! {

/// Why an action was rejected. A rejected action leaves the ledger untouched.
#[derive(Clone, Copy, Debug, PartialEq, Eq, Structural)]
pub enum MarketError {
    /// Malformed creation or bet input: empty question, fewer than two
    /// options, duplicate option labels, or a zero amount or reward cap.
    InvalidInput,
    /// No caller identity was supplied by the host.
    Unauthenticated,
    /// The caller is not the market's creator.
    Unauthorized,
    /// No market with the given id exists.
    MarketNotFound,
    /// The market is no longer accepting bets (it has been resolved).
    NotActive,
    /// The betting deadline has passed, whatever the stored status says.
    MarketEnded,
    /// The option or answer is not one of the market's options.
    InvalidOption,
    /// The caller already holds a bet on this market.
    DuplicateBet,
    /// The market has already been resolved.
    AlreadyResolved,
    /// The market's betting deadline has not passed yet.
    TooEarly,
    /// The market has not been resolved yet.
    NotResolved,
    /// The caller holds no bet on this market.
    NoBet,
    /// The caller's bet is not on the winning option.
    DidNotWin,
    /// The reward was already claimed.
    AlreadyClaimed,
    /// The bet won but its computed reward is zero.
    NothingToClaim,
}

/// An externally-triggered action on the ledger.
#[derive(Clone, Debug, PartialEq)]
pub enum PredictionMarketMessage {
    /// Create a new prediction market.
    CreateMarket {
        question: String,
        description: String,
        duration_minutes: u64,
        options: Vec<String>,
        max_reward: Amount,
    },
    /// Place a bet on a market option.
    PlaceBet { market_id: u64, option: String, amount: Amount },
    /// Resolve a market (creator only).
    ResolveMarket { market_id: u64, correct_answer: String },
    /// Claim the reward of a winning bet on a resolved market.
    ClaimReward { market_id: u64 },
}

/// The event a successful action emits.
#[derive(Clone, Debug, PartialEq)]
pub enum PredictionMarketEffect {
    /// A market was created.
    MarketCreated { market_id: u64, creator: AccountId },
    /// A bet was placed.
    BetPlaced { market_id: u64, user: AccountId, option: String, amount: Amount },
    /// A market was resolved.
    MarketResolved { market_id: u64, correct_answer: String },
    /// A reward was claimed.
    RewardClaimed { market_id: u64, user: AccountId, amount: Amount },
}

/// The prediction-market application: a ledger driven by messages.
#[derive(Clone, Debug)]
pub struct PredictionMarket {
    /// The authoritative ledger.
    pub state: PredictionMarketState,
}

/// Fields of a market that no action after creation ever changes.
pub open spec fn market_same_identity(a: Market, b: Market) -> bool {
    &&& a.id == b.id
    &&& a.creator == b.creator
    &&& a.question == b.question
    &&& a.description == b.description
    &&& a.end_time == b.end_time
    &&& a.options == b.options
    &&& a.max_reward == b.max_reward
    &&& a.created_at == b.created_at
}

/// The error a CreateMarket request is rejected with, if any.
/// Checks are made in this order; the first failure wins.
pub open spec fn create_market_err(
    caller: Option<AccountId>,
    question: Seq<char>,
    options: Seq<String>,
    max_reward: Amount,
) -> Option<MarketError> {
    if question.len() == 0 {
        Some(MarketError::InvalidInput)
    } else if options.len() < 2 {
        Some(MarketError::InvalidInput)
    } else if max_reward == 0 {
        Some(MarketError::InvalidInput)
    } else if !distinct_labels(options) {
        Some(MarketError::InvalidInput)
    } else if caller is None {
        Some(MarketError::Unauthenticated)
    } else {
        None
    }
}

/// The fields of a freshly created market.
pub open spec fn new_market_fields(
    m: Market,
    id: u64,
    creator: AccountId,
    question: String,
    description: String,
    now: Timestamp,
    duration_minutes: u64,
    options: Vec<String>,
    max_reward: Amount,
) -> bool {
    &&& m.id == id
    &&& m.creator == creator
    &&& m.question == question
    &&& m.description == description
    &&& m.end_time == now + duration_minutes * 60000
    &&& m.status is Active
    &&& m.options == options
    &&& m.correct_answer is None
    &&& m.bets@ == Seq::new(options@.len(), |i: int| 0u64)
    &&& m.total_pool == 0
    &&& m.max_reward == max_reward
    &&& m.created_at == now
}

/// Everything a CreateMarket call does: on a rejected request the ledger is
/// unchanged and the error is determined by `create_market_err`; on success a
/// market with the next id is appended, the id counter advances, and one
/// `MarketCreated` event is returned.
pub open spec fn create_market_post(
    pre: PredictionMarketState,
    post: PredictionMarketState,
    r: Result<Vec<PredictionMarketEffect>, MarketError>,
    caller: Option<AccountId>,
    now: Timestamp,
    question: String,
    description: String,
    duration_minutes: u64,
    options: Vec<String>,
    max_reward: Amount,
) -> bool {
    match create_market_err(caller, question@, options@, max_reward) {
        Some(e) => post == pre && (r matches Err(e2) && e2 == e),
        None => match caller {
            Some(u) => {
                &&& r matches Ok(evs) && evs@.len() == 1
                    && evs@[0] == (PredictionMarketEffect::MarketCreated {
                    market_id: pre.next_market_id,
                    creator: u,
                })
                &&& post.next_market_id == pre.next_market_id + 1
                &&& post.markets@.len() == pre.markets@.len() + 1
                &&& (forall|j: int| 0 <= j < pre.markets@.len()
                    ==> post.markets@[j] == pre.markets@[j])
                &&& new_market_fields(
                    post.markets@.last(),
                    pre.next_market_id,
                    u,
                    question,
                    description,
                    now,
                    duration_minutes,
                    options,
                    max_reward,
                )
                &&& post.user_bets@ == pre.user_bets@
            },
            None => false,
        },
    }
}

/// The error a PlaceBet request is rejected with, if any.
/// Checks are made in this order; the first failure wins.
pub open spec fn place_bet_err(
    pre: PredictionMarketState,
    caller: Option<AccountId>,
    now: Timestamp,
    market_id: u64,
    label: Seq<char>,
    amount: Amount,
) -> Option<MarketError> {
    if amount == 0 {
        Some(MarketError::InvalidInput)
    } else {
        match caller {
            None => Some(MarketError::Unauthenticated),
            Some(u) => {
                if !market_exists(pre, market_id) {
                    Some(MarketError::MarketNotFound)
                } else {
                    let m = market_of(pre, market_id);
                    if !(m.status is Active) {
                        Some(MarketError::NotActive)
                    } else if now >= m.end_time {
                        Some(MarketError::MarketEnded)
                    } else if !has_label(m.options@, label) {
                        Some(MarketError::InvalidOption)
                    } else if has_bet(pre, market_id, u) {
                        Some(MarketError::DuplicateBet)
                    } else {
                        None
                    }
                }
            },
        }
    }
}

/// Everything a PlaceBet call does: on a rejected request the ledger is
/// unchanged and the error is determined by `place_bet_err`; on success the
/// bet is appended, its amount is added to the chosen option's pool and to
/// the market's total pool, and one `BetPlaced` event is returned.
pub open spec fn place_bet_post(
    pre: PredictionMarketState,
    post: PredictionMarketState,
    r: Result<Vec<PredictionMarketEffect>, MarketError>,
    caller: Option<AccountId>,
    now: Timestamp,
    market_id: u64,
    option: String,
    amount: Amount,
) -> bool {
    match place_bet_err(pre, caller, now, market_id, option@, amount) {
        Some(e) => post == pre && (r matches Err(e2) && e2 == e),
        None => match caller {
            Some(u) => {
                let mi = market_id - 1;
                let m = pre.markets@[mi];
                let k = label_idx(m.options@, option@);
                &&& r matches Ok(evs) && evs@.len() == 1
                    && evs@[0] == (PredictionMarketEffect::BetPlaced {
                    market_id,
                    user: u,
                    option,
                    amount,
                })
                &&& post.next_market_id == pre.next_market_id
                &&& post.markets@.len() == pre.markets@.len()
                &&& (forall|j: int| 0 <= j < pre.markets@.len() && j != mi
                    ==> post.markets@[j] == pre.markets@[j])
                &&& market_same_identity(post.markets@[mi], m)
                &&& post.markets@[mi].status == m.status
                &&& post.markets@[mi].correct_answer == m.correct_answer
                &&& post.markets@[mi].bets@ == m.bets@.update(k, (m.bets@[k] + amount) as Amount)
                &&& post.markets@[mi].total_pool == m.total_pool + amount
                &&& post.user_bets@ == pre.user_bets@.push(
                    (Bet {
                        market_id,
                        user: u,
                        option,
                        amount,
                        timestamp: now,
                        claimed: false,
                        reward_amount: 0,
                    }),
                )
            },
            None => false,
        },
    }
}

/// The error a ResolveMarket request is rejected with, if any.
/// Checks are made in this order; the first failure wins.
pub open spec fn resolve_market_err(
    pre: PredictionMarketState,
    caller: Option<AccountId>,
    now: Timestamp,
    market_id: u64,
    answer: Seq<char>,
) -> Option<MarketError> {
    match caller {
        None => Some(MarketError::Unauthenticated),
        Some(u) => {
            if !market_exists(pre, market_id) {
                Some(MarketError::MarketNotFound)
            } else {
                let m = market_of(pre, market_id);
                if m.creator != u {
                    Some(MarketError::Unauthorized)
                } else if m.status is Resolved {
                    Some(MarketError::AlreadyResolved)
                } else if now < m.end_time {
                    Some(MarketError::TooEarly)
                } else if !has_label(m.options@, answer) {
                    Some(MarketError::InvalidOption)
                } else {
                    None
                }
            }
        },
    }
}

/// Everything a ResolveMarket call does: on a rejected request the ledger is
/// unchanged and the error is determined by `resolve_market_err`; on success
/// the market becomes Resolved with the given answer, every bet on the
/// winning option is owed its capped pool-weighted share, every other bet
/// keeps a zero reward, and one `MarketResolved` event is returned.
pub open spec fn resolve_market_post(
    pre: PredictionMarketState,
    post: PredictionMarketState,
    r: Result<Vec<PredictionMarketEffect>, MarketError>,
    caller: Option<AccountId>,
    now: Timestamp,
    market_id: u64,
    correct_answer: String,
) -> bool {
    match resolve_market_err(pre, caller, now, market_id, correct_answer@) {
        Some(e) => post == pre && (r matches Err(e2) && e2 == e),
        None => {
            let mi = market_id - 1;
            let m = pre.markets@[mi];
            let k = label_idx(m.options@, correct_answer@);
            let wpool = m.bets@[k] as int;
            &&& r matches Ok(evs) && evs@.len() == 1
                && evs@[0] == (PredictionMarketEffect::MarketResolved {
                market_id,
                correct_answer,
            })
            &&& post.next_market_id == pre.next_market_id
            &&& post.markets@.len() == pre.markets@.len()
            &&& (forall|j: int| 0 <= j < pre.markets@.len() && j != mi
                ==> post.markets@[j] == pre.markets@[j])
            &&& market_same_identity(post.markets@[mi], m)
            &&& post.markets@[mi].status is Resolved
            &&& post.markets@[mi].correct_answer == Some(correct_answer)
            &&& post.markets@[mi].bets == m.bets
            &&& post.markets@[mi].total_pool == m.total_pool
            &&& post.user_bets@.len() == pre.user_bets@.len()
            &&& (forall|i: int| #![trigger post.user_bets@[i]] 0 <= i < pre.user_bets@.len() ==> {
                let b = pre.user_bets@[i];
                if b.market_id == market_id && b.option@ == correct_answer@ {
                    post.user_bets@[i] == (Bet {
                        reward_amount: reward_for(b.amount, m.total_pool, wpool, m.max_reward),
                        ..b
                    })
                } else {
                    post.user_bets@[i] == b
                }
            })
        },
    }
}


/// The error a ClaimReward request is rejected with, if any.
/// Checks are made in this order; the first failure wins.
pub open spec fn claim_reward_err(
    pre: PredictionMarketState,
    caller: Option<AccountId>,
    market_id: u64,
) -> Option<MarketError> {
    match caller {
        None => Some(MarketError::Unauthenticated),
        Some(u) => {
            if !market_exists(pre, market_id) {
                Some(MarketError::MarketNotFound)
            } else {
                let m = market_of(pre, market_id);
                if !(m.status is Resolved) {
                    Some(MarketError::NotResolved)
                } else if !has_bet(pre, market_id, u) {
                    Some(MarketError::NoBet)
                } else {
                    let b = pre.user_bets@[bet_idx(pre, market_id, u)];
                    if !bet_won(m, b) {
                        Some(MarketError::DidNotWin)
                    } else if b.claimed {
                        Some(MarketError::AlreadyClaimed)
                    } else if b.reward_amount == 0 {
                        Some(MarketError::NothingToClaim)
                    } else {
                        None
                    }
                }
            }
        },
    }
}

/// Everything a ClaimReward call does: on a rejected request the ledger is
/// unchanged and the error is determined by `claim_reward_err`; on success
/// the caller's winning bet is marked claimed — nothing else changes, in
/// particular its reward amount — and one `RewardClaimed` event carrying
/// that amount is returned.
pub open spec fn claim_reward_post(
    pre: PredictionMarketState,
    post: PredictionMarketState,
    r: Result<Vec<PredictionMarketEffect>, MarketError>,
    caller: Option<AccountId>,
    market_id: u64,
) -> bool {
    match claim_reward_err(pre, caller, market_id) {
        Some(e) => post == pre && (r matches Err(e2) && e2 == e),
        None => match caller {
            Some(u) => {
                let bi = bet_idx(pre, market_id, u);
                let b = pre.user_bets@[bi];
                &&& r matches Ok(evs) && evs@.len() == 1
                    && evs@[0] == (PredictionMarketEffect::RewardClaimed {
                    market_id,
                    user: u,
                    amount: b.reward_amount,
                })
                &&& post.next_market_id == pre.next_market_id
                &&& post.markets == pre.markets
                &&& post.user_bets@ == pre.user_bets@.update(bi, (Bet { claimed: true, ..b }))
            },
            None => false,
        },
    }
}

impl PredictionMarket {
    /// A fresh application over the empty ledger.
    pub fn instantiate() -> (pm: Self)
        ensures
            pm.state.next_market_id == 1,
            pm.state.markets@.len() == 0,
            pm.state.user_bets@.len() == 0,
            state_wf(pm.state),
    {
        PredictionMarket { state: Default::default() }
    }

    /// Effects are consumed by other ledger instances; this one reacts to
    /// none of them and never changes state on delivery.
    pub fn execute_effect(&mut self, _effect: PredictionMarketEffect) -> (r: Result<
        Vec<PredictionMarketEffect>,
        MarketError,
    >)
        ensures
            *final(self) == *old(self),
            r matches Ok(evs) && evs@.len() == 0,
    {
        Ok(Vec::new())
    }

    /// Apply one externally-triggered action: validate it against the
    /// current ledger, the caller identity and the current time, commit its
    /// mutations atomically, and return the event it emitted.
    ///
    /// The bounds in `requires` are machine limits carried over from the
    /// individual actions: ids, deadlines and pools must fit in 64 bits.
    pub fn execute_message(
        &mut self,
        caller: Option<AccountId>,
        now: Timestamp,
        message: PredictionMarketMessage,
    ) -> (r: Result<Vec<PredictionMarketEffect>, MarketError>)
        requires
            state_wf(old(self).state),
            message matches PredictionMarketMessage::CreateMarket { duration_minutes, .. }
                ==> old(self).state.next_market_id < u64::MAX && now + duration_minutes * 60000
                <= u64::MAX,
            message matches PredictionMarketMessage::PlaceBet { market_id, amount, .. }
                ==> (market_exists(old(self).state, market_id)
                ==> market_of(old(self).state, market_id).total_pool + amount <= u64::MAX),
        ensures
            state_wf(final(self).state),
            match message {
                PredictionMarketMessage::CreateMarket {
                    question,
                    description,
                    duration_minutes,
                    options,
                    max_reward,
                } => create_market_post(
                    old(self).state,
                    final(self).state,
                    r,
                    caller,
                    now,
                    question,
                    description,
                    duration_minutes,
                    options,
                    max_reward,
                ),
                PredictionMarketMessage::PlaceBet { market_id, option, amount } => place_bet_post(
                    old(self).state,
                    final(self).state,
                    r,
                    caller,
                    now,
                    market_id,
                    option,
                    amount,
                ),
                PredictionMarketMessage::ResolveMarket { market_id, correct_answer }
                    => resolve_market_post(
                    old(self).state,
                    final(self).state,
                    r,
                    caller,
                    now,
                    market_id,
                    correct_answer,
                ),
                PredictionMarketMessage::ClaimReward { market_id } => claim_reward_post(
                    old(self).state,
                    final(self).state,
                    r,
                    caller,
                    market_id,
                ),
            },
    {
        match message {
            PredictionMarketMessage::CreateMarket {
                question,
                description,
                duration_minutes,
                options,
                max_reward,
            } => self.create_market(
                caller,
                now,
                question,
                description,
                duration_minutes,
                options,
                max_reward,
            ),
            PredictionMarketMessage::PlaceBet { market_id, option, amount } => self.place_bet(
                caller,
                now,
                market_id,
                option,
                amount,
            ),
            PredictionMarketMessage::ResolveMarket { market_id, correct_answer } => self
                .resolve_market(caller, now, market_id, correct_answer),
            PredictionMarketMessage::ClaimReward { market_id } => self.claim_reward(
                caller,
                market_id,
            ),
        }
    }

    /// Create a new prediction market.
    ///
    /// The id-counter and deadline bounds in `requires` are machine limits:
    /// the next id and the computed end time must fit in 64 bits.
    pub fn create_market(
        &mut self,
        caller: Option<AccountId>,
        now: Timestamp,
        question: String,
        description: String,
        duration_minutes: u64,
        options: Vec<String>,
        max_reward: Amount,
    ) -> (r: Result<Vec<PredictionMarketEffect>, MarketError>)
        requires
            state_wf(old(self).state),
            old(self).state.next_market_id < u64::MAX,
            now + duration_minutes * 60000 <= u64::MAX,
        ensures
            state_wf(final(self).state),
            create_market_post(
                old(self).state,
                final(self).state,
                r,
                caller,
                now,
                question,
                description,
                duration_minutes,
                options,
                max_reward,
            ),
    {
        if question.as_str().is_empty() {
            return Err(MarketError::InvalidInput);
        }
        if options.len() < 2 {
            return Err(MarketError::InvalidInput);
        }
        if max_reward == 0 {
            return Err(MarketError::InvalidInput);
        }
        if !labels_distinct(&options) {
            return Err(MarketError::InvalidInput);
        }
        let creator: AccountId = match caller {
            Some(u) => u,
            None => {
                return Err(MarketError::Unauthenticated);
            },
        };

        let end_time: Timestamp = now + duration_minutes * 60000;
        let market_id = self.state.next_market_id;

        let mut bets: Vec<Amount> = Vec::new();
        while bets.len() < options.len()
            invariant
                bets@.len() <= options@.len(),
                forall|i: int| 0 <= i < bets@.len() ==> bets@[i] == 0u64,
            decreases options@.len() - bets@.len(),
        {
            bets.push(0);
        }
        proof {
            assert(bets@ =~= Seq::new(options@.len(), |i: int| 0u64));
            lemma_sum_zero(bets@);
        }

        let market = Market {
            id: market_id,
            creator,
            question,
            description,
            end_time,
            status: MarketStatus::Active,
            options,
            correct_answer: None,
            bets,
            total_pool: 0,
            max_reward,
            created_at: now,
        };

        self.state.markets.push(market);
        self.state.next_market_id = self.state.next_market_id + 1;

        proof {
            let pre = old(self).state;
            let post = self.state;
            assert forall|i: int, k: int| 0 <= i < post.markets@.len() && 0 <= k
                < post.markets@[i].options@.len() implies (#[trigger] post.markets@[i].bets@[k])
                == crate::state::stakes_on(
                post.user_bets@,
                (i + 1) as u64,
                post.markets@[i].options@[k]@,
            ) by {
                if i < pre.markets@.len() {
                    assert(post.markets@[i] == pre.markets@[i]);
                } else {
                    assert forall|j: int| 0 <= j < post.user_bets@.len() implies (
                    #[trigger] post.user_bets@[j]).market_id != (i + 1) as u64 by {
                        assert(crate::state::bet_wf(pre, pre.user_bets@[j]));
                    }
                    crate::state::lemma_stakes_absent(
                        post.user_bets@,
                        (i + 1) as u64,
                        post.markets@[i].options@[k]@,
                    );
                }
            }
        }

        Ok(vec![PredictionMarketEffect::MarketCreated { market_id, creator }])
    }

    /// Place a bet on a market option.
    ///
    /// The pool bound in `requires` is a machine limit: the market's total
    /// pool must still fit in 64 bits after the stake is added.
    pub fn place_bet(
        &mut self,
        caller: Option<AccountId>,
        now: Timestamp,
        market_id: u64,
        option: String,
        amount: Amount,
    ) -> (r: Result<Vec<PredictionMarketEffect>, MarketError>)
        requires
            state_wf(old(self).state),
            market_exists(old(self).state, market_id)
                ==> market_of(old(self).state, market_id).total_pool + amount <= u64::MAX,
        ensures
            state_wf(final(self).state),
            place_bet_post(
                old(self).state,
                final(self).state,
                r,
                caller,
                now,
                market_id,
                option,
                amount,
            ),
    {
        if amount == 0 {
            return Err(MarketError::InvalidInput);
        }
        let user: AccountId = match caller {
            Some(u) => u,
            None => {
                return Err(MarketError::Unauthenticated);
            },
        };
        if market_id < 1 || market_id > self.state.markets.len() as u64 {
            return Err(MarketError::MarketNotFound);
        }
        let idx = (market_id - 1) as usize;

        let k: usize = {
            let m = &self.state.markets[idx];
            match m.status {
                MarketStatus::Active => {},
                _ => {
                    return Err(MarketError::NotActive);
                },
            }
            if now >= m.end_time {
                return Err(MarketError::MarketEnded);
            }
            match find_option(&m.options, &option) {
                Some(k) => k,
                None => {
                    return Err(MarketError::InvalidOption);
                },
            }
        };
        match find_bet(&self.state.user_bets, market_id, user) {
            Some(_) => {
                return Err(MarketError::DuplicateBet);
            },
            None => {},
        }

        let ghost pre = self.state;
        proof {
            lemma_label_idx(pre.markets@[idx as int].options@, option@, k as int);
            lemma_sum_entry_bound(pre.markets@[idx as int].bets@, k as int);
        }

        let bet = Bet {
            market_id,
            user,
            option: option.clone(),
            amount,
            timestamp: now,
            claimed: false,
            reward_amount: 0,
        };
        self.state.user_bets.push(bet);

        let m = &mut self.state.markets[idx];
        let cur = m.bets[k];
        m.bets[k] = cur + amount;
        m.total_pool = m.total_pool + amount;

        proof {
            lemma_sum_update(pre.markets@[idx as int].bets@, k as int, (cur + amount) as Amount);
            let post = self.state;
            assert forall|i: int| 0 <= i < post.user_bets@.len() implies crate::state::bet_wf(
                post,
                #[trigger] post.user_bets@[i],
            ) by {
                if i < pre.user_bets@.len() {
                    assert(crate::state::bet_wf(pre, pre.user_bets@[i]));
                }
            }
            let b = post.user_bets@.last();
            assert forall|i2: int, k2: int| 0 <= i2 < post.markets@.len() && 0 <= k2
                < post.markets@[i2].options@.len() implies (#[trigger] post.markets@[i2].bets@[k2])
                == crate::state::stakes_on(
                post.user_bets@,
                (i2 + 1) as u64,
                post.markets@[i2].options@[k2]@,
            ) by {
                crate::state::lemma_stakes_push(
                    pre.user_bets@,
                    b,
                    (i2 + 1) as u64,
                    post.markets@[i2].options@[k2]@,
                );
                if i2 == idx as int && k2 != k as int {
                    assert(post.markets@[i2].options@[k2]@ != option@);
                }
            }
        }
        Ok(vec![PredictionMarketEffect::BetPlaced { market_id, user, option, amount }])
    }

    /// Resolve a market: only its creator may do so, only after the betting
    /// deadline, and only once. Fixes the winning option and computes every
    /// winner's capped pool-weighted payout; a market whose winning option
    /// received no stake pays nothing, without error.
    #[verifier::loop_isolation(false)]
    pub fn resolve_market(
        &mut self,
        caller: Option<AccountId>,
        now: Timestamp,
        market_id: u64,
        correct_answer: String,
    ) -> (r: Result<Vec<PredictionMarketEffect>, MarketError>)
        requires
            state_wf(old(self).state),
        ensures
            state_wf(final(self).state),
            resolve_market_post(
                old(self).state,
                final(self).state,
                r,
                caller,
                now,
                market_id,
                correct_answer,
            ),
    {
        let caller_id: AccountId = match caller {
            Some(u) => u,
            None => {
                return Err(MarketError::Unauthenticated);
            },
        };
        if market_id < 1 || market_id > self.state.markets.len() as u64 {
            return Err(MarketError::MarketNotFound);
        }
        let idx = (market_id - 1) as usize;

        let (k, wpool, total_pool, max_reward): (usize, Amount, Amount, Amount) = {
            let m = &self.state.markets[idx];
            if m.creator != caller_id {
                return Err(MarketError::Unauthorized);
            }
            match m.status {
                MarketStatus::Resolved => {
                    return Err(MarketError::AlreadyResolved);
                },
                _ => {},
            }
            if now < m.end_time {
                return Err(MarketError::TooEarly);
            }
            let k = match find_option(&m.options, &correct_answer) {
                Some(k) => k,
                None => {
                    return Err(MarketError::InvalidOption);
                },
            };
            (k, m.bets[k], m.total_pool, m.max_reward)
        };

        let ghost pre = self.state;
        proof {
            lemma_label_idx(pre.markets@[idx as int].options@, correct_answer@, k as int);
        }

        {
            let m = &mut self.state.markets[idx];
            m.status = MarketStatus::Resolved;
            m.correct_answer = Some(correct_answer.clone());
        }
        let ghost mid = self.state;

        if wpool > 0 {
            let n = self.state.user_bets.len();
            let mut i: usize = 0;
            while i < n
                invariant
                    i <= n,
                    self.state.user_bets@.len() == n,
                    self.state.markets == mid.markets,
                    self.state.next_market_id == mid.next_market_id,
                    forall|j: int| #![trigger self.state.user_bets@[j]] 0 <= j < i ==> {
                        let b = pre.user_bets@[j];
                        if b.market_id == market_id && b.option@ == correct_answer@ {
                            self.state.user_bets@[j] == (Bet {
                                reward_amount: reward_for(
                                    b.amount,
                                    total_pool,
                                    wpool as int,
                                    max_reward,
                                ),
                                ..b
                            })
                        } else {
                            self.state.user_bets@[j] == b
                        }
                    },
                    forall|j: int| i <= j < n ==> self.state.user_bets@[j] == pre.user_bets@[j],
                decreases n - i,
            {
                let bmid = self.state.user_bets[i].market_id;
                let bwon = self.state.user_bets[i].option.eq(&correct_answer);
                if bmid == market_id && bwon {
                    let amt = self.state.user_bets[i].amount;
                    proof {
                        lemma_mul_le(amt as int, total_pool as int, u64::MAX as int, u64::MAX as int);
                    }
                    let share: u128 = (amt as u128) * (total_pool as u128) / (wpool as u128);
                    let reward: Amount = if share > (max_reward as u128) {
                        max_reward
                    } else {
                        share as u64
                    };
                    let b = &mut self.state.user_bets[i];
                    b.reward_amount = reward;
                }
                i = i + 1;
            }
        }

        proof {
            let post = self.state;
            assert(winning_pool(post.markets@[idx as int]) == wpool);
            assert forall|i: int| 0 <= i < post.user_bets@.len() implies crate::state::bet_wf(
                post,
                #[trigger] post.user_bets@[i],
            ) by {
                assert(crate::state::bet_wf(pre, pre.user_bets@[i]));
            }
            assert forall|j: int| 0 <= j < post.user_bets@.len() implies (
            #[trigger] post.user_bets@[j]).market_id == pre.user_bets@[j].market_id
                && post.user_bets@[j].option@ == pre.user_bets@[j].option@
                && post.user_bets@[j].amount == pre.user_bets@[j].amount by {}
            assert forall|i2: int, k2: int| 0 <= i2 < post.markets@.len() && 0 <= k2
                < post.markets@[i2].options@.len() implies (#[trigger] post.markets@[i2].bets@[k2])
                == crate::state::stakes_on(
                post.user_bets@,
                (i2 + 1) as u64,
                post.markets@[i2].options@[k2]@,
            ) by {
                crate::state::lemma_stakes_same(
                    pre.user_bets@,
                    post.user_bets@,
                    (i2 + 1) as u64,
                    post.markets@[i2].options@[k2]@,
                );
                assert(post.markets@[i2].bets@ == pre.markets@[i2].bets@);
                assert(post.markets@[i2].options@ == pre.markets@[i2].options@);
            }
        }
        Ok(vec![PredictionMarketEffect::MarketResolved { market_id, correct_answer }])
    }

    /// Claim the reward of a winning bet on a resolved market. Claiming
    /// marks the bet claimed and reports the owed amount; a bet can be
    /// claimed at most once.
    pub fn claim_reward(
        &mut self,
        caller: Option<AccountId>,
        market_id: u64,
    ) -> (r: Result<Vec<PredictionMarketEffect>, MarketError>)
        requires
            state_wf(old(self).state),
        ensures
            state_wf(final(self).state),
            claim_reward_post(old(self).state, final(self).state, r, caller, market_id),
    {
        let user: AccountId = match caller {
            Some(u) => u,
            None => {
                return Err(MarketError::Unauthenticated);
            },
        };
        if market_id < 1 || market_id > self.state.markets.len() as u64 {
            return Err(MarketError::MarketNotFound);
        }
        let idx = (market_id - 1) as usize;

        match self.state.markets[idx].status {
            MarketStatus::Resolved => {},
            _ => {
                return Err(MarketError::NotResolved);
            },
        }
        let bi: usize = match find_bet(&self.state.user_bets, market_id, user) {
            Some(i) => i,
            None => {
                return Err(MarketError::NoBet);
            },
        };
        proof {
            lemma_bet_idx(self.state, market_id, user, bi as int);
        }

        let won: bool = match &self.state.markets[idx].correct_answer {
            Some(a) => self.state.user_bets[bi].option.eq(a),
            None => false,
        };
        if !won {
            return Err(MarketError::DidNotWin);
        }
        if self.state.user_bets[bi].claimed {
            return Err(MarketError::AlreadyClaimed);
        }
        let reward = self.state.user_bets[bi].reward_amount;
        if reward == 0 {
            return Err(MarketError::NothingToClaim);
        }

        let ghost pre = self.state;
        let b = &mut self.state.user_bets[bi];
        b.claimed = true;

        proof {
            let post = self.state;
            assert forall|i: int| 0 <= i < post.user_bets@.len() implies crate::state::bet_wf(
                post,
                #[trigger] post.user_bets@[i],
            ) by {
                assert(crate::state::bet_wf(pre, pre.user_bets@[i]));
            }
            assert forall|i2: int, k2: int| 0 <= i2 < post.markets@.len() && 0 <= k2
                < post.markets@[i2].options@.len() implies (#[trigger] post.markets@[i2].bets@[k2])
                == crate::state::stakes_on(
                post.user_bets@,
                (i2 + 1) as u64,
                post.markets@[i2].options@[k2]@,
            ) by {
                crate::state::lemma_stakes_same(
                    pre.user_bets@,
                    post.user_bets@,
                    (i2 + 1) as u64,
                    post.markets@[i2].options@[k2]@,
                );
            }
        }
        Ok(vec![PredictionMarketEffect::RewardClaimed { market_id, user, amount: reward }])
    }
}

/// The product of two factors grows with each factor.
pub proof fn lemma_mul_le(a: int, b: int, c: int, d: int)
    by (nonlinear_arith)
    requires
        0 <= a <= c,
        0 <= b <= d,
    ensures
        a * b <= c * d,
{
}

/// Scan for the index of the option carrying `label`.
fn find_option(options: &Vec<String>, label: &String) -> (r: Option<usize>)
    ensures
        match r {
            Some(k) => k < options@.len() && options@[k as int]@ == label@,
            None => !has_label(options@, label@),
        },
{
    let n = options.len();
    let mut i: usize = 0;
    while i < n
        invariant
            i <= n,
            n == options@.len(),
            forall|j: int| 0 <= j < i ==> options@[j]@ != label@,
        decreases n - i,
    {
        if options[i].eq(label) {
            return Some(i);
        }
        i = i + 1;
    }
    None
}

/// Scan for the index of the bet of `user` on `market_id`.
fn find_bet(user_bets: &Vec<Bet>, market_id: u64, user: AccountId) -> (r: Option<usize>)
    ensures
        match r {
            Some(i) => i < user_bets@.len() && user_bets@[i as int].market_id == market_id
                && user_bets@[i as int].user == user,
            None => forall|i: int| 0 <= i < user_bets@.len()
                ==> !(user_bets@[i].market_id == market_id && user_bets@[i].user == user),
        },
{
    let n = user_bets.len();
    let mut i: usize = 0;
    while i < n
        invariant
            i <= n,
            n == user_bets@.len(),
            forall|j: int| 0 <= j < i ==> !(user_bets@[j].market_id == market_id
                && user_bets@[j].user == user),
        decreases n - i,
    {
        if user_bets[i].market_id == market_id && user_bets[i].user == user {
            return Some(i);
        }
        i = i + 1;
    }
    None
}

/// Whether the labels in `options` are pairwise distinct.
fn labels_distinct(options: &Vec<String>) -> (r: bool)
    ensures
        r == distinct_labels(options@),
{
    let n = options.len();
    let mut i: usize = 0;
    while i < n
        invariant
            i <= n,
            n == options@.len(),
            forall|p: int, q: int| 0 <= p < q < options@.len() && p < i ==> options@[p]@
                != options@[q]@,
        decreases n - i,
    {
        let mut j: usize = i + 1;
        while j < n
            invariant
                i < j <= n,
                n == options@.len(),
                forall|q: int| i < q < j ==> options@[i as int]@ != options@[q]@,
            decreases n - j,
        {
            if options[i] == options[j] {
                return false;
            }
            j = j + 1;
        }
        i = i + 1;
    }
    true
}

/// The sum of a sequence of zeros is zero.
pub proof fn lemma_sum_zero(s: Seq<Amount>)
    requires
        forall|i: int| 0 <= i < s.len() ==> s[i] == 0u64,
    ensures
        sum_amounts(s) == 0,
    decreases s.len(),
{
    if s.len() > 0 {
        lemma_sum_zero(s.drop_last());
    }
}

} // verus!
