//! A single-ledger prediction-market engine.
//!
//! The ledger tracks prediction markets, the bets placed against their
//! options, and the proportional payout owed to each winning bettor once a
//! market is resolved. Every action — market creation, bet placement,
//! resolution, claim settlement — is an atomic transition that either commits
//! all of its mutations or reports an error and leaves the ledger untouched.
//!
//! The host environment is expected to serialize actions, resolve the caller
//! identity, and supply the current logical timestamp; the engine itself only
//! records obligations and never moves value between accounts.

pub mod state;
pub mod engine;
pub mod laws;
pub mod query;

pub use state::{AccountId, Amount, Timestamp, Bet, Market, MarketStatus, PredictionMarketState};
pub use engine::{MarketError, PredictionMarket, PredictionMarketEffect, PredictionMarketMessage};
pub use query::{
    BetResponse, ClaimRewardInput, CreateMarketInput, MarketResponse, MutationRoot,
    OptionBetResponse, PlaceBetInput, PoolUpdateResponse, QueryRoot, ResolveMarketInput,
    RewardResponse, SubscriptionRoot,
};
