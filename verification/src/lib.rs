//! Constraint-checking contract for a supply-capped, transferable, burnable
//! loyalty token. Given a declared action, its witness, and a view of the
//! proposed transaction, the contract decides admission: `true` admits the
//! transaction for this app's constraints, `false` rejects it. Evaluation is
//! a pure function of its inputs, so verdicts are reproducible anywhere.

pub mod contract;
pub mod laws;
pub mod types;

pub use contract::{
    app_contract, state_record_unchanged, sum_amounts, verify_burn, verify_init, verify_mint,
    verify_ticker, verify_transfer,
};
pub use types::{Action, PublicInput, RewardTier, TokenState, Transaction, Witness};
