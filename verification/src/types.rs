use vstd::prelude::*;

verus! {

/// Largest supply cap a token may declare at initialization.
pub const MAX_SUPPLY_CAP: u64 = 1_000_000_000;

/// A character of a well-formed ticker: an uppercase ASCII letter.
pub open spec fn is_uppercase_ascii(c: char) -> bool {
    65 <= c as u32 && c as u32 <= 90
}

/// A well-formed ticker: 3 to 6 characters, all uppercase ASCII letters.
pub open spec fn valid_ticker(t: Seq<char>) -> bool {
    &&& 3 <= t.len()
    &&& t.len() <= 6
    &&& forall|i: int| 0 <= i < t.len() ==> is_uppercase_ascii(#[trigger] t[i])
}

/// Persistent record of a token: ticker symbol, remaining mintable supply,
/// fixed supply cap, and the issuer identity.
#[derive(Clone, Debug)]
pub struct TokenState {
    /// Token ticker symbol.
    pub ticker: String,
    /// Remaining mintable supply.
    pub remaining: u64,
    /// Total supply cap, fixed at initialization.
    pub max_supply: u64,
    /// Merchant/issuer identifier.
    pub issuer: String,
}

impl TokenState {
    /// Structural invariant of a token record: well-formed ticker, cap within
    /// policy, remaining supply never above the cap, and a named issuer.
    pub open spec fn wf(self) -> bool {
        &&& valid_ticker(self.ticker@)
        &&& 0 < self.max_supply <= MAX_SUPPLY_CAP
        &&& self.remaining <= self.max_supply
        &&& self.issuer@.len() > 0
    }
}

/// Reward tier configuration: what a redemption costs and what it buys.
#[derive(Clone, Debug)]
pub struct RewardTier {
    pub name: String,
    /// Tokens required to redeem.
    pub cost: u64,
    pub description: String,
}

/// The requested token operation with its parameters.
#[derive(Clone, Debug)]
pub enum Action {
    /// Initialize a new token: fixes ticker, supply cap and issuer.
    Init { ticker: String, max_supply: u64, issuer: String },
    /// Mint tokens to a recipient, decreasing the remaining supply.
    Mint { amount: u64, recipient: String },
    /// Burn tokens in exchange for a reward.
    Burn { amount: u64, reward_id: String },
    /// Transfer tokens between holders.
    Transfer { amount: u64 },
}

/// Public input to the contract: the declared action.
#[derive(Clone, Debug)]
pub struct PublicInput {
    pub action: Action,
}

/// Private witness accompanying an action: authorization evidence the host's
/// cryptographic layer consumes. This contract only checks for presence.
#[derive(Clone, Debug)]
pub struct Witness {
    /// Signature from the authorized party.
    pub signature: Option<Vec<u8>>,
    /// Inclusion proof for state validation.
    pub state_proof: Option<Vec<u8>>,
}

/// What the contract reads of the host transaction, as plain values: the
/// token amount carried at each input and each output, in order, and the
/// token state record on the input and output side, where one is present.
#[derive(Clone, Debug)]
pub struct Transaction {
    /// Token amount at each transaction input.
    pub inputs: Vec<u64>,
    /// Token amount at each transaction output.
    pub outputs: Vec<u64>,
    /// The token state record spent by this transaction, if any.
    pub prior_state: Option<TokenState>,
    /// The token state record created by this transaction, if any.
    pub new_state: Option<TokenState>,
}

} // verus!
