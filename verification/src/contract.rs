use vstd::prelude::*;

use crate::types::{
    is_uppercase_ascii, valid_ticker, Action, PublicInput, Transaction, Witness, MAX_SUPPLY_CAP,
};

verus! {

/// Check that a ticker is well formed: 3 to 6 characters, all of them
/// uppercase ASCII letters.
pub fn verify_ticker(ticker: &str) -> (r: bool)
    ensures
        r == valid_ticker(ticker@),
{
    let n = ticker.unicode_len();
    if n < 3 || n > 6 {
        return false;
    }
    let mut i: usize = 0;
    while i < n
        invariant
            n == ticker@.len(),
            3 <= n <= 6,
            i <= n,
            forall|j: int| 0 <= j < i ==> is_uppercase_ascii(#[trigger] ticker@[j]),
        decreases n - i,
    {
        let c = ticker.get_char(i);
        let u = c as u32;
        if u < 65 || u > 90 {
            return false;
        }
        i += 1;
    }
    true
}

/// The total token amount over a sequence of transaction slots.
pub open spec fn spec_sum(s: Seq<u64>) -> int
    decreases s.len(),
{
    if s.len() == 0 {
        0
    } else {
        spec_sum(s.drop_last()) + s.last()
    }
}

/// Extending a prefix by one slot adds exactly that slot's amount.
proof fn lemma_sum_push(s: Seq<u64>, i: int)
    requires
        0 <= i < s.len(),
    ensures
        spec_sum(s.subrange(0, i + 1)) == spec_sum(s.subrange(0, i)) + s[i],
{
    let pre = s.subrange(0, i + 1);
    assert(pre.drop_last() =~= s.subrange(0, i));
}

/// Total the token amounts of a transaction side. The accumulator is 128-bit
/// wide, so the total of any number of 64-bit amounts fits.
pub fn sum_amounts(v: &Vec<u64>) -> (total: u128)
    ensures
        total as int == spec_sum(v@),
{
    let mut total: u128 = 0;
    let mut i: usize = 0;
    while i < v.len()
        invariant
            i <= v@.len(),
            total as int == spec_sum(v@.subrange(0, i as int)),
            total as int <= i * (u64::MAX as int),
        decreases v@.len() - i,
    {
        proof {
            lemma_sum_push(v@, i as int);
        }
        total = total + (v[i] as u128);
        i += 1;
    }
    proof {
        assert(v@.subrange(0, v@.len() as int) =~= v@);
    }
    total
}

/// Admission rule for Init: well-formed ticker, supply cap within policy,
/// named issuer, and a transaction that creates the state-carrying output.
pub open spec fn spec_verify_init(
    tx: Transaction,
    ticker: Seq<char>,
    max_supply: u64,
    issuer: Seq<char>,
) -> bool {
    &&& valid_ticker(ticker)
    &&& 0 < max_supply <= MAX_SUPPLY_CAP
    &&& issuer.len() > 0
    &&& tx.outputs@.len() > 0
}

/// Admission rule for Mint: positive amount, named recipient, authorization
/// evidence present, state records on both sides, supply never underflows,
/// the posterior remaining supply is exactly the prior minus the minted
/// amount, and the immutable fields are carried over unchanged.
pub open spec fn spec_verify_mint(
    tx: Transaction,
    amount: u64,
    recipient: Seq<char>,
    witness: Witness,
) -> bool {
    &&& amount > 0
    &&& recipient.len() > 0
    &&& witness.signature is Some
    &&& tx.inputs@.len() > 0
    &&& tx.outputs@.len() > 0
    &&& tx.prior_state is Some
    &&& tx.new_state is Some
    &&& amount <= tx.prior_state->Some_0.remaining
    &&& tx.new_state->Some_0.remaining == tx.prior_state->Some_0.remaining - amount
    &&& tx.new_state->Some_0.ticker@ == tx.prior_state->Some_0.ticker@
    &&& tx.new_state->Some_0.max_supply == tx.prior_state->Some_0.max_supply
    &&& tx.new_state->Some_0.issuer@ == tx.prior_state->Some_0.issuer@
}

/// Record continuity for actions that must not touch the token state: any
/// state record the transaction creates copies the record it spends, field
/// for field. A record appearing out of nowhere, or with `remaining`,
/// `max_supply`, ticker or issuer changed, is a mint or a cap change riding
/// along and must be rejected.
pub open spec fn spec_state_record_unchanged(tx: Transaction) -> bool {
    tx.new_state is Some ==> {
        &&& tx.prior_state is Some
        &&& tx.new_state->Some_0.remaining == tx.prior_state->Some_0.remaining
        &&& tx.new_state->Some_0.max_supply == tx.prior_state->Some_0.max_supply
        &&& tx.new_state->Some_0.ticker@ == tx.prior_state->Some_0.ticker@
        &&& tx.new_state->Some_0.issuer@ == tx.prior_state->Some_0.issuer@
    }
}

/// Admission rule for Burn: positive amount, a named reward, tokens spent at
/// the inputs that cover the burned amount, the output side carrying exactly
/// the input total minus the burned amount — burned tokens are destroyed,
/// not moved — and no change to any carried state record: a burn never
/// restores mintable supply and never changes the cap. The holder's
/// ownership credential is consumed by the host's cryptographic layer, so no
/// witness structure is checked here.
pub open spec fn spec_verify_burn(tx: Transaction, amount: u64, reward_id: Seq<char>) -> bool {
    &&& amount > 0
    &&& reward_id.len() > 0
    &&& tx.inputs@.len() > 0
    &&& spec_sum(tx.inputs@) >= amount
    &&& spec_sum(tx.outputs@) == spec_sum(tx.inputs@) - amount
    &&& spec_state_record_unchanged(tx)
}

/// Admission rule for Transfer: positive amount, both sides populated,
/// conservation — the output total equals the input total exactly — and no
/// change to any carried state record: no mint and no burn occurs as a side
/// effect of a transfer.
pub open spec fn spec_verify_transfer(tx: Transaction, amount: u64) -> bool {
    &&& amount > 0
    &&& tx.inputs@.len() > 0
    &&& tx.outputs@.len() > 0
    &&& spec_sum(tx.inputs@) == spec_sum(tx.outputs@)
    &&& spec_state_record_unchanged(tx)
}

/// The contract's verdict as a whole: fail closed when either the public
/// input or the witness did not decode, otherwise the verdict of the
/// verifier matching the action's tag.
pub open spec fn spec_app_contract(
    tx: Transaction,
    input: Option<PublicInput>,
    witness: Option<Witness>,
) -> bool {
    match (input, witness) {
        (Some(pi), Some(w)) => match pi.action {
            Action::Init { ticker, max_supply, issuer } => spec_verify_init(
                tx,
                ticker@,
                max_supply,
                issuer@,
            ),
            Action::Mint { amount, recipient } => spec_verify_mint(tx, amount, recipient@, w),
            Action::Burn { amount, reward_id } => spec_verify_burn(tx, amount, reward_id@),
            Action::Transfer { amount } => spec_verify_transfer(tx, amount),
        },
        _ => false,
    }
}

/// Verify token initialization: gates the declared parameters'
/// well-formedness and that the state-carrying output exists.
pub fn verify_init(tx: &Transaction, ticker: &str, max_supply: u64, issuer: &str) -> (r: bool)
    ensures
        r == spec_verify_init(*tx, ticker@, max_supply, issuer@),
{
    if !verify_ticker(ticker) {
        return false;
    }
    if max_supply == 0 || max_supply > MAX_SUPPLY_CAP {
        return false;
    }
    if issuer.is_empty() {
        return false;
    }
    if tx.outputs.is_empty() {
        return false;
    }
    true
}

/// Verify token minting: authority evidence must be present before the
/// supply arithmetic is even attempted, and the posterior state must show
/// the remaining supply decreased by exactly the minted amount, with the
/// immutable fields untouched.
pub fn verify_mint(tx: &Transaction, amount: u64, recipient: &str, witness: &Witness) -> (r: bool)
    ensures
        r == spec_verify_mint(*tx, amount, recipient@, *witness),
{
    if amount == 0 {
        return false;
    }
    if recipient.is_empty() {
        return false;
    }
    if !witness.signature.is_some() {
        return false;
    }
    if tx.inputs.is_empty() {
        return false;
    }
    if tx.outputs.is_empty() {
        return false;
    }
    let prior = match &tx.prior_state {
        Some(p) => p,
        None => {
            return false;
        },
    };
    let posterior = match &tx.new_state {
        Some(n) => n,
        None => {
            return false;
        },
    };
    if amount > prior.remaining {
        return false;
    }
    if posterior.remaining != prior.remaining - amount {
        return false;
    }
    if !(posterior.ticker == prior.ticker) {
        return false;
    }
    if posterior.max_supply != prior.max_supply {
        return false;
    }
    if !(posterior.issuer == prior.issuer) {
        return false;
    }
    true
}

/// Check record continuity: any state record the transaction creates must
/// copy the record it spends, field for field. Shared by the Burn and
/// Transfer verifiers, which must not let a state change ride along.
pub fn state_record_unchanged(tx: &Transaction) -> (r: bool)
    ensures
        r == spec_state_record_unchanged(*tx),
{
    let posterior = match &tx.new_state {
        Some(n) => n,
        None => {
            return true;
        },
    };
    let prior = match &tx.prior_state {
        Some(p) => p,
        None => {
            return false;
        },
    };
    if posterior.remaining != prior.remaining {
        return false;
    }
    if posterior.max_supply != prior.max_supply {
        return false;
    }
    if !(posterior.ticker == prior.ticker) {
        return false;
    }
    if !(posterior.issuer == prior.issuer) {
        return false;
    }
    true
}

/// Verify token burning: the burned amount must be covered by the tokens
/// spent at the inputs, and the output side must show exactly that much
/// less — the tokens are destroyed, not transferred. Any carried state
/// record must come through unchanged: a burn never restores mintable
/// supply and never changes the cap.
pub fn verify_burn(tx: &Transaction, amount: u64, reward_id: &str) -> (r: bool)
    ensures
        r == spec_verify_burn(*tx, amount, reward_id@),
{
    if amount == 0 {
        return false;
    }
    if reward_id.is_empty() {
        return false;
    }
    if tx.inputs.is_empty() {
        return false;
    }
    let input_total = sum_amounts(&tx.inputs);
    let output_total = sum_amounts(&tx.outputs);
    if input_total < amount as u128 {
        return false;
    }
    if output_total != input_total - amount as u128 {
        return false;
    }
    state_record_unchanged(tx)
}

/// Verify token transfer: conservation of tokens — the input and output
/// totals must balance exactly, with no mint or burn as a side effect, and
/// any carried state record must come through unchanged.
pub fn verify_transfer(tx: &Transaction, amount: u64) -> (r: bool)
    ensures
        r == spec_verify_transfer(*tx, amount),
{
    if amount == 0 {
        return false;
    }
    if tx.inputs.is_empty() || tx.outputs.is_empty() {
        return false;
    }
    let input_total = sum_amounts(&tx.inputs);
    let output_total = sum_amounts(&tx.outputs);
    if input_total != output_total {
        return false;
    }
    state_record_unchanged(tx)
}

/// The contract's entry point: route the decoded action to the matching
/// verifier, failing closed where the public input or the witness did not
/// decode. A pure function of its inputs: identical inputs always yield the
/// identical verdict.
pub fn app_contract(
    tx: &Transaction,
    input: &Option<PublicInput>,
    witness: &Option<Witness>,
) -> (r: bool)
    ensures
        r == spec_app_contract(*tx, *input, *witness),
{
    let pi = match input {
        Some(pi) => pi,
        None => {
            return false;
        },
    };
    let w = match witness {
        Some(w) => w,
        None => {
            return false;
        },
    };
    match &pi.action {
        Action::Init { ticker, max_supply, issuer } => {
            verify_init(tx, ticker.as_str(), *max_supply, issuer.as_str())
        },
        Action::Mint { amount, recipient } => verify_mint(tx, *amount, recipient.as_str(), w),
        Action::Burn { amount, reward_id } => verify_burn(tx, *amount, reward_id.as_str()),
        Action::Transfer { amount } => verify_transfer(tx, *amount),
    }
}

} // verus!
