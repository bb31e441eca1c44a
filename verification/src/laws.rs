use vstd::prelude::*;

use crate::contract::{
    spec_app_contract, spec_state_record_unchanged, spec_sum, spec_verify_burn, spec_verify_init,
    spec_verify_mint, spec_verify_transfer,
};
use crate::types::{is_uppercase_ascii, valid_ticker, Action, PublicInput, Transaction, Witness,
    MAX_SUPPLY_CAP,
};

verus! {

/// Every ticker whose length falls outside 3 to 6, or which carries a
/// character that is not an uppercase ASCII letter, makes Init reject,
/// whatever the other parameters are.
pub proof fn lemma_init_rejects_bad_ticker(
    tx: Transaction,
    ticker: Seq<char>,
    max_supply: u64,
    issuer: Seq<char>,
)
    requires
        ticker.len() < 3 || ticker.len() > 6 || exists|i: int|
            0 <= i < ticker.len() && !is_uppercase_ascii(#[trigger] ticker[i]),
    ensures
        !spec_verify_init(tx, ticker, max_supply, issuer),
{
    if 3 <= ticker.len() && ticker.len() <= 6 {
        let i = choose|i: int| 0 <= i < ticker.len() && !is_uppercase_ascii(#[trigger] ticker[i]);
        assert(!valid_ticker(ticker));
    }
}

/// A supply cap of zero, or one above the policy maximum, makes Init
/// reject, whatever the other parameters are.
pub proof fn lemma_init_rejects_bad_supply(
    tx: Transaction,
    ticker: Seq<char>,
    max_supply: u64,
    issuer: Seq<char>,
)
    requires
        max_supply == 0 || max_supply > MAX_SUPPLY_CAP,
    ensures
        !spec_verify_init(tx, ticker, max_supply, issuer),
{
}

/// With a well-formed ticker, a supply cap within policy, a named issuer
/// and the state-carrying output present, Init admits.
pub proof fn lemma_init_admits_valid(
    tx: Transaction,
    ticker: Seq<char>,
    max_supply: u64,
    issuer: Seq<char>,
)
    requires
        valid_ticker(ticker),
        0 < max_supply <= MAX_SUPPLY_CAP,
        issuer.len() > 0,
        tx.outputs@.len() > 0,
    ensures
        spec_verify_init(tx, ticker, max_supply, issuer),
{
}

/// Against a prior state with remaining supply `r`, a Mint of amount zero,
/// or of an amount above `r`, rejects: supply never underflows.
pub proof fn lemma_mint_rejects_bad_amount(
    tx: Transaction,
    amount: u64,
    recipient: Seq<char>,
    witness: Witness,
)
    requires
        tx.prior_state is Some,
        amount == 0 || amount > tx.prior_state->Some_0.remaining,
    ensures
        !spec_verify_mint(tx, amount, recipient, witness),
{
}

/// Against a well-formed prior state with remaining supply `r`, a Mint of
/// an amount `a` with `0 < a <= r`, authorization evidence present, the
/// structural checks met, and a posterior state that carries the immutable
/// fields unchanged with remaining supply exactly `r - a`, admits — and the
/// posterior state is well formed again: the supply invariant survives
/// every admitted Mint.
pub proof fn lemma_mint_admits_and_preserves_wf(
    tx: Transaction,
    amount: u64,
    recipient: Seq<char>,
    witness: Witness,
)
    requires
        tx.prior_state is Some,
        tx.prior_state->Some_0.wf(),
        tx.new_state is Some,
        0 < amount <= tx.prior_state->Some_0.remaining,
        witness.signature is Some,
        recipient.len() > 0,
        tx.inputs@.len() > 0,
        tx.outputs@.len() > 0,
        tx.new_state->Some_0.remaining == tx.prior_state->Some_0.remaining - amount,
        tx.new_state->Some_0.ticker@ == tx.prior_state->Some_0.ticker@,
        tx.new_state->Some_0.max_supply == tx.prior_state->Some_0.max_supply,
        tx.new_state->Some_0.issuer@ == tx.prior_state->Some_0.issuer@,
    ensures
        spec_verify_mint(tx, amount, recipient, witness),
        tx.new_state->Some_0.wf(),
{
}

/// The Mint verdict characterized: against state records present on both
/// sides whose immutable fields (ticker, cap, issuer) are carried over
/// unchanged, the verifier admits exactly when the amount is positive, the
/// recipient is named, authorization evidence is present, both transaction
/// sides are populated, the amount is covered by the remaining supply, and
/// the posterior record shows remaining decreased by exactly the amount.
pub proof fn lemma_mint_verdict_characterized(
    tx: Transaction,
    amount: u64,
    recipient: Seq<char>,
    witness: Witness,
)
    requires
        tx.prior_state is Some,
        tx.new_state is Some,
        tx.new_state->Some_0.ticker@ == tx.prior_state->Some_0.ticker@,
        tx.new_state->Some_0.max_supply == tx.prior_state->Some_0.max_supply,
        tx.new_state->Some_0.issuer@ == tx.prior_state->Some_0.issuer@,
    ensures
        spec_verify_mint(tx, amount, recipient, witness) <==> {
            &&& amount > 0
            &&& recipient.len() > 0
            &&& witness.signature is Some
            &&& tx.inputs@.len() > 0
            &&& tx.outputs@.len() > 0
            &&& amount <= tx.prior_state->Some_0.remaining
            &&& tx.new_state->Some_0.remaining == tx.prior_state->Some_0.remaining - amount
        },
{
}

/// Every admitted Mint pins the posterior remaining supply exactly: it is
/// the prior remaining supply minus the minted amount, nothing else.
pub proof fn lemma_mint_posterior_exact(
    tx: Transaction,
    amount: u64,
    recipient: Seq<char>,
    witness: Witness,
)
    requires
        spec_verify_mint(tx, amount, recipient, witness),
    ensures
        tx.new_state->Some_0.remaining == tx.prior_state->Some_0.remaining - amount,
{
}

/// A Burn of amount zero, or with an unnamed reward, rejects.
pub proof fn lemma_burn_rejects(tx: Transaction, amount: u64, reward_id: Seq<char>)
    requires
        amount == 0 || reward_id.len() == 0,
    ensures
        !spec_verify_burn(tx, amount, reward_id),
{
}

/// A Burn of a positive amount covered by the tokens spent at the inputs,
/// with a named reward, the output side showing exactly the input total
/// minus the burned amount, and any carried state record unchanged,
/// admits — and every admitted Burn strictly decreases the circulating
/// supply by exactly the burned amount.
pub proof fn lemma_burn_admits_and_destroys(tx: Transaction, amount: u64, reward_id: Seq<char>)
    requires
        amount > 0,
        reward_id.len() > 0,
        tx.inputs@.len() > 0,
        spec_sum(tx.inputs@) >= amount,
        spec_sum(tx.outputs@) == spec_sum(tx.inputs@) - amount,
        spec_state_record_unchanged(tx),
    ensures
        spec_verify_burn(tx, amount, reward_id),
        spec_sum(tx.outputs@) < spec_sum(tx.inputs@),
{
}

/// An admitted Burn leaves the token record alone: whatever state record it
/// carries out shows the same remaining supply and the same cap (and the
/// same ticker and issuer) as the record it spent. A burn removes tokens
/// from circulation; it never restores mintable supply.
pub proof fn lemma_burn_preserves_record(tx: Transaction, amount: u64, reward_id: Seq<char>)
    requires
        spec_verify_burn(tx, amount, reward_id),
        tx.new_state is Some,
    ensures
        tx.prior_state is Some,
        tx.new_state->Some_0.remaining == tx.prior_state->Some_0.remaining,
        tx.new_state->Some_0.max_supply == tx.prior_state->Some_0.max_supply,
        tx.new_state->Some_0.ticker@ == tx.prior_state->Some_0.ticker@,
        tx.new_state->Some_0.issuer@ == tx.prior_state->Some_0.issuer@,
{
}

/// Conservation governs Transfer: whenever the input and output totals
/// differ, the transfer rejects, whatever the amount — and every admitted
/// transfer has the totals exactly equal.
pub proof fn lemma_transfer_conservation(tx: Transaction, amount: u64)
    ensures
        spec_sum(tx.inputs@) != spec_sum(tx.outputs@) ==> !spec_verify_transfer(tx, amount),
        spec_verify_transfer(tx, amount) ==> spec_sum(tx.inputs@) == spec_sum(tx.outputs@),
{
}

/// An admitted Transfer moves tokens and nothing else: whatever state
/// record it carries out shows the same remaining supply and the same cap
/// (and the same ticker and issuer) as the record it spent — no mint and no
/// burn rides along at the record level.
pub proof fn lemma_transfer_preserves_record(tx: Transaction, amount: u64)
    requires
        spec_verify_transfer(tx, amount),
        tx.new_state is Some,
    ensures
        tx.prior_state is Some,
        tx.new_state->Some_0.remaining == tx.prior_state->Some_0.remaining,
        tx.new_state->Some_0.max_supply == tx.prior_state->Some_0.max_supply,
        tx.new_state->Some_0.ticker@ == tx.prior_state->Some_0.ticker@,
        tx.new_state->Some_0.issuer@ == tx.prior_state->Some_0.issuer@,
{
}

/// Across every admitted action but Init, the remaining mintable supply
/// never increases: Mint decreases it by the minted amount, and Burn and
/// Transfer carry the record through unchanged. Seen from the dispatcher,
/// no admitted transition inflates the supply a later Mint validates
/// against.
pub proof fn lemma_remaining_never_increases(
    tx: Transaction,
    input: Option<PublicInput>,
    witness: Option<Witness>,
)
    requires
        spec_app_contract(tx, input, witness),
        !(input->Some_0.action is Init),
        tx.new_state is Some,
    ensures
        tx.prior_state is Some,
        tx.new_state->Some_0.remaining <= tx.prior_state->Some_0.remaining,
{
    match input {
        Some(pi) => {
            match pi.action {
                Action::Init { .. } => {
                },
                Action::Mint { amount, .. } => {
                    assert(tx.new_state->Some_0.remaining
                        == tx.prior_state->Some_0.remaining - amount);
                },
                Action::Burn { .. } => {
                },
                Action::Transfer { .. } => {
                },
            }
        },
        None => {
        },
    }
}

/// The verdict is deterministic: the contract of `app_contract` pins every
/// result to `spec_app_contract` of the inputs, so any two evaluations of
/// the same `(transaction, input, witness)` triple yield the same verdict.
pub proof fn lemma_verdict_deterministic(
    tx: Transaction,
    input: Option<PublicInput>,
    witness: Option<Witness>,
    first: bool,
    second: bool,
)
    requires
        first == spec_app_contract(tx, input, witness),
        second == spec_app_contract(tx, input, witness),
    ensures
        first == second,
{
}

} // verus!
