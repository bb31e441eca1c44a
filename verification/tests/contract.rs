use charm_app::{
    app_contract, state_record_unchanged, sum_amounts, verify_burn, verify_init, verify_mint,
    verify_ticker, verify_transfer, Action, PublicInput, TokenState, Transaction, Witness,
};

fn token_tx(inputs: Vec<u64>, outputs: Vec<u64>) -> Transaction {
    Transaction { inputs, outputs, prior_state: None, new_state: None }
}

fn state(ticker: &str, remaining: u64, max_supply: u64, issuer: &str) -> TokenState {
    TokenState {
        ticker: ticker.to_string(),
        remaining,
        max_supply,
        issuer: issuer.to_string(),
    }
}

fn mint_tx(prior_remaining: u64, new_remaining: u64) -> Transaction {
    Transaction {
        inputs: vec![0],
        outputs: vec![0],
        prior_state: Some(state("REWA", prior_remaining, 1000, "merchant1")),
        new_state: Some(state("REWA", new_remaining, 1000, "merchant1")),
    }
}

fn signed_witness() -> Witness {
    Witness { signature: Some(vec![1, 2, 3]), state_proof: None }
}

#[test]
fn test_ticker_validation() {
    // Valid tickers
    assert!(verify_ticker("REWA"));
    // Invalid tickers
    assert!(!verify_ticker("LOYALTY")); // Too long
    assert!(!verify_ticker("AB")); // Too short
    assert!(!verify_ticker("TOOLONG")); // Too long
    assert!(!verify_ticker("abc")); // Lowercase
}

#[test]
fn ticker_boundary_lengths() {
    assert!(verify_ticker("ABC"));
    assert!(verify_ticker("ABCDEF"));
    assert!(!verify_ticker("ABCDEFG"));
    assert!(!verify_ticker(""));
    assert!(!verify_ticker("AB1"));
    assert!(!verify_ticker("ReWA"));
}

#[test]
fn init_admits_valid_declaration() {
    let tx = token_tx(vec![], vec![0]);
    assert!(verify_init(&tx, "REWA", 1000, "merchant1"));
}

#[test]
fn init_rejects_short_ticker() {
    let tx = token_tx(vec![], vec![0]);
    assert!(!verify_init(&tx, "AB", 1000, "merchant1"));
}

#[test]
fn init_supply_cap_boundaries() {
    let tx = token_tx(vec![], vec![0]);
    assert!(!verify_init(&tx, "REWA", 0, "merchant1"));
    assert!(verify_init(&tx, "REWA", 1, "merchant1"));
    assert!(verify_init(&tx, "REWA", 1_000_000_000, "merchant1"));
    assert!(!verify_init(&tx, "REWA", 1_000_000_001, "merchant1"));
}

#[test]
fn init_rejects_empty_issuer() {
    let tx = token_tx(vec![], vec![0]);
    assert!(!verify_init(&tx, "REWA", 1000, ""));
}

#[test]
fn init_rejects_missing_output() {
    let tx = token_tx(vec![], vec![]);
    assert!(!verify_init(&tx, "REWA", 1000, "merchant1"));
}

#[test]
fn mint_admits_and_decreases_supply() {
    let tx = mint_tx(1000, 500);
    assert!(verify_mint(&tx, 500, "alice", &signed_witness()));
    assert_eq!(tx.new_state.unwrap().remaining, 500);
}

#[test]
fn mint_rejects_amount_over_remaining() {
    let tx = mint_tx(1000, 0);
    assert!(!verify_mint(&tx, 1500, "alice", &signed_witness()));
}

#[test]
fn mint_rejects_zero_amount() {
    let tx = mint_tx(1000, 1000);
    assert!(!verify_mint(&tx, 0, "alice", &signed_witness()));
}

#[test]
fn mint_admits_exactly_remaining() {
    let tx = mint_tx(1000, 0);
    assert!(verify_mint(&tx, 1000, "alice", &signed_witness()));
}

#[test]
fn mint_rejects_missing_authority() {
    let tx = mint_tx(1000, 500);
    let unsigned = Witness { signature: None, state_proof: Some(vec![9]) };
    assert!(!verify_mint(&tx, 500, "alice", &unsigned));
}

#[test]
fn mint_rejects_empty_recipient() {
    let tx = mint_tx(1000, 500);
    assert!(!verify_mint(&tx, 500, "", &signed_witness()));
}

#[test]
fn mint_rejects_wrong_posterior_supply() {
    let tx = mint_tx(1000, 600);
    assert!(!verify_mint(&tx, 500, "alice", &signed_witness()));
}

#[test]
fn mint_rejects_mutated_immutable_fields() {
    let mut tx = mint_tx(1000, 500);
    tx.new_state = Some(state("REWB", 500, 1000, "merchant1"));
    assert!(!verify_mint(&tx, 500, "alice", &signed_witness()));

    let mut tx = mint_tx(1000, 500);
    tx.new_state = Some(state("REWA", 500, 2000, "merchant1"));
    assert!(!verify_mint(&tx, 500, "alice", &signed_witness()));

    let mut tx = mint_tx(1000, 500);
    tx.new_state = Some(state("REWA", 500, 1000, "merchant2"));
    assert!(!verify_mint(&tx, 500, "alice", &signed_witness()));
}

#[test]
fn mint_rejects_missing_states_or_slots() {
    let mut tx = mint_tx(1000, 500);
    tx.prior_state = None;
    assert!(!verify_mint(&tx, 500, "alice", &signed_witness()));

    let mut tx = mint_tx(1000, 500);
    tx.new_state = None;
    assert!(!verify_mint(&tx, 500, "alice", &signed_witness()));

    let mut tx = mint_tx(1000, 500);
    tx.inputs = vec![];
    assert!(!verify_mint(&tx, 500, "alice", &signed_witness()));

    let mut tx = mint_tx(1000, 500);
    tx.outputs = vec![];
    assert!(!verify_mint(&tx, 500, "alice", &signed_witness()));
}

#[test]
fn burn_admits_and_destroys() {
    // 100 tokens come in, none go out: the burned amount is destroyed.
    let tx = token_tx(vec![100], vec![]);
    assert!(verify_burn(&tx, 100, "free-coffee"));
    // Partial burn: 40 of 100 destroyed, 60 carried through.
    let tx = token_tx(vec![100], vec![60]);
    assert!(verify_burn(&tx, 40, "free-coffee"));
}

#[test]
fn burn_rejects_empty_reward_id() {
    let tx = token_tx(vec![100], vec![]);
    assert!(!verify_burn(&tx, 100, ""));
}

#[test]
fn burn_rejects_zero_amount() {
    let tx = token_tx(vec![100], vec![100]);
    assert!(!verify_burn(&tx, 0, "free-coffee"));
}

#[test]
fn burn_rejects_bad_accounting() {
    // No inputs at all.
    let tx = token_tx(vec![], vec![]);
    assert!(!verify_burn(&tx, 100, "free-coffee"));
    // Burned amount not covered by the inputs.
    let tx = token_tx(vec![50], vec![0]);
    assert!(!verify_burn(&tx, 100, "free-coffee"));
    // Outputs do not show the decrease.
    let tx = token_tx(vec![100], vec![100]);
    assert!(!verify_burn(&tx, 100, "free-coffee"));
    // Outputs show too large a decrease.
    let tx = token_tx(vec![100], vec![10]);
    assert!(!verify_burn(&tx, 40, "free-coffee"));
}

#[test]
fn burn_rejects_record_change() {
    // Correct amount accounting, but the carried record inflates the
    // remaining mintable supply: a mint riding along a burn.
    let mut tx = token_tx(vec![100], vec![]);
    tx.prior_state = Some(state("REWA", 500, 1000, "merchant1"));
    tx.new_state = Some(state("REWA", 900, 1000, "merchant1"));
    assert!(!verify_burn(&tx, 100, "free-coffee"));
    // The cap must not change either.
    let mut tx = token_tx(vec![100], vec![]);
    tx.prior_state = Some(state("REWA", 500, 1000, "merchant1"));
    tx.new_state = Some(state("REWA", 500, 2000, "merchant1"));
    assert!(!verify_burn(&tx, 100, "free-coffee"));
    // A record appearing out of nowhere is rejected.
    let mut tx = token_tx(vec![100], vec![]);
    tx.new_state = Some(state("REWA", 500, 1000, "merchant1"));
    assert!(!verify_burn(&tx, 100, "free-coffee"));
    // The record carried through unchanged is admitted.
    let mut tx = token_tx(vec![100], vec![]);
    tx.prior_state = Some(state("REWA", 500, 1000, "merchant1"));
    tx.new_state = Some(state("REWA", 500, 1000, "merchant1"));
    assert!(verify_burn(&tx, 100, "free-coffee"));
}

#[test]
fn transfer_rejects_record_change() {
    // Balanced token totals, but the carried record inflates the remaining
    // mintable supply: a mint riding along a transfer.
    let mut tx = token_tx(vec![50], vec![50]);
    tx.prior_state = Some(state("REWA", 500, 1000, "merchant1"));
    tx.new_state = Some(state("REWA", 900, 1000, "merchant1"));
    assert!(!verify_transfer(&tx, 50));
    // The cap must not change either.
    let mut tx = token_tx(vec![50], vec![50]);
    tx.prior_state = Some(state("REWA", 500, 1000, "merchant1"));
    tx.new_state = Some(state("REWA", 500, 2000, "merchant1"));
    assert!(!verify_transfer(&tx, 50));
    // The record carried through unchanged is admitted.
    let mut tx = token_tx(vec![50], vec![50]);
    tx.prior_state = Some(state("REWA", 500, 1000, "merchant1"));
    tx.new_state = Some(state("REWA", 500, 1000, "merchant1"));
    assert!(verify_transfer(&tx, 50));
}

#[test]
fn record_continuity_check() {
    // No record created: nothing to compare.
    let tx = token_tx(vec![50], vec![50]);
    assert!(state_record_unchanged(&tx));
    // Identical records pass; each changed field fails.
    let mut tx = token_tx(vec![50], vec![50]);
    tx.prior_state = Some(state("REWA", 500, 1000, "merchant1"));
    tx.new_state = Some(state("REWA", 500, 1000, "merchant1"));
    assert!(state_record_unchanged(&tx));
    tx.new_state = Some(state("REWB", 500, 1000, "merchant1"));
    assert!(!state_record_unchanged(&tx));
    tx.new_state = Some(state("REWA", 500, 1000, "merchant2"));
    assert!(!state_record_unchanged(&tx));
}

#[test]
fn transfer_conservation() {
    // Input total 50, output total 40: conservation violated.
    let tx = token_tx(vec![50], vec![40]);
    assert!(!verify_transfer(&tx, 50));
    // Output total 50: balanced.
    let tx = token_tx(vec![50], vec![50]);
    assert!(verify_transfer(&tx, 50));
    // Balance holds across several slots.
    let tx = token_tx(vec![30, 20], vec![10, 15, 25]);
    assert!(verify_transfer(&tx, 50));
}

#[test]
fn transfer_rejects_zero_amount_and_empty_sides() {
    let tx = token_tx(vec![50], vec![50]);
    assert!(!verify_transfer(&tx, 0));
    let tx = token_tx(vec![], vec![50]);
    assert!(!verify_transfer(&tx, 50));
    let tx = token_tx(vec![50], vec![]);
    assert!(!verify_transfer(&tx, 50));
}

#[test]
fn sum_amounts_exact_totals() {
    assert_eq!(sum_amounts(&vec![]), 0);
    assert_eq!(sum_amounts(&vec![1, 2, 3]), 6);
    // The 128-bit accumulator carries totals past the 64-bit range.
    assert_eq!(sum_amounts(&vec![u64::MAX, u64::MAX]), 2 * (u64::MAX as u128));
}

#[test]
fn dispatcher_routes_and_fails_closed() {
    let tx = token_tx(vec![], vec![0]);
    let init = Some(PublicInput {
        action: Action::Init {
            ticker: "REWA".to_string(),
            max_supply: 1000,
            issuer: "merchant1".to_string(),
        },
    });
    let witness = Some(Witness { signature: None, state_proof: None });
    assert!(app_contract(&tx, &init, &witness));
    // A missing decode of either buffer rejects.
    assert!(!app_contract(&tx, &None, &witness));
    assert!(!app_contract(&tx, &init, &None));
}

#[test]
fn dispatcher_routes_each_action() {
    let witness = Some(signed_witness());

    let tx = mint_tx(1000, 500);
    let mint = Some(PublicInput {
        action: Action::Mint { amount: 500, recipient: "alice".to_string() },
    });
    assert!(app_contract(&tx, &mint, &witness));

    let tx = token_tx(vec![100], vec![]);
    let burn = Some(PublicInput {
        action: Action::Burn { amount: 100, reward_id: "free-coffee".to_string() },
    });
    assert!(app_contract(&tx, &burn, &witness));

    let tx = token_tx(vec![50], vec![50]);
    let transfer = Some(PublicInput { action: Action::Transfer { amount: 50 } });
    assert!(app_contract(&tx, &transfer, &witness));
}

#[test]
fn verdict_is_reproducible() {
    let tx = token_tx(vec![50], vec![40]);
    let transfer = Some(PublicInput { action: Action::Transfer { amount: 50 } });
    let witness = Some(signed_witness());
    let first = app_contract(&tx, &transfer, &witness);
    let second = app_contract(&tx, &transfer, &witness);
    assert_eq!(first, second);
    assert!(!first);
}
