use monomarket::state::{AppState, ChainNonceOutcome, NONCE_SKIP};

#[test]
fn chain_count_above_local_is_adopted() {
    let mut state = AppState::seeded(10, 0, 0);
    assert_eq!(state.adopt_chain_nonce(12), ChainNonceOutcome::Raised);
    assert_eq!(state.backend_nonce(), 12);
}

#[test]
fn equal_chain_count_is_in_sync() {
    let mut state = AppState::seeded(10, 0, 0);
    assert_eq!(state.adopt_chain_nonce(10), ChainNonceOutcome::InSync);
    assert_eq!(state.backend_nonce(), 10);
}

#[test]
fn chain_count_below_local_keeps_local() {
    let mut state = AppState::seeded(10, 0, 0);
    assert_eq!(state.adopt_chain_nonce(0), ChainNonceOutcome::KeptLocal);
    assert_eq!(state.backend_nonce(), 10);
}

#[test]
fn skip_moves_nonce_by_fixed_amount() {
    let mut state = AppState::seeded(5, 0, 0);
    state.skip_nonces();
    assert_eq!(state.backend_nonce(), 5 + NONCE_SKIP);
    assert_eq!(NONCE_SKIP, 20);
}

#[test]
fn reservation_hands_out_current_value() {
    let mut state = AppState::seeded(5, 0, 0);
    assert_eq!(state.reserve_nonce(), 5);
    assert_eq!(state.reserve_nonce(), 6);
    assert_eq!(state.backend_nonce(), 7);
}
