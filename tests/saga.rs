use monomarket::messages::ServerMessage;
use monomarket::primitives::Address;
use monomarket::saga::{RestartSaga, SagaError};
use monomarket::state::AppState;
use monomarket::submit::{Action, LedgerReply, TxOutcome, TxRequest, FUNDED_THRESHOLD, FUND_TARGET, GAME_DURATION};

fn addr(n: u8) -> Address {
    Address { bytes: [n; 20] }
}

fn with_players(nonce: u64, n: u8) -> AppState {
    let mut state = AppState::seeded(nonce, 0, 0);
    for i in 1..=n {
        state.set_name(addr(i), format!("player{}", i));
    }
    state
}

fn is_start(a: &Action) -> bool {
    matches!(a, Action::Submit(TxRequest::Start { .. }))
}

#[test]
fn reset_revert_aborts_before_start() {
    let mut state = with_players(20, 0);
    let (mut saga, acts) = RestartSaga::begin(&mut state);
    assert!(matches!(acts[..], [Action::Submit(TxRequest::Reset { nonce: 20, gas_limit: 500_000, .. })]));
    let acts = saga.on_reply(
        &mut state,
        LedgerReply::Outcome(TxOutcome::Reverted { tx_id: monomarket::primitives::TxId { bytes: [2; 32] }, reason: String::new() }),
    );
    assert!(acts.is_empty());
    assert_eq!(saga.result(), Some(Err(SagaError::ResetFailed)));
    let later = saga.on_reply(&mut state, LedgerReply::Outcome(TxOutcome::Confirmed));
    assert!(!later.iter().any(is_start));
    assert_eq!(saga.result(), Some(Err(SagaError::ResetFailed)));
    assert_eq!(state.backend_nonce(), 21);
}

#[test]
fn start_failure_reports_failure() {
    let mut state = with_players(0, 0);
    let (mut saga, _) = RestartSaga::begin(&mut state);
    let acts = saga.on_reply(&mut state, LedgerReply::Outcome(TxOutcome::Confirmed));
    assert!(matches!(acts[..], [Action::Submit(TxRequest::Start { duration: GAME_DURATION, nonce: 1, .. })]));
    saga.on_reply(&mut state, LedgerReply::Outcome(TxOutcome::SubmitFailed { reason: "x".to_string() }));
    assert_eq!(saga.result(), Some(Err(SagaError::StartFailed)));
}

#[test]
fn full_restart_tops_up_shortfall_and_skips_funded() {
    let mut state = with_players(7, 3);
    let (mut saga, acts) = RestartSaga::begin(&mut state);
    assert!(matches!(acts[..], [Action::QueryBalance(a)] if a == addr(1)));
    assert_eq!(saga.result(), None);

    // Player 1 is short: gets exactly the shortfall.
    let acts = saga.on_reply(&mut state, LedgerReply::Balance(100_000_000_000_000_000));
    match &acts[..] {
        [Action::Submit(TxRequest::Transfer { to, value, nonce, .. })] => {
            assert_eq!(*to, addr(1));
            assert_eq!(*value, FUND_TARGET - 100_000_000_000_000_000);
            assert_eq!(*nonce, 7);
        }
        other => panic!("unexpected {:?}", other),
    }
    let acts = saga.on_reply(&mut state, LedgerReply::Outcome(TxOutcome::Confirmed));
    assert_eq!(acts.len(), 2);
    assert!(matches!(acts[0], Action::Broadcast(ServerMessage::Funded { amount: FUND_TARGET, .. })));
    assert!(matches!(acts[1], Action::QueryBalance(a) if a == addr(2)));

    // Player 2 is funded: skipped.
    let acts = saga.on_reply(&mut state, LedgerReply::Balance(FUNDED_THRESHOLD));
    assert!(matches!(acts[..], [Action::QueryBalance(a)] if a == addr(3)));

    // Player 3's balance cannot be read: skipped, then reset.
    let acts = saga.on_reply(&mut state, LedgerReply::QueryFailed);
    assert!(matches!(acts[..], [Action::Submit(TxRequest::Reset { nonce: 8, .. })]));

    let acts = saga.on_reply(&mut state, LedgerReply::Outcome(TxOutcome::Confirmed));
    assert!(acts.iter().any(is_start));
    let acts = saga.on_reply(&mut state, LedgerReply::Outcome(TxOutcome::Confirmed));
    assert!(acts.is_empty());
    assert_eq!(saga.result(), Some(Ok(())));
    assert_eq!(state.backend_nonce(), 10);
}

#[test]
fn failed_top_up_moves_to_next_player() {
    let mut state = with_players(0, 2);
    let (mut saga, _) = RestartSaga::begin(&mut state);
    saga.on_reply(&mut state, LedgerReply::Balance(0));
    let acts = saga.on_reply(&mut state, LedgerReply::Outcome(TxOutcome::SubmitFailed { reason: "x".to_string() }));
    assert!(matches!(acts[..], [Action::QueryBalance(a)] if a == addr(2)));
}

#[test]
fn exhausted_nonce_stops_saga() {
    let mut state = AppState::seeded(u64::MAX, 0, 0);
    let (saga, acts) = RestartSaga::begin(&mut state);
    assert!(acts.is_empty());
    assert_eq!(saga.result(), Some(Err(SagaError::NonceExhausted)));
}
