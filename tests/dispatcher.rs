use monomarket::dispatcher::{BackendTxEvent, CommandCycle, CyclePhase};
use monomarket::messages::ServerMessage;
use monomarket::primitives::{Address, TxId};
use monomarket::state::AppState;
use monomarket::submit::{
    Action, LedgerReply, TxOutcome, TxRequest, FUNDED_THRESHOLD, FUND_TARGET, GAS_PRICE,
    PRIORITY_FEE, TICK_GAS_LIMIT,
};

fn player() -> Address {
    Address { bytes: [0x11; 20] }
}

fn ticking(nonce: u64) -> (CommandCycle, AppState) {
    let mut cycle = CommandCycle::new();
    let mut state = AppState::seeded(nonce, 0, 0);
    let acts = cycle.begin(&mut state, BackendTxEvent::Tick);
    assert_eq!(acts.len(), 1);
    match &acts[0] {
        Action::Submit(TxRequest::Tick { nonce: n, gas_limit, max_fee, priority_fee }) => {
            assert_eq!(*n, nonce);
            assert_eq!(*gas_limit, TICK_GAS_LIMIT);
            assert_eq!(*max_fee, GAS_PRICE);
            assert_eq!(*priority_fee, PRIORITY_FEE);
        }
        other => panic!("unexpected {:?}", other),
    }
    (cycle, state)
}

#[test]
fn already_ticked_consumes_nonce_and_reports_nothing() {
    let (mut cycle, mut state) = ticking(5);
    let acts = cycle.on_reply(
        &mut state,
        LedgerReply::Outcome(TxOutcome::Reverted {
            tx_id: TxId { bytes: [1; 32] },
            reason: "Already ticked this block".to_string(),
        }),
    );
    assert!(acts.is_empty());
    assert_eq!(state.backend_nonce(), 6);
    assert!(cycle.is_idle());
}

#[test]
fn superseded_tick_jumps_nonce_by_twenty() {
    let (mut cycle, mut state) = ticking(40);
    let acts = cycle.on_reply(
        &mut state,
        LedgerReply::Outcome(TxOutcome::SubmitFailed {
            reason: "superseded by higher-priority pending transaction".to_string(),
        }),
    );
    assert_eq!(state.backend_nonce(), 41 + 20);
    assert_eq!(acts.len(), 1);
    match &acts[0] {
        Action::Broadcast(ServerMessage::TxError { error }) => {
            assert_eq!(error, "Failed to process tick: superseded by higher-priority pending transaction");
        }
        other => panic!("unexpected {:?}", other),
    }
    assert!(cycle.is_idle());
}

fn resync_with(local: u64, chain: u64) -> AppState {
    let (mut cycle, mut state) = ticking(local - 1);
    let acts = cycle.on_reply(
        &mut state,
        LedgerReply::Outcome(TxOutcome::SubmitFailed { reason: "nonce too low".to_string() }),
    );
    assert_eq!(acts.len(), 2);
    assert!(matches!(acts[0], Action::Broadcast(ServerMessage::TxError { .. })));
    assert!(matches!(acts[1], Action::QueryChainCount));
    assert!(matches!(cycle.phase, CyclePhase::TickAwaitChainCount));
    assert_eq!(state.backend_nonce(), local);
    let acts = cycle.on_reply(&mut state, LedgerReply::ChainCount(chain));
    assert!(acts.is_empty());
    assert!(cycle.is_idle());
    state
}

#[test]
fn resync_raises_to_chain_count() {
    assert_eq!(resync_with(10, 15).backend_nonce(), 15);
}

#[test]
fn resync_keeps_equal_count() {
    assert_eq!(resync_with(10, 10).backend_nonce(), 10);
}

#[test]
fn resync_never_lowers_nonce() {
    assert_eq!(resync_with(10, 3).backend_nonce(), 10);
}

#[test]
fn failed_chain_count_read_leaves_nonce() {
    let (mut cycle, mut state) = ticking(7);
    cycle.on_reply(&mut state, LedgerReply::Outcome(TxOutcome::SubmitFailed { reason: "boom".to_string() }));
    let acts = cycle.on_reply(&mut state, LedgerReply::QueryFailed);
    assert!(acts.is_empty());
    assert_eq!(state.backend_nonce(), 8);
    assert!(cycle.is_idle());
}

#[test]
fn confirmed_tick_is_quiet() {
    let (mut cycle, mut state) = ticking(0);
    assert!(cycle.on_reply(&mut state, LedgerReply::Outcome(TxOutcome::Confirmed)).is_empty());
    assert_eq!(state.backend_nonce(), 1);
}

#[test]
fn funded_player_gets_no_transaction() {
    let mut cycle = CommandCycle::new();
    let mut state = AppState::seeded(3, 0, 0);
    let acts = cycle.begin(&mut state, BackendTxEvent::Fund(player()));
    assert!(matches!(acts[..], [Action::QueryBalance(a)] if a == player()));
    let acts = cycle.on_reply(&mut state, LedgerReply::Balance(FUNDED_THRESHOLD));
    assert_eq!(acts.len(), 2);
    match &acts[0] {
        Action::Reply(ServerMessage::Funded { address, amount }) => {
            assert_eq!(*address, player());
            assert_eq!(*amount, FUNDED_THRESHOLD);
        }
        other => panic!("unexpected {:?}", other),
    }
    assert!(matches!(acts[1], Action::QueryContractPosition(a) if a == player()));
    let acts = cycle.on_reply(&mut state, LedgerReply::ContractPosition { balance: 700, holdings: 3 });
    assert_eq!(acts.len(), 1);
    assert!(matches!(
        acts[0],
        Action::Reply(ServerMessage::Position { balance: 700, holdings: 3, block_number: 0, .. })
    ));
    assert_eq!(state.backend_nonce(), 3);
    assert!(cycle.is_idle());
}

#[test]
fn funded_player_without_holdings_gets_no_position() {
    let mut cycle = CommandCycle::new();
    let mut state = AppState::new();
    cycle.begin(&mut state, BackendTxEvent::Fund(player()));
    cycle.on_reply(&mut state, LedgerReply::Balance(u64::MAX));
    let acts = cycle.on_reply(&mut state, LedgerReply::ContractPosition { balance: 700, holdings: 0 });
    assert!(acts.is_empty());
}

#[test]
fn poor_player_is_funded_to_target() {
    let mut cycle = CommandCycle::new();
    let mut state = AppState::seeded(9, 0, 0);
    cycle.begin(&mut state, BackendTxEvent::Fund(player()));
    let acts = cycle.on_reply(&mut state, LedgerReply::Balance(FUNDED_THRESHOLD - 1));
    assert_eq!(acts.len(), 1);
    match &acts[0] {
        Action::Submit(TxRequest::Transfer { to, value, nonce, gas_limit, gas_price }) => {
            assert_eq!(*to, player());
            assert_eq!(*value, FUND_TARGET);
            assert_eq!(*nonce, 9);
            assert_eq!(*gas_limit, 25_000);
            assert_eq!(*gas_price, 0x21d664903c);
        }
        other => panic!("unexpected {:?}", other),
    }
    assert_eq!(state.backend_nonce(), 10);
    let acts = cycle.on_reply(&mut state, LedgerReply::Outcome(TxOutcome::Confirmed));
    assert!(matches!(
        acts[..],
        [Action::Reply(ServerMessage::Funded { amount: FUND_TARGET, .. })]
    ));
    assert!(cycle.is_idle());
}

#[test]
fn reverted_funding_reports_transaction() {
    let mut cycle = CommandCycle::new();
    let mut state = AppState::new();
    cycle.begin(&mut state, BackendTxEvent::Fund(player()));
    cycle.on_reply(&mut state, LedgerReply::Balance(0));
    let mut id = [0u8; 32];
    id[0] = 0xab;
    id[31] = 0x01;
    let acts = cycle.on_reply(
        &mut state,
        LedgerReply::Outcome(TxOutcome::Reverted { tx_id: TxId { bytes: id }, reason: String::new() }),
    );
    match &acts[..] {
        [Action::Reply(ServerMessage::FundError { address, error })] => {
            assert_eq!(*address, player());
            assert_eq!(
                error,
                "Funding transaction failed: 0xab00000000000000000000000000000000000000000000000000000000000001"
            );
        }
        other => panic!("unexpected {:?}", other),
    }
}

#[test]
fn refused_funding_reports_reason() {
    let mut cycle = CommandCycle::new();
    let mut state = AppState::new();
    cycle.begin(&mut state, BackendTxEvent::Fund(player()));
    cycle.on_reply(&mut state, LedgerReply::Balance(0));
    let acts = cycle.on_reply(
        &mut state,
        LedgerReply::Outcome(TxOutcome::SubmitFailed { reason: "insufficient funds".to_string() }),
    );
    match &acts[..] {
        [Action::Reply(ServerMessage::FundError { error, .. })] => {
            assert_eq!(error, "Failed to fund account: insufficient funds");
        }
        other => panic!("unexpected {:?}", other),
    }
}

#[test]
fn failed_balance_read_abandons_fund() {
    let mut cycle = CommandCycle::new();
    let mut state = AppState::new();
    cycle.begin(&mut state, BackendTxEvent::Fund(player()));
    assert!(cycle.on_reply(&mut state, LedgerReply::QueryFailed).is_empty());
    assert!(cycle.is_idle());
    assert_eq!(state.backend_nonce(), 0);
}

#[test]
fn game_over_is_broadcast() {
    let mut cycle = CommandCycle::new();
    let mut state = AppState::new();
    let acts = cycle.begin(&mut state, BackendTxEvent::GameOver);
    assert!(matches!(acts[..], [Action::Broadcast(ServerMessage::GameEnded)]));
    assert!(cycle.is_idle());
}

#[test]
fn command_while_busy_is_ignored() {
    let (mut cycle, mut state) = ticking(1);
    assert!(cycle.begin(&mut state, BackendTxEvent::GameOver).is_empty());
    assert!(matches!(cycle.phase, CyclePhase::TickAwaitOutcome));
}

#[test]
fn exhausted_nonce_refuses_tick() {
    let mut cycle = CommandCycle::new();
    let mut state = AppState::seeded(u64::MAX, 0, 0);
    let acts = cycle.begin(&mut state, BackendTxEvent::Tick);
    assert!(matches!(acts[..], [Action::Broadcast(ServerMessage::TxError { .. })]));
    assert_eq!(state.backend_nonce(), u64::MAX);
}

#[test]
fn reservations_are_consecutive() {
    let mut state = AppState::seeded(100, 0, 0);
    let mut got: Vec<u64> = (0..50).map(|_| state.reserve_nonce()).collect();
    got.sort();
    got.dedup();
    assert_eq!(got, (100..150).collect::<Vec<u64>>());
    assert_eq!(state.backend_nonce(), 150);
}
