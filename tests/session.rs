use monomarket::messages::{ClientMessage, GasCosts, ServerMessage};
use monomarket::primitives::Address;
use monomarket::session::{initial_messages, interpret, SessionRequest};
use monomarket::state::AppState;

#[test]
fn new_session_sees_game_window_before_broadcasts() {
    let mut state = AppState::seeded(0, 1000, 2000);
    state.set_block_height(1500);
    let p = Address { bytes: [3; 20] };
    state.set_name(p, "alice".to_string());
    state.set_position(p, 900, 2, 1400);
    let contract = Address { bytes: [0xcc; 20] };
    let msgs = initial_messages(&state, contract, &GasCosts::measured());
    assert_eq!(msgs.len(), 6);
    match &msgs[0] {
        ServerMessage::ConnectionInfo { contract_address, gas_costs } => {
            assert_eq!(*contract_address, contract);
            assert_eq!((gas_costs.register, gas_costs.buy, gas_costs.sell), (115_000, 39733, 39733));
        }
        other => panic!("unexpected {:?}", other),
    }
    assert!(matches!(msgs[1], ServerMessage::CurrentPrice { price: 50 }));
    assert!(matches!(msgs[2], ServerMessage::CurrentBlockHeight { height: 1500 }));
    assert!(matches!(msgs[3], ServerMessage::GameStarted { start_height: 1000, end_height: 2000 }));
    match &msgs[4] {
        ServerMessage::NameSet { address, name } => {
            assert_eq!(*address, p);
            assert_eq!(name, "alice");
        }
        other => panic!("unexpected {:?}", other),
    }
    assert!(matches!(msgs[5], ServerMessage::Position { balance: 900, holdings: 2, block_number: 0, .. }));
}

#[test]
fn ended_game_window_is_not_announced() {
    let mut state = AppState::seeded(0, 1000, 2000);
    state.set_block_height(2001);
    let msgs = initial_messages(&state, Address { bytes: [0; 20] }, &GasCosts::measured());
    assert_eq!(msgs.len(), 3);
}

#[test]
fn unordered_window_is_not_seeded() {
    let state = AppState::seeded(4, 10, 5);
    assert_eq!(state.game_window(), None);
    assert_eq!(state.backend_nonce(), 4);
}

#[test]
fn set_name_parses_address_of_either_case() {
    let text = "0xAbCdEf0123456789abcdef0123456789ABCDEF01";
    match interpret(ClientMessage::SetName { name: "bob".to_string(), address: text.to_string() }) {
        SessionRequest::SetName { address, name } => {
            assert_eq!(name, "bob");
            assert_eq!(address.bytes[0], 0xab);
            assert_eq!(address.bytes[1], 0xcd);
            assert_eq!(address.bytes[19], 0x01);
        }
        other => panic!("unexpected {:?}", other),
    }
    match interpret(ClientMessage::GetNonce { address: "abcdef0123456789abcdef0123456789abcdef01".to_string() }) {
        SessionRequest::GetNonce { address } => assert_eq!(address.bytes[0], 0xab),
        other => panic!("unexpected {:?}", other),
    }
}

#[test]
fn bad_address_is_ignored() {
    let r = interpret(ClientMessage::SetName { name: "x".to_string(), address: "0x1234".to_string() });
    assert!(matches!(r, SessionRequest::Ignore));
    let r = interpret(ClientMessage::GetNonce { address: "0xzz23456789abcdef0123456789abcdef01234567".to_string() });
    assert!(matches!(r, SessionRequest::Ignore));
}

#[test]
fn raw_transaction_is_decoded() {
    match interpret(ClientMessage::RawTx { raw_tx: "0x02f8".to_string() }) {
        SessionRequest::SubmitRaw { tx } => assert_eq!(tx, vec![0x02, 0xf8]),
        other => panic!("unexpected {:?}", other),
    }
    match interpret(ClientMessage::RawTx { raw_tx: "0x2f8".to_string() }) {
        SessionRequest::Reply(ServerMessage::TxError { error }) => {
            assert_eq!(error, "Failed to parse transaction: invalid hex")
        }
        other => panic!("unexpected {:?}", other),
    }
}

#[test]
fn restart_request_is_passed_on() {
    assert!(matches!(interpret(ClientMessage::RestartGame), SessionRequest::Restart));
}

#[test]
fn renaming_replaces_entry() {
    let mut state = AppState::new();
    let p = Address { bytes: [5; 20] };
    state.set_name(p, "a".to_string());
    let msg = state.set_name(p, "b".to_string());
    assert!(matches!(msg, ServerMessage::NameSet { ref name, .. } if name == "b"));
    assert_eq!(state.name_count(), 1);
    assert_eq!(state.name_of(&p), Some("b".to_string()));
}
