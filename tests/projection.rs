use monomarket::events::{decode_log, DecodedEvent, EventTopics, RawLog, NEW_USER_BALANCE};
use monomarket::messages::ServerMessage;
use monomarket::primitives::{Address, TxId};
use monomarket::state::{AppState, INITIAL_PRICE};

fn word(v: u64) -> Vec<u8> {
    let mut w = vec![0u8; 24];
    w.extend_from_slice(&v.to_be_bytes());
    w
}

fn address_word(a: &Address) -> Vec<u8> {
    let mut w = vec![0u8; 12];
    w.extend_from_slice(&a.bytes);
    w
}

fn player(n: u8) -> Address {
    Address { bytes: [n; 20] }
}

fn tx(n: u8) -> TxId {
    TxId { bytes: [n; 32] }
}

fn price_log(tx_id: TxId, index: u64, old: u64, new: u64, block: u64) -> RawLog {
    let topics = EventTopics::standard();
    let mut data = word(old);
    data.extend(word(new));
    data.extend(word(block));
    RawLog { tx_id: Some(tx_id), log_index: Some(index), topic0: Some(topics.price_update), data }
}

fn position_log(tx_id: TxId, index: u64, who: &Address, balance: u64, holdings: u64, block: u64) -> RawLog {
    let topics = EventTopics::standard();
    let mut data = address_word(who);
    data.extend(word(balance));
    data.extend(word(holdings));
    data.extend(word(block));
    RawLog { tx_id: Some(tx_id), log_index: Some(index), topic0: Some(topics.position), data }
}

#[test]
fn duplicate_price_update_is_projected_once() {
    let topics = EventTopics::standard();
    let mut state = AppState::new();
    let log = price_log(tx(1), 0, 50, 55, 100);
    let first = state.ingest_log(&topics, &log);
    let second = state.ingest_log(&topics, &log);
    assert_eq!(state.current_price(), 55);
    assert_eq!(first.len(), 1);
    assert!(matches!(first[0], ServerMessage::PriceUpdate { new_price: 55, block_number: 100 }));
    assert!(second.is_empty());
}

#[test]
fn same_transaction_other_index_is_projected() {
    let topics = EventTopics::standard();
    let mut state = AppState::new();
    assert_eq!(state.ingest_log(&topics, &price_log(tx(1), 0, 50, 55, 100)).len(), 1);
    assert_eq!(state.ingest_log(&topics, &price_log(tx(1), 1, 55, 60, 100)).len(), 1);
    assert_eq!(state.ingest_log(&topics, &price_log(tx(2), 0, 60, 61, 101)).len(), 1);
    assert_eq!(state.current_price(), 61);
}

#[test]
fn position_overwrites_and_moves_last_position_block() {
    let topics = EventTopics::standard();
    let mut state = AppState::new();
    let p = player(7);
    let msgs = state.ingest_log(&topics, &position_log(tx(3), 0, &p, 900, 4, 120));
    assert_eq!(msgs.len(), 1);
    match &msgs[0] {
        ServerMessage::Position { address, balance, holdings, block_number } => {
            assert_eq!(*address, p);
            assert_eq!((*balance, *holdings, *block_number), (900, 4, 120));
        }
        other => panic!("unexpected {:?}", other),
    }
    state.ingest_log(&topics, &position_log(tx(4), 0, &p, 850, 5, 121));
    assert_eq!(state.position_of(&p), Some((850, 5)));
    assert_eq!(state.last_position_block(), 121);
    assert_eq!(state.position_count(), 1);
}

#[test]
fn new_user_announces_starting_position_without_storing_it() {
    let topics = EventTopics::standard();
    let mut state = AppState::new();
    let p = player(9);
    let log = RawLog { tx_id: Some(tx(5)), log_index: Some(2), topic0: Some(topics.new_user), data: address_word(&p) };
    let msgs = state.ingest_log(&topics, &log);
    assert_eq!(msgs.len(), 1);
    match &msgs[0] {
        ServerMessage::Position { address, balance, holdings, block_number } => {
            assert_eq!(*address, p);
            assert_eq!((*balance, *holdings, *block_number), (NEW_USER_BALANCE, 0, 0));
        }
        other => panic!("unexpected {:?}", other),
    }
    assert_eq!(state.position_of(&p), None);
}

#[test]
fn unknown_discriminant_is_dropped_but_remembered() {
    let topics = EventTopics::standard();
    let mut state = AppState::new();
    let log = RawLog { tx_id: Some(tx(6)), log_index: Some(0), topic0: Some([0xab; 32]), data: word(1) };
    assert!(state.ingest_log(&topics, &log).is_empty());
    assert!(decode_log(&topics, &log).is_none());
    assert_eq!(state.current_price(), INITIAL_PRICE);
}

#[test]
fn log_without_identity_is_dropped() {
    let topics = EventTopics::standard();
    let mut state = AppState::new();
    let mut log = price_log(tx(1), 0, 50, 70, 10);
    log.tx_id = None;
    assert!(state.ingest_log(&topics, &log).is_empty());
    assert_eq!(state.current_price(), INITIAL_PRICE);
}

#[test]
fn malformed_data_is_not_decoded() {
    let topics = EventTopics::standard();
    let mut short = price_log(tx(1), 0, 50, 70, 10);
    short.data.truncate(64);
    assert!(decode_log(&topics, &short).is_none());
    let mut big = price_log(tx(1), 0, 50, 70, 10);
    big.data[32] = 1;
    assert!(decode_log(&topics, &big).is_none());
    let mut padded = position_log(tx(1), 0, &player(1), 1, 1, 1);
    padded.data[0] = 1;
    assert!(decode_log(&topics, &padded).is_none());
}

#[test]
fn largest_number_word_decodes() {
    let topics = EventTopics::standard();
    let log = price_log(tx(1), 0, 0, u64::MAX, u64::MAX);
    match decode_log(&topics, &log) {
        Some(DecodedEvent::PriceUpdate { new_price, block_number }) => {
            assert_eq!(new_price, u64::MAX);
            assert_eq!(block_number, u64::MAX);
        }
        other => panic!("unexpected {:?}", other),
    }
}

#[test]
fn event_topics_are_distinct_digests() {
    let t = EventTopics::standard();
    assert_ne!(t.price_update, t.position);
    assert_ne!(t.position, t.new_user);
    assert_ne!(t.price_update, t.new_user);
    assert_ne!(t.price_update, [0u8; 32]);
}
