//! Ledger logs: their decoding into game events and their idempotent
//! projection onto the shared state.
use vstd::prelude::*;
use vstd::string::StringSliceAdditionalSpecFns;
use crate::ledger::{keccak, keccak_of};
use crate::messages::{notices, Notice, ServerMessage};
use crate::primitives::{
    read_word_address, read_word_u64, same_word, word_address, word_at, word_u64, Address, TxId,
};
use crate::state::{upsert, AppState, GameView, LogKey};

verus! {

/// Signature of the event that reports a new price: old price, new price, block.
pub const PRICE_UPDATE_SIGNATURE: &'static str = "PriceUpdate(uint256,uint256,uint256)";

/// Signature of the event that reports a player's position: player, balance,
/// holdings, block.
pub const POSITION_SIGNATURE: &'static str = "Position(address,uint256,uint256,uint256)";

/// Signature of the event that reports a newly registered player.
pub const NEW_USER_SIGNATURE: &'static str = "NewUser(address)";

/// Balance that the contract gives a newly registered player.
pub const NEW_USER_BALANCE: u64 = 1000;

/// A log as the ledger delivers it. Logs of pending blocks may lack their
/// transaction or index; those cannot be deduplicated and are dropped.
#[derive(Clone, Debug)]
pub struct RawLog {
    pub tx_id: Option<TxId>,
    pub log_index: Option<u64>,
    pub topic0: Option<[u8; 32]>,
    pub data: Vec<u8>,
}

/// The discriminants (first topics) of the contract's events.
#[derive(Clone, Copy, Debug)]
pub struct EventTopics {
    pub price_update: [u8; 32],
    pub position: [u8; 32],
    pub new_user: [u8; 32],
}

/// A log decoded into a game event.
#[derive(Clone, Copy, Debug)]
pub enum DecodedEvent {
    PriceUpdate { new_price: u64, block_number: u64 },
    Position { user: Address, balance: u64, holdings: u64, block_number: u64 },
    NewUser { user: Address },
}

/// A game event as mathematical values.
pub enum EventView {
    PriceUpdate { new_price: u64, block_number: u64 },
    Position { user: Seq<u8>, balance: u64, holdings: u64, block_number: u64 },
    NewUser { user: Seq<u8> },
}

impl View for DecodedEvent {
    type V = EventView;

    open spec fn view(&self) -> EventView {
        match self {
            DecodedEvent::PriceUpdate { new_price, block_number } => EventView::PriceUpdate {
                new_price: *new_price,
                block_number: *block_number,
            },
            DecodedEvent::Position { user, balance, holdings, block_number } => EventView::Position {
                user: user.bytes@,
                balance: *balance,
                holdings: *holdings,
                block_number: *block_number,
            },
            DecodedEvent::NewUser { user } => EventView::NewUser { user: user.bytes@ },
        }
    }
}

impl EventTopics {
    /// Whether each topic is the Keccak-256 digest of its event's signature.
    pub open spec fn is_standard(&self) -> bool {
        &&& self.price_update@ == keccak_of(PRICE_UPDATE_SIGNATURE.spec_bytes())
        &&& self.position@ == keccak_of(POSITION_SIGNATURE.spec_bytes())
        &&& self.new_user@ == keccak_of(NEW_USER_SIGNATURE.spec_bytes())
    }

    /// The topics of the game contract's events.
    pub fn standard() -> (r: EventTopics)
        ensures
            r.is_standard(),
    {
        EventTopics {
            price_update: keccak(PRICE_UPDATE_SIGNATURE.as_bytes()),
            position: keccak(POSITION_SIGNATURE.as_bytes()),
            new_user: keccak(NEW_USER_SIGNATURE.as_bytes()),
        }
    }
}

/// The deduplication key of a log, when it has one.
pub open spec fn log_key(log: RawLog) -> Option<(Seq<u8>, u64)> {
    match (log.tx_id, log.log_index) {
        (Some(t), Some(i)) => Some((t.bytes@, i)),
        _ => None,
    }
}

/// The event that a log encodes. Each field is one 32-byte word of the data,
/// in declaration order; numbers must fit in 64 bits and addresses carry
/// twelve zero bytes of padding. Unknown discriminants decode to nothing.
pub open spec fn decoded(topics: EventTopics, log: RawLog) -> Option<EventView> {
    let data = log.data@;
    match log.topic0 {
        None => None,
        Some(t) => if t@ == topics.price_update@ {
            if data.len() == 96 {
                match (word_u64(word_at(data, 1)), word_u64(word_at(data, 2))) {
                    (Some(p), Some(b)) => Some(EventView::PriceUpdate { new_price: p, block_number: b }),
                    _ => None,
                }
            } else {
                None
            }
        } else if t@ == topics.position@ {
            if data.len() == 128 {
                match (
                    word_address(word_at(data, 0)),
                    word_u64(word_at(data, 1)),
                    word_u64(word_at(data, 2)),
                    word_u64(word_at(data, 3)),
                ) {
                    (Some(u), Some(bal), Some(h), Some(b)) => Some(
                        EventView::Position { user: u, balance: bal, holdings: h, block_number: b },
                    ),
                    _ => None,
                }
            } else {
                None
            }
        } else if t@ == topics.new_user@ {
            if data.len() == 32 {
                match word_address(word_at(data, 0)) {
                    Some(u) => Some(EventView::NewUser { user: u }),
                    None => None,
                }
            } else {
                None
            }
        } else {
            None
        },
    }
}

/// What a decoded event does to the state, and the notifications it yields.
/// A price replaces the current price; a position replaces the player's
/// balance and holdings and moves the last-position block; a new player is
/// announced with the starting position and changes nothing.
pub open spec fn applied(s: GameView, ev: EventView) -> (GameView, Seq<Notice>) {
    match ev {
        EventView::PriceUpdate { new_price, block_number } => (
            GameView { current_price: new_price, ..s },
            seq![Notice::PriceUpdate { new_price, block_number }],
        ),
        EventView::Position { user, balance, holdings, block_number } => (
            GameView {
                positions: upsert(s.positions, user, (balance, holdings)),
                last_position_block: block_number,
                ..s
            },
            seq![Notice::Position { address: user, balance, holdings, block_number }],
        ),
        EventView::NewUser { user } => (
            s,
            seq![
                Notice::Position {
                    address: user,
                    balance: NEW_USER_BALANCE,
                    holdings: 0,
                    block_number: 0,
                },
            ],
        ),
    }
}

/// The state after a delivered log and the notifications it yields: a log
/// without a key, or whose key was already seen, changes nothing; otherwise
/// its key is recorded and its event, if it decodes, is applied.
pub open spec fn ingested(s: GameView, topics: EventTopics, log: RawLog) -> (GameView, Seq<Notice>) {
    match log_key(log) {
        None => (s, Seq::empty()),
        Some(k) => if s.seen.contains(k) {
            (s, Seq::empty())
        } else {
            let marked = GameView { seen: s.seen.insert(k), ..s };
            match decoded(topics, log) {
                None => (marked, Seq::empty()),
                Some(ev) => applied(marked, ev),
            }
        },
    }
}

/// Decodes a log into a game event, or `None` for an unknown discriminant or
/// malformed data.
pub fn decode_log(topics: &EventTopics, log: &RawLog) -> (r: Option<DecodedEvent>)
    ensures
        match r {
            Some(e) => decoded(*topics, *log) == Some(e@),
            None => decoded(*topics, *log) is None,
        },
{
    let t = match &log.topic0 {
        None => {
            return None;
        },
        Some(t) => t,
    };
    let data = &log.data;
    if same_word(t, &topics.price_update) {
        if data.len() != 96 {
            return None;
        }
        match (read_word_u64(data, 1), read_word_u64(data, 2)) {
            (Some(new_price), Some(block_number)) => Some(
                DecodedEvent::PriceUpdate { new_price, block_number },
            ),
            _ => None,
        }
    } else if same_word(t, &topics.position) {
        if data.len() != 128 {
            return None;
        }
        match (
            read_word_address(data, 0),
            read_word_u64(data, 1),
            read_word_u64(data, 2),
            read_word_u64(data, 3),
        ) {
            (Some(user), Some(balance), Some(holdings), Some(block_number)) => Some(
                DecodedEvent::Position { user, balance, holdings, block_number },
            ),
            _ => None,
        }
    } else if same_word(t, &topics.new_user) {
        if data.len() != 32 {
            return None;
        }
        match read_word_address(data, 0) {
            Some(user) => Some(DecodedEvent::NewUser { user }),
            None => None,
        }
    } else {
        None
    }
}

impl AppState {
    /// Projects one delivered log: drops it when it has no key or its key was
    /// already seen, else records the key, decodes the log, applies the event
    /// and returns the notifications for all sessions.
    pub fn ingest_log(&mut self, topics: &EventTopics, log: &RawLog) -> (r: Vec<ServerMessage>)
        requires
            old(self).wf(),
        ensures
            final(self).wf(),
            (final(self)@, notices(r@)) == ingested(old(self)@, *topics, *log),
    {
        let mut out: Vec<ServerMessage> = Vec::new();
        let key = match (log.tx_id, log.log_index) {
            (Some(tx_id), Some(log_index)) => LogKey { tx_id, log_index },
            _ => {
                assert(notices(out@) =~= Seq::empty());
                return out;
            },
        };
        if self.has_seen(&key) {
            assert(notices(out@) =~= Seq::empty());
            return out;
        }
        self.mark_seen(key);
        match decode_log(topics, log) {
            None => {},
            Some(DecodedEvent::PriceUpdate { new_price, block_number }) => {
                self.set_price(new_price);
                out.push(ServerMessage::PriceUpdate { new_price, block_number });
            },
            Some(DecodedEvent::Position { user, balance, holdings, block_number }) => {
                self.set_position(user, balance, holdings, block_number);
                out.push(ServerMessage::Position { address: user, balance, holdings, block_number });
            },
            Some(DecodedEvent::NewUser { user }) => {
                out.push(
                    ServerMessage::Position {
                        address: user,
                        balance: NEW_USER_BALANCE,
                        holdings: 0,
                        block_number: 0,
                    },
                );
            },
        }
        proof {
            let n = notices(out@);
            let (_, expected) = ingested(old(self)@, *topics, *log);
            assert(n =~= expected);
        }
        out
    }
}

/// Projection only adds to the seen logs and never touches the nonce.
pub proof fn lemma_ingest_keeps_seen_and_nonce(s: GameView, topics: EventTopics, log: RawLog)
    ensures
        s.seen.subset_of(ingested(s, topics, log).0.seen),
        ingested(s, topics, log).0.backend_nonce == s.backend_nonce,
{
}

/// Delivering the same log twice projects it once: the second delivery
/// changes nothing and yields no notification, so the two deliveries together
/// yield exactly the notifications of the first.
pub proof fn lemma_redelivery_is_ignored(s: GameView, topics: EventTopics, log: RawLog)
    requires
        s.wf(),
    ensures
        ({
            let (s1, m1) = ingested(s, topics, log);
            let (s2, m2) = ingested(s1, topics, log);
            &&& s2 == s1
            &&& m2.len() == 0
            &&& m1 + m2 == m1
            &&& m1.len() <= 1
        }),
{
    let (s1, m1) = ingested(s, topics, log);
    let (s2, m2) = ingested(s1, topics, log);
    match log_key(log) {
        None => {},
        Some(k) => {
            if !s.seen.contains(k) {
                assert(s1.seen.contains(k));
            }
        },
    }
    assert(m1 + m2 =~= m1);
}

} // verus!
