//! The shared game state that the ledger is mirrored into.
use vstd::prelude::*;
use crate::messages::{Notice, ServerMessage};
use crate::primitives::{same_address, same_tx_id, Address, TxId};
use std::collections::HashMap;

verus! {

/// Price of the stock before the ledger has reported one.
pub const INITIAL_PRICE: u64 = 50;

/// How far the nonce jumps to leave a sequence position that a stuck
/// transaction holds.
pub const NONCE_SKIP: u64 = 20;

/// A display name chosen by a player.
#[derive(Clone, Debug)]
pub struct NameEntry {
    pub address: Address,
    pub name: String,
}

/// A player's balance and holdings as last reported by the ledger.
#[derive(Clone, Copy, Debug)]
pub struct PositionEntry {
    pub address: Address,
    pub balance: u64,
    pub holdings: u64,
}

/// Identity of one ledger log: the transaction that emitted it and its index.
#[derive(Clone, Copy, Debug)]
pub struct LogKey {
    pub tx_id: TxId,
    pub log_index: u64,
}

impl LogKey {
    pub open spec fn view(&self) -> (Seq<u8>, u64) {
        (self.tx_id.bytes@, self.log_index)
    }
}

/// The game state as mathematical values. Names and positions are keyed by
/// address bytes, each key once, in the order in which keys first arrived;
/// seen logs are the keys of every log already projected.
pub struct GameView {
    pub names: Seq<(Seq<u8>, Seq<char>)>,
    pub positions: Seq<(Seq<u8>, (u64, u64))>,
    pub seen: Set<(Seq<u8>, u64)>,
    pub current_price: u64,
    pub backend_nonce: u64,
    pub last_position_block: u64,
    pub game_start_block: Option<u64>,
    pub game_end_block: Option<u64>,
    pub current_block_height: u64,
}

/// No key occurs twice.
pub open spec fn keys_unique<V>(s: Seq<(Seq<u8>, V)>) -> bool {
    forall|i: int, j: int| 0 <= i < j < s.len() ==> s[i].0 != s[j].0
}

/// Whether some entry holds the key `k`.
pub open spec fn has_key<V>(s: Seq<(Seq<u8>, V)>, k: Seq<u8>) -> bool {
    exists|i: int| 0 <= i < s.len() && s[i].0 == k
}

/// The value stored under `k`, if any.
pub open spec fn lookup<V>(s: Seq<(Seq<u8>, V)>, k: Seq<u8>) -> Option<V> {
    if has_key(s, k) {
        Some(s[choose|i: int| 0 <= i < s.len() && s[i].0 == k].1)
    } else {
        None
    }
}

/// `s` with the value under `k` replaced in place, or with `(k, v)` appended
/// when `k` is new.
pub open spec fn upsert<V>(s: Seq<(Seq<u8>, V)>, k: Seq<u8>, v: V) -> Seq<(Seq<u8>, V)> {
    if has_key(s, k) {
        s.update(choose|i: int| 0 <= i < s.len() && s[i].0 == k, (k, v))
    } else {
        s.push((k, v))
    }
}

impl GameView {
    /// The invariant of the state.
    pub open spec fn wf(self) -> bool {
        &&& keys_unique(self.names)
        &&& keys_unique(self.positions)
        &&& (self.game_start_block is Some <==> self.game_end_block is Some)
        &&& (self.game_start_block is Some ==> self.game_start_block->0
            <= self.game_end_block->0)
    }
}

/// The shared state: names, positions, seen logs, price, nonce and game window.
pub struct AppState {
    pub(crate) names: Vec<NameEntry>,
    pub(crate) positions: Vec<PositionEntry>,
    pub(crate) seen_logs: HashMap<u64, Vec<LogKey>>,
    pub(crate) current_price: u64,
    pub(crate) backend_nonce: u64,
    pub(crate) last_position_block: u64,
    pub(crate) game_start_block: Option<u64>,
    pub(crate) game_end_block: Option<u64>,
    pub(crate) current_block_height: u64,
}

/// What a resync against the ledger's transaction count did to the nonce.
#[derive(Clone, Copy, Debug, PartialEq, Eq, Structural)]
pub enum ChainNonceOutcome {
    /// The ledger was ahead; its count was adopted.
    Raised,
    /// The two agreed.
    InSync,
    /// The ledger was behind (transactions still pending); the local value stays.
    KeptLocal,
}

impl View for AppState {
    type V = GameView;

    closed spec fn view(&self) -> GameView {
        GameView {
            names: Seq::new(
                self.names@.len(),
                |i: int| (self.names@[i].address.bytes@, self.names@[i].name@),
            ),
            positions: Seq::new(
                self.positions@.len(),
                |i: int|
                    (
                        self.positions@[i].address.bytes@,
                        (self.positions@[i].balance, self.positions@[i].holdings),
                    ),
            ),
            seen: Set::new(
                |k: (Seq<u8>, u64)|
                    exists|b: u64, i: int|
                        #![trigger self.seen_logs@[b]@[i]]
                        self.seen_logs@.contains_key(b) && 0 <= i < self.seen_logs@[b]@.len()
                            && self.seen_logs@[b]@[i].view() == k,
            ),
            current_price: self.current_price,
            backend_nonce: self.backend_nonce,
            last_position_block: self.last_position_block,
            game_start_block: self.game_start_block,
            game_end_block: self.game_end_block,
            current_block_height: self.current_block_height,
        }
    }
}

/// One reservation: the current nonce is handed out and the counter moves
/// past it.
pub open spec fn reserved(s: GameView) -> (u64, GameView) {
    (s.backend_nonce, GameView { backend_nonce: (s.backend_nonce + 1) as u64, ..s })
}

/// The nonces handed out by `n` reservations in a row, and the state after them.
pub open spec fn reservation_run(s: GameView, n: nat) -> (Seq<u64>, GameView)
    decreases n,
{
    if n == 0 {
        (Seq::empty(), s)
    } else {
        let (first, next) = reserved(s);
        let (rest, last) = reservation_run(next, (n - 1) as nat);
        (seq![first] + rest, last)
    }
}

/// Reservations in a row hand out `start, start + 1, ..., start + n - 1`, each
/// once, and leave the counter at `start + n`: no two reservations share a
/// nonce and none is skipped.
pub proof fn lemma_reservations_are_consecutive(s: GameView, n: nat)
    requires
        s.backend_nonce + n <= u64::MAX,
    ensures
        ({
            let (got, last) = reservation_run(s, n);
            &&& got.len() == n
            &&& forall|i: int| 0 <= i < n ==> got[i] == s.backend_nonce + i
            &&& got.no_duplicates()
            &&& got.to_set() == Set::new(|x: u64| s.backend_nonce <= x < s.backend_nonce + n)
            &&& last.backend_nonce == s.backend_nonce + n
            &&& last == (GameView { backend_nonce: last.backend_nonce, ..s })
        }),
    decreases n,
{
    let (got, last) = reservation_run(s, n);
    if n > 0 {
        let (first, next) = reserved(s);
        lemma_reservations_are_consecutive(next, (n - 1) as nat);
        let (rest, _) = reservation_run(next, (n - 1) as nat);
        assert(got == seq![first] + rest);
        assert forall|i: int| 0 <= i < n implies got[i] == s.backend_nonce + i by {
            if i > 0 {
                assert(got[i] == rest[i - 1]);
            }
        }
    }
    assert forall|i: int, j: int| 0 <= i < got.len() && 0 <= j < got.len() && i != j implies got[i]
        != got[j] by {}
    assert forall|x: u64| got.to_set().contains(x) <==> s.backend_nonce <= x < s.backend_nonce + n by {
        if s.backend_nonce <= x < s.backend_nonce + n {
            assert(got[x - s.backend_nonce] == x);
        }
    }
    assert(got.to_set() =~= Set::new(|x: u64| s.backend_nonce <= x < s.backend_nonce + n));
}

/// A lookup finds the entry at an index that holds the key, when keys are unique.
proof fn lemma_unique_index<V>(s: Seq<(Seq<u8>, V)>, k: Seq<u8>, i: int)
    requires
        keys_unique(s),
        0 <= i < s.len(),
        s[i].0 == k,
    ensures
        has_key(s, k),
        (choose|j: int| 0 <= j < s.len() && s[j].0 == k) == i,
        lookup(s, k) == Some(s[i].1),
        upsert(s, k, s[i].1) == s.update(i, (k, s[i].1)),
{
    let j = choose|j: int| 0 <= j < s.len() && s[j].0 == k;
    if j < i {
        assert(s[j].0 != s[i].0);
    } else if i < j {
        assert(s[i].0 != s[j].0);
    }
}

/// Replacing the value of a present key, or appending a new key, keeps keys unique.
proof fn lemma_upsert_unique<V>(s: Seq<(Seq<u8>, V)>, k: Seq<u8>, v: V)
    requires
        keys_unique(s),
    ensures
        keys_unique(upsert(s, k, v)),
        has_key(upsert(s, k, v), k),
        upsert(s, k, v).len() == if has_key(s, k) { s.len() } else { s.len() + 1 },
{
    let u = upsert(s, k, v);
    if has_key(s, k) {
        let i = choose|j: int| 0 <= j < s.len() && s[j].0 == k;
        assert(u[i].0 == k);
        assert forall|a: int, b: int| 0 <= a < b < u.len() implies u[a].0 != u[b].0 by {
            assert(s[a].0 != s[b].0);
        }
    } else {
        assert(u[s.len() as int].0 == k);
        assert forall|a: int, b: int| 0 <= a < b < u.len() implies u[a].0 != u[b].0 by {
            if b < s.len() {
                assert(s[a].0 != s[b].0);
            } else {
                assert(s[a].0 != k);
            }
        }
    }
}

/// Bucket of a transaction identifier: a polynomial fold of its bytes.
pub open spec fn tx_fold(s: Seq<u8>) -> u64
    decreases s.len(),
{
    if s.len() == 0 {
        0
    } else {
        tx_fold(s.drop_last()).wrapping_mul(31).wrapping_add(s.last() as u64)
    }
}

/// The bucket that holds a log key among the seen logs.
pub open spec fn bucket_of(k: (Seq<u8>, u64)) -> u64 {
    tx_fold(k.0).wrapping_add(k.1)
}

/// Computes the bucket of a log key.
fn bucket_key(key: &LogKey) -> (r: u64)
    ensures
        r == bucket_of(key.view()),
{
    let ghost t = key.tx_id.bytes@;
    let mut acc: u64 = 0;
    let mut i: usize = 0;
    while i < 32
        invariant
            i <= 32,
            t == key.tx_id.bytes@,
            acc == tx_fold(t.subrange(0, i as int)),
        decreases 32 - i,
    {
        let b = key.tx_id.bytes[i];
        proof {
            assert(t.subrange(0, i as int + 1).drop_last() =~= t.subrange(0, i as int));
        }
        acc = acc.wrapping_mul(31).wrapping_add(b as u64);
        i += 1;
    }
    assert(t.subrange(0, 32) =~= t);
    acc.wrapping_add(key.log_index)
}

impl AppState {
    /// The invariant: that of the view, and each seen key stored in its bucket.
    pub open spec fn wf(&self) -> bool {
        &&& self@.wf()
        &&& self.buckets_placed()
    }

    /// Each seen key is stored in the bucket that `bucket_of` names.
    pub closed spec fn buckets_placed(&self) -> bool {
        forall|b: u64, i: int|
            #![trigger self.seen_logs@[b]@[i]]
            self.seen_logs@.contains_key(b) && 0 <= i < self.seen_logs@[b]@.len() ==> bucket_of(
                self.seen_logs@[b]@[i].view(),
            ) == b
    }

    /// A fresh state: no players, no seen logs, the initial price, nonce zero
    /// and no game window.
    pub fn new() -> (r: AppState)
        ensures
            r.wf(),
            r@.names.len() == 0,
            r@.positions.len() == 0,
            r@.seen == Set::<(Seq<u8>, u64)>::empty(),
            r@.current_price == INITIAL_PRICE,
            r@.backend_nonce == 0,
            r@.last_position_block == 0,
            r@.game_start_block is None,
            r@.game_end_block is None,
            r@.current_block_height == 0,
    {
        let r = AppState {
            names: Vec::new(),
            positions: Vec::new(),
            seen_logs: HashMap::new(),
            current_price: INITIAL_PRICE,
            backend_nonce: 0,
            last_position_block: 0,
            game_start_block: None,
            game_end_block: None,
            current_block_height: 0,
        };
        assert(r@.seen =~= Set::<(Seq<u8>, u64)>::empty());
        r
    }

    /// A fresh state seeded from the ledger at start-up: the writer's
    /// transaction count as the nonce, and the contract's game window when a
    /// game has been started (`start_block > 0`) and the window is ordered.
    pub fn seeded(nonce: u64, start_block: u64, end_block: u64) -> (r: AppState)
        ensures
            r.wf(),
            r@.names.len() == 0,
            r@.positions.len() == 0,
            r@.seen == Set::<(Seq<u8>, u64)>::empty(),
            r@.current_price == INITIAL_PRICE,
            r@.backend_nonce == nonce,
            r@.last_position_block == 0,
            r@.current_block_height == 0,
            r@.game_start_block == (if start_block > 0 && start_block <= end_block {
                Some(start_block)
            } else {
                None
            }),
            r@.game_end_block == (if start_block > 0 && start_block <= end_block {
                Some(end_block)
            } else {
                None
            }),
    {
        let mut r = AppState::new();
        r.backend_nonce = nonce;
        if start_block > 0 && start_block <= end_block {
            r.game_start_block = Some(start_block);
            r.game_end_block = Some(end_block);
        }
        r
    }

    pub fn current_price(&self) -> (r: u64)
        ensures
            r == self@.current_price,
    {
        self.current_price
    }

    pub fn backend_nonce(&self) -> (r: u64)
        ensures
            r == self@.backend_nonce,
    {
        self.backend_nonce
    }

    pub fn last_position_block(&self) -> (r: u64)
        ensures
            r == self@.last_position_block,
    {
        self.last_position_block
    }

    pub fn current_block_height(&self) -> (r: u64)
        ensures
            r == self@.current_block_height,
    {
        self.current_block_height
    }

    pub fn game_window(&self) -> (r: Option<(u64, u64)>)
        requires
            self.wf(),
        ensures
            r == (if self@.game_start_block is Some {
                Some((self@.game_start_block->0, self@.game_end_block->0))
            } else {
                None
            }),
    {
        match (self.game_start_block, self.game_end_block) {
            (Some(s), Some(e)) => Some((s, e)),
            _ => None,
        }
    }

    /// Hands out the next nonce of the writer and advances the counter by one.
    /// Tasks that share the state call this under its exclusive lock, so
    /// concurrent reservations form a run of consecutive calls.
    pub fn reserve_nonce(&mut self) -> (r: u64)
        requires
            old(self).wf(),
            old(self)@.backend_nonce < u64::MAX,
        ensures
            final(self).wf(),
            (r, final(self)@) == reserved(old(self)@),
    {
        let r = self.backend_nonce;
        self.backend_nonce = r + 1;
        r
    }

    /// Jumps the nonce forward past positions held by stuck transactions.
    pub fn skip_nonces(&mut self)
        requires
            old(self).wf(),
            old(self)@.backend_nonce <= u64::MAX - NONCE_SKIP,
        ensures
            final(self).wf(),
            final(self)@ == (GameView {
                backend_nonce: (old(self)@.backend_nonce + NONCE_SKIP) as u64,
                ..old(self)@
            }),
    {
        self.backend_nonce = self.backend_nonce + NONCE_SKIP;
    }

    /// Resynchronises with the ledger's count of the writer's transactions:
    /// the nonce becomes the larger of the two, so it never decreases.
    pub fn adopt_chain_nonce(&mut self, chain_count: u64) -> (r: ChainNonceOutcome)
        requires
            old(self).wf(),
        ensures
            final(self).wf(),
            final(self)@ == (GameView {
                backend_nonce: if chain_count > old(self)@.backend_nonce {
                    chain_count
                } else {
                    old(self)@.backend_nonce
                },
                ..old(self)@
            }),
            r == (if chain_count > old(self)@.backend_nonce {
                ChainNonceOutcome::Raised
            } else if chain_count == old(self)@.backend_nonce {
                ChainNonceOutcome::InSync
            } else {
                ChainNonceOutcome::KeptLocal
            }),
    {
        if chain_count > self.backend_nonce {
            self.backend_nonce = chain_count;
            ChainNonceOutcome::Raised
        } else if chain_count == self.backend_nonce {
            ChainNonceOutcome::InSync
        } else {
            ChainNonceOutcome::KeptLocal
        }
    }

    /// Index of the name entry of an address.
    fn find_name(&self, address: &Address) -> (r: Option<usize>)
        requires
            self.wf(),
        ensures
            match r {
                Some(i) => i < self@.names.len() && self@.names[i as int].0 == address.bytes@,
                None => !has_key(self@.names, address.bytes@),
            },
    {
        let mut i: usize = 0;
        while i < self.names.len()
            invariant
                i <= self.names@.len(),
                forall|j: int| 0 <= j < i ==> self@.names[j].0 != address.bytes@,
            decreases self.names@.len() - i,
        {
            if same_address(&self.names[i].address, address) {
                return Some(i);
            }
            i += 1;
        }
        None
    }

    /// Index of the position entry of an address.
    fn find_position(&self, address: &Address) -> (r: Option<usize>)
        requires
            self.wf(),
        ensures
            match r {
                Some(i) => i < self@.positions.len() && self@.positions[i as int].0
                    == address.bytes@,
                None => !has_key(self@.positions, address.bytes@),
            },
    {
        let mut i: usize = 0;
        while i < self.positions.len()
            invariant
                i <= self.positions@.len(),
                forall|j: int| 0 <= j < i ==> self@.positions[j].0 != address.bytes@,
            decreases self.positions@.len() - i,
        {
            if same_address(&self.positions[i].address, address) {
                return Some(i);
            }
            i += 1;
        }
        None
    }

    /// The display name of an address, if one was set.
    pub fn name_of(&self, address: &Address) -> (r: Option<String>)
        requires
            self.wf(),
        ensures
            match lookup(self@.names, address.bytes@) {
                Some(n) => r is Some && r->0@ == n,
                None => r is None,
            },
    {
        match self.find_name(address) {
            Some(i) => {
                proof {
                    lemma_unique_index(self@.names, address.bytes@, i as int);
                }
                Some(self.names[i].name.clone())
            },
            None => None,
        }
    }

    /// The last reported balance and holdings of an address.
    pub fn position_of(&self, address: &Address) -> (r: Option<(u64, u64)>)
        requires
            self.wf(),
        ensures
            r == lookup(self@.positions, address.bytes@),
    {
        match self.find_position(address) {
            Some(i) => {
                proof {
                    lemma_unique_index(self@.positions, address.bytes@, i as int);
                }
                Some((self.positions[i].balance, self.positions[i].holdings))
            },
            None => None,
        }
    }

    /// Number of players with a display name.
    pub fn name_count(&self) -> (r: usize)
        ensures
            r == self@.names.len(),
    {
        self.names.len()
    }

    /// The name entry at a registry position.
    pub fn name_at(&self, i: usize) -> (r: (Address, String))
        requires
            i < self@.names.len(),
        ensures
            r.0.bytes@ == self@.names[i as int].0,
            r.1@ == self@.names[i as int].1,
    {
        (self.names[i].address, self.names[i].name.clone())
    }

    /// Number of players with a known position.
    pub fn position_count(&self) -> (r: usize)
        ensures
            r == self@.positions.len(),
    {
        self.positions.len()
    }

    /// The position entry at a registry position: address, balance, holdings.
    pub fn position_at(&self, i: usize) -> (r: (Address, u64, u64))
        requires
            i < self@.positions.len(),
        ensures
            r.0.bytes@ == self@.positions[i as int].0,
            (r.1, r.2) == self@.positions[i as int].1,
    {
        let p = self.positions[i];
        (p.address, p.balance, p.holdings)
    }

    /// The addresses of all players with a display name, in registry order.
    pub fn player_addresses(&self) -> (r: Vec<Address>)
        ensures
            r@.len() == self@.names.len(),
            forall|i: int| 0 <= i < r@.len() ==> r@[i].bytes@ == self@.names[i].0,
    {
        let mut out: Vec<Address> = Vec::new();
        let mut i: usize = 0;
        while i < self.names.len()
            invariant
                i <= self.names@.len(),
                out@.len() == i,
                forall|k: int| 0 <= k < i ==> out@[k].bytes@ == self@.names[k].0,
            decreases self.names@.len() - i,
        {
            out.push(self.names[i].address);
            i += 1;
        }
        out
    }

    /// Records a player's display name, replacing an earlier one, and returns
    /// the notification for all sessions.
    pub fn set_name(&mut self, address: Address, name: String) -> (r: ServerMessage)
        requires
            old(self).wf(),
        ensures
            final(self).wf(),
            final(self)@ == (GameView {
                names: upsert(old(self)@.names, address.bytes@, name@),
                ..old(self)@
            }),
            r@ == (Notice::NameSet { address: address.bytes@, name: name@ }),
    {
        let ghost old_names = self@.names;
        let copy = name.clone();
        let entry = NameEntry { address, name };
        match self.find_name(&address) {
            Some(i) => {
                proof {
                    lemma_unique_index(old_names, address.bytes@, i as int);
                }
                self.names.set(i, entry);
                assert(self@.names =~= old_names.update(i as int, (address.bytes@, name@)));
            },
            None => {
                self.names.push(entry);
                assert(self@.names =~= old_names.push((address.bytes@, name@)));
            },
        }
        proof {
            lemma_upsert_unique(old_names, address.bytes@, name@);
        }
        assert(self@.positions =~= old(self)@.positions);
        assert(self@.seen =~= old(self)@.seen);
        ServerMessage::NameSet { address, name: copy }
    }

    /// Overwrites a player's position with the ledger's latest report and
    /// moves the last-position block to the report's block.
    pub fn set_position(&mut self, address: Address, balance: u64, holdings: u64, block: u64)
        requires
            old(self).wf(),
        ensures
            final(self).wf(),
            final(self)@ == (GameView {
                positions: upsert(old(self)@.positions, address.bytes@, (balance, holdings)),
                last_position_block: block,
                ..old(self)@
            }),
    {
        let ghost old_positions = self@.positions;
        let entry = PositionEntry { address, balance, holdings };
        match self.find_position(&address) {
            Some(i) => {
                proof {
                    lemma_unique_index(old_positions, address.bytes@, i as int);
                }
                self.positions.set(i, entry);
                assert(self@.positions =~= old_positions.update(
                    i as int,
                    (address.bytes@, (balance, holdings)),
                ));
            },
            None => {
                self.positions.push(entry);
                assert(self@.positions =~= old_positions.push((address.bytes@, (balance, holdings))));
            },
        }
        proof {
            lemma_upsert_unique(old_positions, address.bytes@, (balance, holdings));
        }
        self.last_position_block = block;
        assert(self@.names =~= old(self)@.names);
        assert(self@.seen =~= old(self)@.seen);
    }

    /// Sets the current price.
    pub fn set_price(&mut self, price: u64)
        requires
            old(self).wf(),
        ensures
            final(self).wf(),
            final(self)@ == (GameView { current_price: price, ..old(self)@ }),
    {
        self.current_price = price;
        assert(self@.names =~= old(self)@.names);
        assert(self@.positions =~= old(self)@.positions);
        assert(self@.seen =~= old(self)@.seen);
    }

    /// Whether a log with this key was already projected.
    pub fn has_seen(&self, key: &LogKey) -> (r: bool)
        requires
            self.wf(),
        ensures
            r == self@.seen.contains(key.view()),
    {
        broadcast use vstd::std_specs::hash::group_hash_axioms;

        let b = bucket_key(key);
        let bucket = match self.seen_logs.get(&b) {
            Some(bucket) => bucket,
            None => {
                proof {
                    if self@.seen.contains(key.view()) {
                        let (b2, i2) = choose|b2: u64, i2: int|
                            #![trigger self.seen_logs@[b2]@[i2]]
                            self.seen_logs@.contains_key(b2) && 0 <= i2 < self.seen_logs@[b2]@.len()
                                && self.seen_logs@[b2]@[i2].view() == key.view();
                        assert(bucket_of(self.seen_logs@[b2]@[i2].view()) == b2);
                    }
                }
                return false;
            },
        };
        let mut i: usize = 0;
        while i < bucket.len()
            invariant
                self.seen_logs@.contains_key(b),
                self.seen_logs@[b] == *bucket,
                b == bucket_of(key.view()),
                i <= bucket@.len(),
                forall|j: int| 0 <= j < i ==> bucket@[j].view() != key.view(),
            decreases bucket@.len() - i,
        {
            let k = &bucket[i];
            if k.log_index == key.log_index && same_tx_id(&k.tx_id, &key.tx_id) {
                assert(self.seen_logs@[b]@[i as int].view() == key.view());
                return true;
            }
            i += 1;
        }
        proof {
            if self@.seen.contains(key.view()) {
                let (b2, i2) = choose|b2: u64, i2: int|
                    #![trigger self.seen_logs@[b2]@[i2]]
                    self.seen_logs@.contains_key(b2) && 0 <= i2 < self.seen_logs@[b2]@.len()
                        && self.seen_logs@[b2]@[i2].view() == key.view();
                assert(bucket_of(self.seen_logs@[b2]@[i2].view()) == b2);
                assert(bucket@[i2].view() != key.view());
            }
        }
        false
    }

    /// Records the key of a log.
    pub fn mark_seen(&mut self, key: LogKey)
        requires
            old(self).wf(),
        ensures
            final(self).wf(),
            final(self)@ == (GameView { seen: old(self)@.seen.insert(key.view()), ..old(self)@ }),
    {
        broadcast use vstd::std_specs::hash::group_hash_axioms;

        let ghost old_map = self.seen_logs@;
        let b = bucket_key(&key);
        let mut bucket = match self.seen_logs.remove(&b) {
            Some(v) => v,
            None => Vec::new(),
        };
        let ghost old_bucket = bucket@;
        assert(old_map.contains_key(b) ==> old_bucket == old_map[b]@);
        assert(!old_map.contains_key(b) ==> old_bucket.len() == 0);
        bucket.push(key);
        self.seen_logs.insert(b, bucket);
        let ghost new_map = self.seen_logs@;
        assert(new_map == old_map.insert(b, bucket));
        assert forall|b2: u64, i: int|
            #![trigger new_map[b2]@[i]]
            new_map.contains_key(b2) && 0 <= i < new_map[b2]@.len() implies bucket_of(
                new_map[b2]@[i].view(),
            ) == b2 by {
            if b2 == b {
                if i < old_bucket.len() {
                    assert(new_map[b2]@[i] == old_map[b]@[i]);
                }
            } else {
                assert(new_map[b2] == old_map[b2]);
            }
        }
        assert forall|k: (Seq<u8>, u64)| #[trigger] self@.seen.contains(k) == old(self)@.seen.insert(
            key.view(),
        ).contains(k) by {
            if old(self)@.seen.contains(k) {
                let (b2, i2) = choose|b2: u64, i2: int|
                    #![trigger old_map[b2]@[i2]]
                    old_map.contains_key(b2) && 0 <= i2 < old_map[b2]@.len() && old_map[b2]@[i2].view()
                        == k;
                if b2 == b {
                    assert(new_map[b]@[i2] == old_map[b]@[i2]);
                } else {
                    assert(new_map[b2] == old_map[b2]);
                }
                assert(self.seen_logs@[b2]@[i2].view() == k);
            }
            if k == key.view() {
                assert(new_map[b]@[old_bucket.len() as int] == key);
                assert(self.seen_logs@[b]@[old_bucket.len() as int].view() == k);
            }
            if self@.seen.contains(k) {
                let (b2, i2) = choose|b2: u64, i2: int|
                    #![trigger new_map[b2]@[i2]]
                    new_map.contains_key(b2) && 0 <= i2 < new_map[b2]@.len() && new_map[b2]@[i2].view()
                        == k;
                if b2 == b {
                    if i2 < old_bucket.len() {
                        assert(old_map[b]@[i2] == new_map[b]@[i2]);
                        assert(old(self).seen_logs@[b]@[i2].view() == k);
                    }
                } else {
                    assert(old_map[b2] == new_map[b2]);
                    assert(old(self).seen_logs@[b2]@[i2].view() == k);
                }
            }
        }
        assert(self@.seen =~= old(self)@.seen.insert(key.view()));
        assert(self@.names =~= old(self)@.names);
        assert(self@.positions =~= old(self)@.positions);
    }

    /// Records a new observed block height.
    pub fn set_block_height(&mut self, height: u64)
        requires
            old(self).wf(),
        ensures
            final(self).wf(),
            final(self)@ == (GameView { current_block_height: height, ..old(self)@ }),
    {
        self.current_block_height = height;
        assert(self@.names =~= old(self)@.names);
        assert(self@.positions =~= old(self)@.positions);
        assert(self@.seen =~= old(self)@.seen);
    }
}

} // verus!
