//! Write transactions of the service's writer identity, their outcomes, and
//! the ledger work that the state machines hand to their driver.
use vstd::prelude::*;
use crate::messages::{Notice, ServerMessage};
use crate::primitives::{Address, TxId};

verus! {

/// Balance (in wei) that funding tops a player up to: half a coin.
pub const FUND_TARGET: u64 = 500_000_000_000_000_000;

/// Balance (in wei) from which a player counts as funded: nine tenths of the
/// target, so that partly spent accounts are not topped up again.
pub const FUNDED_THRESHOLD: u64 = 450_000_000_000_000_000;

/// Gas price of a funding transfer, and fee cap of contract calls (in wei).
pub const GAS_PRICE: u128 = 0x21d664903c;

/// Priority fee of contract calls (in wei).
pub const PRIORITY_FEE: u128 = 1_000_000_000;

/// Gas limit of a funding transfer.
pub const FUND_GAS_LIMIT: u64 = 25_000;

/// Gas limit of a `tick` call.
pub const TICK_GAS_LIMIT: u64 = 60_000;

/// Gas limit of a `reset` or a `start` call.
pub const RESTART_GAS_LIMIT: u64 = 500_000;

/// Length of a new game, in blocks.
pub const GAME_DURATION: u64 = 50;

/// A write transaction to sign and send, with its nonce and fixed gas.
#[derive(Clone, Copy, Debug, PartialEq, Eq)]
pub enum TxRequest {
    /// Transfer `value` wei to a player.
    Transfer { to: Address, value: u64, nonce: u64, gas_limit: u64, gas_price: u128 },
    /// Call `tick()` on the game contract.
    Tick { nonce: u64, gas_limit: u64, max_fee: u128, priority_fee: u128 },
    /// Call `reset()` on the game contract.
    Reset { nonce: u64, gas_limit: u64, max_fee: u128, priority_fee: u128 },
    /// Call `start(duration)` on the game contract.
    Start { duration: u64, nonce: u64, gas_limit: u64, max_fee: u128, priority_fee: u128 },
}

/// The transfer that funds `to` with `value` wei under `nonce`.
pub open spec fn transfer_request(to: Address, value: u64, nonce: u64) -> TxRequest {
    TxRequest::Transfer { to, value, nonce, gas_limit: FUND_GAS_LIMIT, gas_price: GAS_PRICE }
}

/// The `tick()` call under `nonce`.
pub open spec fn tick_request(nonce: u64) -> TxRequest {
    TxRequest::Tick { nonce, gas_limit: TICK_GAS_LIMIT, max_fee: GAS_PRICE, priority_fee: PRIORITY_FEE }
}

/// The `reset()` call under `nonce`.
pub open spec fn reset_request(nonce: u64) -> TxRequest {
    TxRequest::Reset {
        nonce,
        gas_limit: RESTART_GAS_LIMIT,
        max_fee: GAS_PRICE,
        priority_fee: PRIORITY_FEE,
    }
}

/// The `start(GAME_DURATION)` call under `nonce`.
pub open spec fn start_request(nonce: u64) -> TxRequest {
    TxRequest::Start {
        duration: GAME_DURATION,
        nonce,
        gas_limit: RESTART_GAS_LIMIT,
        max_fee: GAS_PRICE,
        priority_fee: PRIORITY_FEE,
    }
}

pub fn make_transfer(to: Address, value: u64, nonce: u64) -> (r: TxRequest)
    ensures
        r == transfer_request(to, value, nonce),
{
    TxRequest::Transfer { to, value, nonce, gas_limit: FUND_GAS_LIMIT, gas_price: GAS_PRICE }
}

pub fn make_tick(nonce: u64) -> (r: TxRequest)
    ensures
        r == tick_request(nonce),
{
    TxRequest::Tick { nonce, gas_limit: TICK_GAS_LIMIT, max_fee: GAS_PRICE, priority_fee: PRIORITY_FEE }
}

pub fn make_reset(nonce: u64) -> (r: TxRequest)
    ensures
        r == reset_request(nonce),
{
    TxRequest::Reset {
        nonce,
        gas_limit: RESTART_GAS_LIMIT,
        max_fee: GAS_PRICE,
        priority_fee: PRIORITY_FEE,
    }
}

pub fn make_start(nonce: u64) -> (r: TxRequest)
    ensures
        r == start_request(nonce),
{
    TxRequest::Start {
        duration: GAME_DURATION,
        nonce,
        gas_limit: RESTART_GAS_LIMIT,
        max_fee: GAS_PRICE,
        priority_fee: PRIORITY_FEE,
    }
}

/// How a sent transaction ended: confirmed, mined but reverted, or refused
/// before it was mined. The texts are the ledger client's error text.
#[derive(Clone, Debug)]
pub enum TxOutcome {
    Confirmed,
    Reverted { tx_id: TxId, reason: String },
    SubmitFailed { reason: String },
}

/// What the driver learned from the ledger in answer to an action.
#[derive(Clone, Debug)]
pub enum LedgerReply {
    /// The player's balance in wei.
    Balance(u64),
    /// The player's balance and holdings as the game contract records them.
    ContractPosition { balance: u64, holdings: u64 },
    /// The outcome of the transaction last submitted.
    Outcome(TxOutcome),
    /// The ledger's count of the writer's transactions.
    ChainCount(u64),
    /// The read asked for failed; the driver has logged why.
    QueryFailed,
}

/// Ledger work or a notification that a state machine asks its driver for.
#[derive(Clone, Debug)]
pub enum Action {
    /// Read the balance of an account.
    QueryBalance(Address),
    /// Read a player's balance and holdings from the game contract.
    QueryContractPosition(Address),
    /// Sign and send a transaction, then wait for its receipt.
    Submit(TxRequest),
    /// Read the ledger's count of the writer's transactions.
    QueryChainCount,
    /// Send to the session that asked for the command.
    Reply(ServerMessage),
    /// Send to every session.
    Broadcast(ServerMessage),
}

/// An action as mathematical values.
pub enum ActionView {
    QueryBalance(Address),
    QueryContractPosition(Address),
    Submit(TxRequest),
    QueryChainCount,
    Reply(Notice),
    Broadcast(Notice),
}

impl View for Action {
    type V = ActionView;

    open spec fn view(&self) -> ActionView {
        match self {
            Action::QueryBalance(a) => ActionView::QueryBalance(*a),
            Action::QueryContractPosition(a) => ActionView::QueryContractPosition(*a),
            Action::Submit(t) => ActionView::Submit(*t),
            Action::QueryChainCount => ActionView::QueryChainCount,
            Action::Reply(m) => ActionView::Reply(m@),
            Action::Broadcast(m) => ActionView::Broadcast(m@),
        }
    }
}

/// The views of a list of actions, in order.
pub open spec fn action_views(v: Seq<Action>) -> Seq<ActionView> {
    v.map_values(|a: Action| a@)
}

/// Whether an action sends a transaction.
pub open spec fn is_submit(a: ActionView) -> bool {
    a is Submit
}

} // verus!
