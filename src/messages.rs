//! Messages exchanged with client sessions.
use vstd::prelude::*;
use crate::primitives::{Address, TxId};

verus! {

/// Gas amounts that clients should budget for their own contract calls.
#[derive(Clone, Copy, Debug)]
pub struct GasCosts {
    pub register: u64,
    pub buy: u64,
    pub sell: u64,
}

/// Gas amounts as sent to a client in its connection info.
#[derive(Clone, Copy, Debug)]
pub struct GasInfo {
    pub register: u64,
    pub buy: u64,
    pub sell: u64,
}

/// Gas that a `register` call of the game contract needs.
pub const REGISTER_GAS: u64 = 115_000;

/// Gas that a `buy` or a `sell` call of the game contract needs.
pub const TRADE_GAS: u64 = 39733;

impl GasCosts {
    /// The gas amounts measured for the game contract.
    pub fn measured() -> (r: GasCosts)
        ensures
            r.register == REGISTER_GAS,
            r.buy == TRADE_GAS,
            r.sell == TRADE_GAS,
    {
        GasCosts { register: REGISTER_GAS, buy: TRADE_GAS, sell: TRADE_GAS }
    }

    /// The same amounts in the shape sent to clients.
    pub fn to_info(&self) -> (r: GasInfo)
        ensures
            r.register == self.register,
            r.buy == self.buy,
            r.sell == self.sell,
    {
        GasInfo { register: self.register, buy: self.buy, sell: self.sell }
    }
}

/// A request from a client session.
#[derive(Clone, Debug)]
pub enum ClientMessage {
    SetName { name: String, address: String },
    RawTx { raw_tx: String },
    GetNonce { address: String },
    RestartGame,
}

/// A notification to one client or to all of them.
#[derive(Clone, Debug)]
pub enum ServerMessage {
    ConnectionInfo { contract_address: Address, gas_costs: GasInfo },
    PriceUpdate { new_price: u64, block_number: u64 },
    CurrentPrice { price: u64 },
    NameSet { address: Address, name: String },
    Position { address: Address, balance: u64, holdings: u64, block_number: u64 },
    TxError { error: String },
    NonceResponse { address: Address, nonce: u64 },
    Funded { address: Address, amount: u64 },
    FundError { address: Address, error: String },
    TxSubmitted { tx_hash: TxId },
    GameStarted { start_height: u64, end_height: u64 },
    GameEnded,
    CurrentBlockHeight { height: u64 },
}

/// A notification as mathematical values: addresses and identifiers as their
/// bytes, text as its characters.
pub enum Notice {
    ConnectionInfo { contract_address: Seq<u8>, gas_costs: GasInfo },
    PriceUpdate { new_price: u64, block_number: u64 },
    CurrentPrice { price: u64 },
    NameSet { address: Seq<u8>, name: Seq<char> },
    Position { address: Seq<u8>, balance: u64, holdings: u64, block_number: u64 },
    TxError { error: Seq<char> },
    NonceResponse { address: Seq<u8>, nonce: u64 },
    Funded { address: Seq<u8>, amount: u64 },
    FundError { address: Seq<u8>, error: Seq<char> },
    TxSubmitted { tx_hash: Seq<u8> },
    GameStarted { start_height: u64, end_height: u64 },
    GameEnded,
    CurrentBlockHeight { height: u64 },
}

impl View for ServerMessage {
    type V = Notice;

    open spec fn view(&self) -> Notice {
        match self {
            ServerMessage::ConnectionInfo { contract_address, gas_costs } => Notice::ConnectionInfo {
                contract_address: contract_address.bytes@,
                gas_costs: *gas_costs,
            },
            ServerMessage::PriceUpdate { new_price, block_number } => Notice::PriceUpdate {
                new_price: *new_price,
                block_number: *block_number,
            },
            ServerMessage::CurrentPrice { price } => Notice::CurrentPrice { price: *price },
            ServerMessage::NameSet { address, name } => Notice::NameSet {
                address: address.bytes@,
                name: name@,
            },
            ServerMessage::Position { address, balance, holdings, block_number } => Notice::Position {
                address: address.bytes@,
                balance: *balance,
                holdings: *holdings,
                block_number: *block_number,
            },
            ServerMessage::TxError { error } => Notice::TxError { error: error@ },
            ServerMessage::NonceResponse { address, nonce } => Notice::NonceResponse {
                address: address.bytes@,
                nonce: *nonce,
            },
            ServerMessage::Funded { address, amount } => Notice::Funded {
                address: address.bytes@,
                amount: *amount,
            },
            ServerMessage::FundError { address, error } => Notice::FundError {
                address: address.bytes@,
                error: error@,
            },
            ServerMessage::TxSubmitted { tx_hash } => Notice::TxSubmitted { tx_hash: tx_hash.bytes@ },
            ServerMessage::GameStarted { start_height, end_height } => Notice::GameStarted {
                start_height: *start_height,
                end_height: *end_height,
            },
            ServerMessage::GameEnded => Notice::GameEnded,
            ServerMessage::CurrentBlockHeight { height } => Notice::CurrentBlockHeight {
                height: *height,
            },
        }
    }
}

/// The notices of a list of messages, in order.
pub open spec fn notices(v: Seq<ServerMessage>) -> Seq<Notice> {
    v.map_values(|m: ServerMessage| m@)
}

} // verus!
