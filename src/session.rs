//! Client sessions: the view a new session starts from, and what each client
//! request asks of the service.
use vstd::prelude::*;
use crate::ledger::{decode_hex, hex_decode, is_address_text, is_hex_text, parse_address_text};
use crate::messages::{notices, ClientMessage, GasCosts, GasInfo, Notice, ServerMessage};
use crate::primitives::Address;
use crate::state::{AppState, GameView};

verus! {

/// The gas amounts in the shape sent to clients.
pub open spec fn gas_info(g: GasCosts) -> GasInfo {
    GasInfo { register: g.register, buy: g.buy, sell: g.sell }
}

/// The game window announcement for a session, when a window is known and
/// its end has not passed.
pub open spec fn window_notice(s: GameView) -> Seq<Notice> {
    if s.game_start_block is Some && s.game_end_block is Some && s.current_block_height
        <= s.game_end_block->0 {
        seq![
            Notice::GameStarted {
                start_height: s.game_start_block->0,
                end_height: s.game_end_block->0,
            },
        ]
    } else {
        Seq::empty()
    }
}

/// What a new session receives before any broadcast: connection info, the
/// current price, the current height, the game window, every display name
/// and every known position, in that order.
pub open spec fn snapshot(contract: Address, gas: GasCosts, s: GameView) -> Seq<Notice> {
    seq![
        Notice::ConnectionInfo { contract_address: contract.bytes@, gas_costs: gas_info(gas) },
        Notice::CurrentPrice { price: s.current_price },
        Notice::CurrentBlockHeight { height: s.current_block_height },
    ] + window_notice(s) + Seq::new(
        s.names.len(),
        |i: int| Notice::NameSet { address: s.names[i].0, name: s.names[i].1 },
    ) + Seq::new(
        s.positions.len(),
        |i: int|
            Notice::Position {
                address: s.positions[i].0,
                balance: s.positions[i].1.0,
                holdings: s.positions[i].1.1,
                block_number: 0,
            },
    )
}

/// The messages that bring a new session up to date, in the order in which
/// they are to be sent.
pub fn initial_messages(state: &AppState, contract: Address, gas: &GasCosts) -> (r: Vec<ServerMessage>)
    requires
        state.wf(),
    ensures
        notices(r@) == snapshot(contract, *gas, state@),
{
    let ghost s = state@;
    let mut out: Vec<ServerMessage> = Vec::new();
    out.push(ServerMessage::ConnectionInfo { contract_address: contract, gas_costs: gas.to_info() });
    out.push(ServerMessage::CurrentPrice { price: state.current_price() });
    out.push(ServerMessage::CurrentBlockHeight { height: state.current_block_height() });
    match state.game_window() {
        Some((start, end)) => {
            if state.current_block_height() <= end {
                out.push(ServerMessage::GameStarted { start_height: start, end_height: end });
            }
        },
        None => {},
    }
    let ghost head = notices(out@);
    assert(head =~= seq![
        Notice::ConnectionInfo { contract_address: contract.bytes@, gas_costs: gas_info(*gas) },
        Notice::CurrentPrice { price: s.current_price },
        Notice::CurrentBlockHeight { height: s.current_block_height },
    ] + window_notice(s));
    let ghost names = Seq::new(
        s.names.len(),
        |i: int| Notice::NameSet { address: s.names[i].0, name: s.names[i].1 },
    );
    let ghost positions = Seq::new(
        s.positions.len(),
        |i: int|
            Notice::Position {
                address: s.positions[i].0,
                balance: s.positions[i].1.0,
                holdings: s.positions[i].1.1,
                block_number: 0,
            },
    );
    let n = state.name_count();
    let mut i: usize = 0;
    while i < n
        invariant
            s == state@,
            n == s.names.len(),
            i <= n,
            names.len() == n,
            forall|k: int| 0 <= k < n ==> names[k] == (Notice::NameSet { address: s.names[k].0, name: s.names[k].1 }),
            notices(out@) == head + names.take(i as int),
        decreases n - i,
    {
        let (address, name) = state.name_at(i);
        let ghost before = notices(out@);
        let msg = ServerMessage::NameSet { address, name };
        assert(msg@ == names[i as int]);
        out.push(msg);
        assert(notices(out@) =~= before.push(names[i as int]));
        assert(names.take(i as int + 1) =~= names.take(i as int).push(names[i as int]));
        assert(notices(out@) =~= head + names.take(i as int + 1));
        i += 1;
    }
    assert(names.take(n as int) =~= names);
    let m = state.position_count();
    let mut j: usize = 0;
    while j < m
        invariant
            s == state@,
            m == s.positions.len(),
            j <= m,
            positions.len() == m,
            forall|k: int| 0 <= k < m ==> positions[k] == (Notice::Position {
                address: s.positions[k].0,
                balance: s.positions[k].1.0,
                holdings: s.positions[k].1.1,
                block_number: 0,
            }),
            notices(out@) == head + names + positions.take(j as int),
        decreases m - j,
    {
        let (address, balance, holdings) = state.position_at(j);
        let ghost before = notices(out@);
        let msg = ServerMessage::Position { address, balance, holdings, block_number: 0 };
        assert(msg@ == positions[j as int]);
        out.push(msg);
        assert(notices(out@) =~= before.push(positions[j as int]));
        assert(positions.take(j as int + 1) =~= positions.take(j as int).push(positions[j as int]));
        assert(notices(out@) =~= head + names + positions.take(j as int + 1));
        j += 1;
    }
    assert(positions.take(m as int) =~= positions);
    out
}

/// What a client request asks of the service.
#[derive(Clone, Debug)]
pub enum SessionRequest {
    /// Record a display name and announce it to every session.
    SetName { address: Address, name: String },
    /// Send a signed transaction as given, and tell the client its identifier.
    SubmitRaw { tx: Vec<u8> },
    /// Tell the client its transaction count, then queue funding of its account.
    GetNonce { address: Address },
    /// Run the restart saga.
    Restart,
    /// Answer the client directly.
    Reply(ServerMessage),
    /// Nothing to do: the request named an address that does not parse.
    Ignore,
}

/// Error text of a raw transaction that is not hexadecimal.
pub const RAW_TX_UNPARSABLE: &'static str = "Failed to parse transaction: invalid hex";

/// Interprets a client request. Addresses are forty hexadecimal digits with
/// an optional `0x`; a raw transaction is hexadecimal text of even length.
pub fn interpret(msg: ClientMessage) -> (r: SessionRequest)
    ensures
        match msg {
            ClientMessage::SetName { name, address } => if is_address_text(address@) {
                r matches SessionRequest::SetName { address: a, name: n } && a.bytes@ == hex_decode(
                    address@,
                ) && n@ == name@
            } else {
                r is Ignore
            },
            ClientMessage::RawTx { raw_tx } => if is_hex_text(raw_tx@) {
                r matches SessionRequest::SubmitRaw { tx } && tx@ == hex_decode(raw_tx@)
            } else {
                r matches SessionRequest::Reply(m) && m@ == (Notice::TxError { error: RAW_TX_UNPARSABLE@ })
            },
            ClientMessage::GetNonce { address } => if is_address_text(address@) {
                r matches SessionRequest::GetNonce { address: a } && a.bytes@ == hex_decode(address@)
            } else {
                r is Ignore
            },
            ClientMessage::RestartGame => r is Restart,
        },
{
    match msg {
        ClientMessage::SetName { name, address } => match parse_address_text(address.as_str()) {
            Some(a) => SessionRequest::SetName { address: a, name },
            None => SessionRequest::Ignore,
        },
        ClientMessage::RawTx { raw_tx } => match decode_hex(raw_tx.as_str()) {
            Some(tx) => SessionRequest::SubmitRaw { tx },
            None => SessionRequest::Reply(
                ServerMessage::TxError { error: String::from_str(RAW_TX_UNPARSABLE) },
            ),
        },
        ClientMessage::GetNonce { address } => match parse_address_text(address.as_str()) {
            Some(a) => SessionRequest::GetNonce { address: a },
            None => SessionRequest::Ignore,
        },
        ClientMessage::RestartGame => SessionRequest::Restart,
    }
}

} // verus!
