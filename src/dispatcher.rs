//! The command cycle: one write intent at a time, from nonce reservation to
//! the classified outcome of its transaction.
use vstd::prelude::*;
use crate::ledger::{hex_text, lower_hex};
use crate::messages::{Notice, ServerMessage};
use crate::primitives::Address;
use crate::resync::{classified, classify_failure, FailureClass};
use crate::state::{AppState, GameView, NONCE_SKIP};
use crate::submit::{
    action_views, is_submit, make_tick, make_transfer, tick_request, transfer_request, Action, ActionView,
    LedgerReply, TxOutcome, FUNDED_THRESHOLD, FUND_TARGET,
};

verus! {

/// Error text of a funding command whose transaction could not be sent.
pub const FUND_FAILED_PREFIX: &'static str = "Failed to fund account: ";

/// Error text of a funding transaction that was mined but reverted.
pub const FUND_REVERTED_PREFIX: &'static str = "Funding transaction failed: ";

/// Error text of a failed tick.
pub const TICK_FAILED_PREFIX: &'static str = "Failed to process tick: ";

/// Error text of a command that finds no nonce left to use.
pub const NONCE_EXHAUSTED: &'static str = "Nonce space exhausted";

/// A write intent, queued for the command cycle.
#[derive(Clone, Copy, Debug)]
pub enum BackendTxEvent {
    /// Make sure a player holds enough to play, funding the account if not.
    Fund(Address),
    /// Advance the game contract by one step.
    Tick,
    /// Tell every session that the game is over.
    GameOver,
}

/// Where the command cycle stands.
#[derive(Clone, Copy, Debug)]
pub enum CyclePhase {
    /// Ready for the next command.
    Idle,
    /// Funding: waiting for the player's balance.
    FundAwaitBalance { player: Address },
    /// Funding: the player is funded; waiting for the contract's record of
    /// the player's position.
    FundAwaitPosition { player: Address },
    /// Funding: waiting for the outcome of the transfer.
    FundAwaitReceipt { player: Address },
    /// Ticking: waiting for the outcome of the tick.
    TickAwaitOutcome,
    /// Ticking: the tick failed; waiting for the ledger's transaction count.
    TickAwaitChainCount,
}

/// An input of the command cycle: a new command, or an answer from the ledger.
pub enum CycleInput {
    Begin(BackendTxEvent),
    Reply(LedgerReply),
}

/// The state machine that runs one command at a time to completion.
#[derive(Clone, Copy, Debug)]
pub struct CommandCycle {
    pub phase: CyclePhase,
}

/// The failure text of an unsuccessful outcome.
pub open spec fn failure_reason(o: TxOutcome) -> Seq<char> {
    match o {
        TxOutcome::Confirmed => Seq::empty(),
        TxOutcome::Reverted { reason, .. } => reason@,
        TxOutcome::SubmitFailed { reason } => reason@,
    }
}

/// `s` with the nonce set to `n`.
pub open spec fn with_nonce(s: GameView, n: u64) -> GameView {
    GameView { backend_nonce: n, ..s }
}

/// After a failed tick: nothing for a lost race; a jump of the nonce for a
/// superseded transaction; otherwise a look at the ledger's count. All but
/// the lost race are reported to every session.
pub open spec fn after_failed_tick(s: GameView, reason: Seq<char>) -> (CyclePhase, GameView, Seq<ActionView>) {
    let report = ActionView::Broadcast(Notice::TxError { error: TICK_FAILED_PREFIX@ + reason });
    match classified(reason) {
        FailureClass::AlreadyTicked => (CyclePhase::Idle, s, Seq::empty()),
        FailureClass::Superseded => (
            CyclePhase::Idle,
            if s.backend_nonce <= u64::MAX - NONCE_SKIP {
                with_nonce(s, (s.backend_nonce + NONCE_SKIP) as u64)
            } else {
                s
            },
            seq![report],
        ),
        FailureClass::Other => (CyclePhase::TickAwaitChainCount, s, seq![report, ActionView::QueryChainCount]),
    }
}

/// The transition of the command cycle: next phase, next state and the
/// actions for the driver. Inputs that do not fit the phase change nothing.
pub open spec fn cycle_next(phase: CyclePhase, s: GameView, input: CycleInput) -> (CyclePhase, GameView, Seq<ActionView>) {
    let n = s.backend_nonce;
    match (phase, input) {
        (CyclePhase::Idle, CycleInput::Begin(BackendTxEvent::Fund(a))) => (
            CyclePhase::FundAwaitBalance { player: a },
            s,
            seq![ActionView::QueryBalance(a)],
        ),
        (CyclePhase::Idle, CycleInput::Begin(BackendTxEvent::Tick)) => if n < u64::MAX {
            (
                CyclePhase::TickAwaitOutcome,
                with_nonce(s, (n + 1) as u64),
                seq![ActionView::Submit(tick_request(n))],
            )
        } else {
            (
                CyclePhase::Idle,
                s,
                seq![ActionView::Broadcast(Notice::TxError { error: NONCE_EXHAUSTED@ })],
            )
        },
        (CyclePhase::Idle, CycleInput::Begin(BackendTxEvent::GameOver)) => (
            CyclePhase::Idle,
            s,
            seq![ActionView::Broadcast(Notice::GameEnded)],
        ),
        (
            CyclePhase::FundAwaitBalance { player: a },
            CycleInput::Reply(LedgerReply::Balance(b)),
        ) => if b >= FUNDED_THRESHOLD {
            (
                CyclePhase::FundAwaitPosition { player: a },
                s,
                seq![
                    ActionView::Reply(Notice::Funded { address: a.bytes@, amount: b }),
                    ActionView::QueryContractPosition(a),
                ],
            )
        } else if n < u64::MAX {
            (
                CyclePhase::FundAwaitReceipt { player: a },
                with_nonce(s, (n + 1) as u64),
                seq![ActionView::Submit(transfer_request(a, FUND_TARGET, n))],
            )
        } else {
            (
                CyclePhase::Idle,
                s,
                seq![ActionView::Reply(Notice::FundError { address: a.bytes@, error: NONCE_EXHAUSTED@ })],
            )
        },
        (
            CyclePhase::FundAwaitPosition { player: a },
            CycleInput::Reply(LedgerReply::ContractPosition { balance, holdings }),
        ) => (
            CyclePhase::Idle,
            s,
            if balance > 0 && holdings > 0 {
                seq![
                    ActionView::Reply(
                        Notice::Position { address: a.bytes@, balance, holdings, block_number: 0 },
                    ),
                ]
            } else {
                Seq::empty()
            },
        ),
        (
            CyclePhase::FundAwaitReceipt { player: a },
            CycleInput::Reply(LedgerReply::Outcome(o)),
        ) => (
            CyclePhase::Idle,
            s,
            seq![
                ActionView::Reply(
                    match o {
                        TxOutcome::Confirmed => Notice::Funded { address: a.bytes@, amount: FUND_TARGET },
                        TxOutcome::Reverted { tx_id, .. } => Notice::FundError {
                            address: a.bytes@,
                            error: FUND_REVERTED_PREFIX@ + (seq!['0', 'x'] + lower_hex(tx_id.bytes@)),
                        },
                        TxOutcome::SubmitFailed { reason } => Notice::FundError {
                            address: a.bytes@,
                            error: FUND_FAILED_PREFIX@ + reason@,
                        },
                    },
                ),
            ],
        ),
        (CyclePhase::TickAwaitOutcome, CycleInput::Reply(LedgerReply::Outcome(o))) => match o {
            TxOutcome::Confirmed => (CyclePhase::Idle, s, Seq::empty()),
            _ => after_failed_tick(s, failure_reason(o)),
        },
        (CyclePhase::TickAwaitChainCount, CycleInput::Reply(LedgerReply::ChainCount(c))) => (
            CyclePhase::Idle,
            with_nonce(s, if c > n { c } else { n }),
            Seq::empty(),
        ),
        (CyclePhase::FundAwaitBalance { .. }, CycleInput::Reply(LedgerReply::QueryFailed))
        | (CyclePhase::FundAwaitPosition { .. }, CycleInput::Reply(LedgerReply::QueryFailed))
        | (CyclePhase::TickAwaitChainCount, CycleInput::Reply(LedgerReply::QueryFailed)) => (
            CyclePhase::Idle,
            s,
            Seq::empty(),
        ),
        _ => (phase, s, Seq::empty()),
    }
}

/// The command cycle fed a list of inputs in order: the last phase and state,
/// and all actions asked for.
pub open spec fn cycle_run(phase: CyclePhase, s: GameView, inputs: Seq<CycleInput>) -> (CyclePhase, GameView, Seq<ActionView>)
    decreases inputs.len(),
{
    if inputs.len() == 0 {
        (phase, s, Seq::empty())
    } else {
        let (next_phase, next_state, first) = cycle_next(phase, s, inputs[0]);
        let (last_phase, last_state, later) = cycle_run(next_phase, next_state, inputs.drop_first());
        (last_phase, last_state, first + later)
    }
}

/// A tick that fails because a transaction of higher priority superseded it
/// moves the nonce forward by exactly `NONCE_SKIP` from where the tick left it.
pub proof fn lemma_superseded_tick_skips_nonce(s: GameView, o: TxOutcome)
    requires
        !(o is Confirmed),
        classified(failure_reason(o)) == FailureClass::Superseded,
        s.backend_nonce <= u64::MAX - NONCE_SKIP,
    ensures
        ({
            let (p, s2, _) = cycle_next(CyclePhase::TickAwaitOutcome, s, CycleInput::Reply(LedgerReply::Outcome(o)));
            &&& p is Idle
            &&& s2 == with_nonce(s, (s.backend_nonce + NONCE_SKIP) as u64)
        }),
{
}

/// A resync against the ledger's count `c` leaves the nonce at the larger of
/// `c` and the local value: it never decreases.
pub proof fn lemma_resync_takes_maximum(s: GameView, c: u64)
    ensures
        ({
            let (p, s2, acts) = cycle_next(CyclePhase::TickAwaitChainCount, s, CycleInput::Reply(LedgerReply::ChainCount(c)));
            &&& p is Idle
            &&& s2 == with_nonce(s, if c > s.backend_nonce { c } else { s.backend_nonce })
            &&& s2.backend_nonce >= s.backend_nonce
            &&& acts.len() == 0
        }),
{
}

/// No step of the command cycle lowers the nonce.
pub proof fn lemma_cycle_never_lowers_nonce(phase: CyclePhase, s: GameView, input: CycleInput)
    ensures
        cycle_next(phase, s, input).1.backend_nonce >= s.backend_nonce,
{
}

/// From the phases that follow a funded player's balance, no input but a new
/// command submits a transaction or changes the state.
proof fn lemma_funded_tail(a: Address, phase: CyclePhase, s: GameView, rest: Seq<CycleInput>)
    requires
        phase is Idle || phase == (CyclePhase::FundAwaitPosition { player: a }),
        forall|i: int| 0 <= i < rest.len() ==> !(rest[i] is Begin),
    ensures
        ({
            let (_, s2, acts) = cycle_run(phase, s, rest);
            &&& s2 == s
            &&& forall|i: int| 0 <= i < acts.len() ==> !is_submit(acts[i])
        }),
    decreases rest.len(),
{
    if rest.len() > 0 {
        let (next_phase, s1, a1) = cycle_next(phase, s, rest[0]);
        assert(forall|i: int| 0 <= i < rest.drop_first().len() ==> rest.drop_first()[i] == rest[i + 1]);
        lemma_funded_tail(a, next_phase, s1, rest.drop_first());
        let (_, _, a2) = cycle_run(next_phase, s1, rest.drop_first());
        assert forall|i: int| 0 <= i < (a1 + a2).len() implies !is_submit((a1 + a2)[i]) by {
            if i >= a1.len() {
                assert((a1 + a2)[i] == a2[i - a1.len()]);
            }
        }
    }
}

/// A player whose balance is at least `FUNDED_THRESHOLD` is not funded again:
/// the `Fund` command submits no transaction, leaves the state (and so the
/// nonce) as it was, and first tells the player it is funded with the balance
/// just read, whatever the ledger answers afterwards until the next command.
pub proof fn lemma_funded_player_gets_no_transaction(
    a: Address,
    s: GameView,
    balance: u64,
    rest: Seq<CycleInput>,
)
    requires
        balance >= FUNDED_THRESHOLD,
        forall|i: int| 0 <= i < rest.len() ==> !(rest[i] is Begin),
    ensures
        ({
            let inputs = seq![
                CycleInput::Begin(BackendTxEvent::Fund(a)),
                CycleInput::Reply(LedgerReply::Balance(balance)),
            ] + rest;
            let (_, s2, acts) = cycle_run(CyclePhase::Idle, s, inputs);
            &&& s2 == s
            &&& forall|i: int| 0 <= i < acts.len() ==> !is_submit(acts[i])
            &&& acts.len() >= 2
            &&& acts[1] == ActionView::Reply(Notice::Funded { address: a.bytes@, amount: balance })
        }),
{
    let inputs = seq![
        CycleInput::Begin(BackendTxEvent::Fund(a)),
        CycleInput::Reply(LedgerReply::Balance(balance)),
    ] + rest;
    let tail = inputs.drop_first();
    assert(tail.drop_first() =~= rest);
    assert(inputs[0] == CycleInput::Begin(BackendTxEvent::Fund(a)));
    assert(tail[0] == CycleInput::Reply(LedgerReply::Balance(balance)));
    let awaiting_balance = CyclePhase::FundAwaitBalance { player: a };
    let awaiting_position = CyclePhase::FundAwaitPosition { player: a };
    lemma_funded_tail(a, awaiting_position, s, rest);
    let (_, _, a1) = cycle_next(CyclePhase::Idle, s, inputs[0]);
    let (_, _, a2) = cycle_next(awaiting_balance, s, tail[0]);
    let (_, _, a3) = cycle_run(awaiting_position, s, rest);
    let r2 = cycle_run(awaiting_position, s, rest);
    let r1 = cycle_run(awaiting_balance, s, tail);
    assert(r1 == (r2.0, r2.1, a2 + a3));
    let r0 = cycle_run(CyclePhase::Idle, s, inputs);
    assert(r0 == (r1.0, r1.1, a1 + r1.2));
    let acts = r0.2;
    assert(acts == a1 + (a2 + a3));
    assert(acts[1] == a2[0]);
    assert forall|i: int| 0 <= i < acts.len() implies !is_submit(acts[i]) by {
        if i >= 3 {
            assert(acts[i] == a3[i - 3]);
        }
    }
}

/// `prefix` followed by `text`.
fn prefixed(prefix: &str, text: &str) -> (r: String)
    ensures
        r@ == prefix@ + text@,
{
    let mut r = String::from_str(prefix);
    r.append(text);
    r
}

impl CommandCycle {
    /// A cycle ready for its first command.
    pub fn new() -> (r: CommandCycle)
        ensures
            r.phase is Idle,
    {
        CommandCycle { phase: CyclePhase::Idle }
    }

    /// Whether the cycle is ready for the next command.
    pub fn is_idle(&self) -> (r: bool)
        ensures
            r == self.phase is Idle,
    {
        match self.phase {
            CyclePhase::Idle => true,
            _ => false,
        }
    }

    /// Starts a command; a command that arrives while another runs is ignored.
    pub fn begin(&mut self, state: &mut AppState, command: BackendTxEvent) -> (r: Vec<Action>)
        requires
            old(state).wf(),
        ensures
            final(state).wf(),
            (final(self).phase, final(state)@, action_views(r@)) == cycle_next(
                old(self).phase,
                old(state)@,
                CycleInput::Begin(command),
            ),
    {
        let mut out: Vec<Action> = Vec::new();
        match self.phase {
            CyclePhase::Idle => {},
            _ => {
                assert(action_views(out@) =~= Seq::empty());
                return out;
            },
        }
        match command {
            BackendTxEvent::Fund(a) => {
                self.phase = CyclePhase::FundAwaitBalance { player: a };
                out.push(Action::QueryBalance(a));
            },
            BackendTxEvent::Tick => {
                if state.backend_nonce() < u64::MAX {
                    let nonce = state.reserve_nonce();
                    self.phase = CyclePhase::TickAwaitOutcome;
                    out.push(Action::Submit(make_tick(nonce)));
                } else {
                    out.push(
                        Action::Broadcast(ServerMessage::TxError { error: String::from_str(NONCE_EXHAUSTED) }),
                    );
                }
            },
            BackendTxEvent::GameOver => {
                out.push(Action::Broadcast(ServerMessage::GameEnded));
            },
        }
        proof {
            let (_, _, expected) = cycle_next(old(self).phase, old(state)@, CycleInput::Begin(command));
            assert(action_views(out@) =~= expected);
        }
        out
    }

    /// Takes the ledger's answer to the last action.
    pub fn on_reply(&mut self, state: &mut AppState, reply: LedgerReply) -> (r: Vec<Action>)
        requires
            old(state).wf(),
        ensures
            final(state).wf(),
            (final(self).phase, final(state)@, action_views(r@)) == cycle_next(
                old(self).phase,
                old(state)@,
                CycleInput::Reply(reply),
            ),
    {
        let ghost input = CycleInput::Reply(reply);
        let mut out: Vec<Action> = Vec::new();
        match (self.phase, &reply) {
            (CyclePhase::FundAwaitBalance { player }, LedgerReply::Balance(b)) => {
                let b = *b;
                if b >= FUNDED_THRESHOLD {
                    self.phase = CyclePhase::FundAwaitPosition { player };
                    out.push(Action::Reply(ServerMessage::Funded { address: player, amount: b }));
                    out.push(Action::QueryContractPosition(player));
                } else if state.backend_nonce() < u64::MAX {
                    let nonce = state.reserve_nonce();
                    self.phase = CyclePhase::FundAwaitReceipt { player };
                    out.push(Action::Submit(make_transfer(player, FUND_TARGET, nonce)));
                } else {
                    self.phase = CyclePhase::Idle;
                    out.push(
                        Action::Reply(
                            ServerMessage::FundError {
                                address: player,
                                error: String::from_str(NONCE_EXHAUSTED),
                            },
                        ),
                    );
                }
            },
            (
                CyclePhase::FundAwaitPosition { player },
                LedgerReply::ContractPosition { balance, holdings },
            ) => {
                self.phase = CyclePhase::Idle;
                if *balance > 0 && *holdings > 0 {
                    out.push(
                        Action::Reply(
                            ServerMessage::Position {
                                address: player,
                                balance: *balance,
                                holdings: *holdings,
                                block_number: 0,
                            },
                        ),
                    );
                }
            },
            (CyclePhase::FundAwaitReceipt { player }, LedgerReply::Outcome(o)) => {
                self.phase = CyclePhase::Idle;
                let msg = match o {
                    TxOutcome::Confirmed => ServerMessage::Funded { address: player, amount: FUND_TARGET },
                    TxOutcome::Reverted { tx_id, .. } => {
                        let hash = hex_text(&tx_id.bytes);
                        ServerMessage::FundError {
                            address: player,
                            error: prefixed(FUND_REVERTED_PREFIX, hash.as_str()),
                        }
                    },
                    TxOutcome::SubmitFailed { reason } => ServerMessage::FundError {
                        address: player,
                        error: prefixed(FUND_FAILED_PREFIX, reason.as_str()),
                    },
                };
                out.push(Action::Reply(msg));
            },
            (CyclePhase::TickAwaitOutcome, LedgerReply::Outcome(o)) => {
                self.phase = CyclePhase::Idle;
                let reason = match o {
                    TxOutcome::Confirmed => {
                        assert(action_views(out@) =~= Seq::empty());
                        return out;
                    },
                    TxOutcome::Reverted { reason, .. } => reason,
                    TxOutcome::SubmitFailed { reason } => reason,
                };
                match classify_failure(reason.as_str()) {
                    FailureClass::AlreadyTicked => {},
                    FailureClass::Superseded => {
                        if state.backend_nonce() <= u64::MAX - NONCE_SKIP {
                            state.skip_nonces();
                        }
                        out.push(
                            Action::Broadcast(
                                ServerMessage::TxError { error: prefixed(TICK_FAILED_PREFIX, reason.as_str()) },
                            ),
                        );
                    },
                    FailureClass::Other => {
                        self.phase = CyclePhase::TickAwaitChainCount;
                        out.push(
                            Action::Broadcast(
                                ServerMessage::TxError { error: prefixed(TICK_FAILED_PREFIX, reason.as_str()) },
                            ),
                        );
                        out.push(Action::QueryChainCount);
                    },
                }
            },
            (CyclePhase::TickAwaitChainCount, LedgerReply::ChainCount(c)) => {
                self.phase = CyclePhase::Idle;
                state.adopt_chain_nonce(*c);
            },
            (CyclePhase::FundAwaitBalance { .. }, LedgerReply::QueryFailed)
            | (CyclePhase::FundAwaitPosition { .. }, LedgerReply::QueryFailed)
            | (CyclePhase::TickAwaitChainCount, LedgerReply::QueryFailed) => {
                self.phase = CyclePhase::Idle;
            },
            _ => {},
        }
        proof {
            let (_, _, expected) = cycle_next(old(self).phase, old(state)@, input);
            assert(action_views(out@) =~= expected);
        }
        out
    }
}

} // verus!
