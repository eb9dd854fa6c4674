//! The restart saga: top up every known player, then `reset()`, then
//! `start(GAME_DURATION)`, each step waiting for its confirmation and the
//! saga stopping at the first contract call that fails.
use vstd::prelude::*;
use crate::messages::{Notice, ServerMessage};
use crate::primitives::Address;
use crate::state::{AppState, GameView};
use crate::submit::{
    action_views, make_reset, make_start, make_transfer, reset_request, start_request,
    transfer_request, Action, ActionView, LedgerReply, TxOutcome, TxRequest, FUNDED_THRESHOLD,
    FUND_TARGET,
};

verus! {

/// Why a restart saga stopped.
#[derive(Clone, Copy, Debug, PartialEq, Eq, Structural)]
pub enum SagaError {
    /// The `reset()` call reverted or could not be sent.
    ResetFailed,
    /// The `start()` call reverted or could not be sent.
    StartFailed,
    /// No nonce was left for a contract call.
    NonceExhausted,
}

/// Where the saga stands.
#[derive(Clone, Copy, Debug)]
pub enum SagaPhase {
    /// Waiting for the balance of the player at `index`.
    FundAwaitBalance { index: usize },
    /// Waiting for the outcome of the top-up of the player at `index`.
    FundAwaitReceipt { index: usize },
    /// Waiting for the outcome of `reset()`.
    Resetting,
    /// Waiting for the outcome of `start()`.
    Starting,
    /// The new game was started.
    Done,
    /// The saga stopped.
    Failed(SagaError),
}

/// A running restart saga and the players it tops up, in order.
pub struct RestartSaga {
    pub(crate) players: Vec<Address>,
    pub(crate) phase: SagaPhase,
}

impl RestartSaga {
    pub closed spec fn players(&self) -> Seq<Address> {
        self.players@
    }

    pub closed spec fn phase(&self) -> SagaPhase {
        self.phase
    }

    /// Indices held by the phase lie within the list of players.
    pub open spec fn wf(&self) -> bool {
        phase_fits(self.phase(), self.players().len())
    }
}

pub open spec fn phase_fits(phase: SagaPhase, n: nat) -> bool {
    match phase {
        SagaPhase::FundAwaitBalance { index } => index < n,
        SagaPhase::FundAwaitReceipt { index } => index < n,
        _ => true,
    }
}

/// Sends `reset()` when a nonce is left.
pub open spec fn submit_reset(s: GameView) -> (SagaPhase, GameView, Seq<ActionView>) {
    if s.backend_nonce < u64::MAX {
        (
            SagaPhase::Resetting,
            GameView { backend_nonce: (s.backend_nonce + 1) as u64, ..s },
            seq![ActionView::Submit(reset_request(s.backend_nonce))],
        )
    } else {
        (SagaPhase::Failed(SagaError::NonceExhausted), s, Seq::empty())
    }
}

/// Moves on to the player at `j`, or to `reset()` after the last one.
pub open spec fn advance(players: Seq<Address>, j: int, s: GameView) -> (SagaPhase, GameView, Seq<ActionView>) {
    if j < players.len() {
        (
            SagaPhase::FundAwaitBalance { index: j as usize },
            s,
            seq![ActionView::QueryBalance(players[j])],
        )
    } else {
        submit_reset(s)
    }
}

/// The transition of the saga. A player below `FUNDED_THRESHOLD` gets the
/// shortfall to `FUND_TARGET`; a failed read or top-up skips to the next
/// player; a failed `reset()` or `start()` stops the saga. Inputs that do not
/// fit the phase change nothing.
pub open spec fn saga_next(players: Seq<Address>, phase: SagaPhase, s: GameView, reply: LedgerReply) -> (SagaPhase, GameView, Seq<ActionView>) {
    let n = s.backend_nonce;
    match (phase, reply) {
        (SagaPhase::FundAwaitBalance { index }, LedgerReply::Balance(b)) => if b < FUNDED_THRESHOLD
            && n < u64::MAX {
            (
                SagaPhase::FundAwaitReceipt { index },
                GameView { backend_nonce: (n + 1) as u64, ..s },
                seq![ActionView::Submit(transfer_request(players[index as int], (FUND_TARGET - b) as u64, n))],
            )
        } else {
            advance(players, index + 1, s)
        },
        (SagaPhase::FundAwaitBalance { index }, LedgerReply::QueryFailed) => advance(
            players,
            index + 1,
            s,
        ),
        (SagaPhase::FundAwaitReceipt { index }, LedgerReply::Outcome(o)) => {
            let (p, s2, acts) = advance(players, index + 1, s);
            match o {
                TxOutcome::Confirmed => (
                    p,
                    s2,
                    seq![
                        ActionView::Broadcast(
                            Notice::Funded { address: players[index as int].bytes@, amount: FUND_TARGET },
                        ),
                    ] + acts,
                ),
                _ => (p, s2, acts),
            }
        },
        (SagaPhase::Resetting, LedgerReply::Outcome(o)) => match o {
            TxOutcome::Confirmed => if n < u64::MAX {
                (
                    SagaPhase::Starting,
                    GameView { backend_nonce: (n + 1) as u64, ..s },
                    seq![ActionView::Submit(start_request(n))],
                )
            } else {
                (SagaPhase::Failed(SagaError::NonceExhausted), s, Seq::empty())
            },
            _ => (SagaPhase::Failed(SagaError::ResetFailed), s, Seq::empty()),
        },
        (SagaPhase::Starting, LedgerReply::Outcome(o)) => match o {
            TxOutcome::Confirmed => (SagaPhase::Done, s, Seq::empty()),
            _ => (SagaPhase::Failed(SagaError::StartFailed), s, Seq::empty()),
        },
        _ => (phase, s, Seq::empty()),
    }
}

/// The saga fed a list of ledger answers in order.
pub open spec fn saga_run(players: Seq<Address>, phase: SagaPhase, s: GameView, replies: Seq<LedgerReply>) -> (SagaPhase, GameView, Seq<ActionView>)
    decreases replies.len(),
{
    if replies.len() == 0 {
        (phase, s, Seq::empty())
    } else {
        let (next_phase, next_state, first) = saga_next(players, phase, s, replies[0]);
        let (last_phase, last_state, later) = saga_run(players, next_phase, next_state, replies.drop_first());
        (last_phase, last_state, first + later)
    }
}

/// No step of the saga lowers the nonce.
pub proof fn lemma_saga_never_lowers_nonce(players: Seq<Address>, phase: SagaPhase, s: GameView, reply: LedgerReply)
    ensures
        saga_next(players, phase, s, reply).1.backend_nonce >= s.backend_nonce,
{
}

/// Whether an action sends `start()`.
pub open spec fn is_start(a: ActionView) -> bool {
    a matches ActionView::Submit(TxRequest::Start { .. })
}

/// A stopped saga stays stopped and asks for nothing more.
proof fn lemma_failed_is_final(players: Seq<Address>, e: SagaError, s: GameView, replies: Seq<LedgerReply>)
    ensures
        saga_run(players, SagaPhase::Failed(e), s, replies) == (SagaPhase::Failed(e), s, Seq::<ActionView>::empty()),
    decreases replies.len(),
{
    if replies.len() > 0 {
        lemma_failed_is_final(players, e, s, replies.drop_first());
        assert(Seq::<ActionView>::empty() + Seq::<ActionView>::empty() =~= Seq::<ActionView>::empty());
    }
}

/// When `reset()` does not confirm, `start()` is never sent: the saga ends
/// failed with `ResetFailed`, whatever the ledger answers afterwards, and asks
/// for no further transaction.
pub proof fn lemma_reset_failure_aborts(
    players: Seq<Address>,
    s: GameView,
    o: TxOutcome,
    rest: Seq<LedgerReply>,
)
    requires
        !(o is Confirmed),
    ensures
        ({
            let (p, s2, acts) = saga_run(players, SagaPhase::Resetting, s, seq![LedgerReply::Outcome(o)] + rest);
            &&& p == SagaPhase::Failed(SagaError::ResetFailed)
            &&& s2 == s
            &&& acts.len() == 0
            &&& forall|i: int| 0 <= i < acts.len() ==> !is_start(acts[i])
        }),
{
    let replies = seq![LedgerReply::Outcome(o)] + rest;
    assert(replies.drop_first() =~= rest);
    assert(replies[0] == LedgerReply::Outcome(o));
    lemma_failed_is_final(players, SagaError::ResetFailed, s, rest);
    assert(Seq::<ActionView>::empty() + Seq::<ActionView>::empty() =~= Seq::<ActionView>::empty());
}

impl RestartSaga {
    /// Moves on to the player at `j`, or sends `reset()` after the last one.
    fn advance_to(&mut self, state: &mut AppState, j: usize, out: &mut Vec<Action>)
        requires
            old(state).wf(),
            j <= old(self).players().len(),
        ensures
            final(state).wf(),
            final(self).players() == old(self).players(),
            final(self).wf(),
            (final(self).phase(), final(state)@, action_views(final(out)@)) == ({
                let (p, s, acts) = advance(old(self).players(), j as int, old(state)@);
                (p, s, action_views(old(out)@) + acts)
            }),
    {
        if j < self.players.len() {
            self.phase = SagaPhase::FundAwaitBalance { index: j };
            out.push(Action::QueryBalance(self.players[j]));
        } else if state.backend_nonce() < u64::MAX {
            let nonce = state.reserve_nonce();
            self.phase = SagaPhase::Resetting;
            out.push(Action::Submit(make_reset(nonce)));
        } else {
            self.phase = SagaPhase::Failed(SagaError::NonceExhausted);
        }
        proof {
            let (_, _, acts) = advance(old(self).players(), j as int, old(state)@);
            assert(action_views(out@) =~= action_views(old(out)@) + acts);
        }
    }

    /// Starts a restart over the players registered in `state`.
    pub fn begin(state: &mut AppState) -> (r: (RestartSaga, Vec<Action>))
        requires
            old(state).wf(),
        ensures
            final(state).wf(),
            r.0.wf(),
            r.0.players().len() == old(state)@.names.len(),
            forall|i: int| 0 <= i < r.0.players().len() ==> r.0.players()[i].bytes@ == old(state)@.names[i].0,
            (r.0.phase(), final(state)@, action_views(r.1@)) == advance(r.0.players(), 0, old(state)@),
    {
        let players = state.player_addresses();
        let mut saga = RestartSaga { players, phase: SagaPhase::Done };
        let mut out: Vec<Action> = Vec::new();
        saga.advance_to(state, 0, &mut out);
        proof {
            let (_, _, acts) = advance(saga.players(), 0, old(state)@);
            assert(Seq::<ActionView>::empty() + acts =~= acts);
        }
        (saga, out)
    }

    /// How the saga ended, once it has.
    pub fn result(&self) -> (r: Option<Result<(), SagaError>>)
        ensures
            r == match self.phase() {
                SagaPhase::Done => Some(Ok(())),
                SagaPhase::Failed(e) => Some(Err(e)),
                _ => None,
            },
    {
        match self.phase {
            SagaPhase::Done => Some(Ok(())),
            SagaPhase::Failed(e) => Some(Err(e)),
            _ => None,
        }
    }

    /// Takes the ledger's answer to the last action.
    pub fn on_reply(&mut self, state: &mut AppState, reply: LedgerReply) -> (r: Vec<Action>)
        requires
            old(state).wf(),
            old(self).wf(),
        ensures
            final(state).wf(),
            final(self).wf(),
            final(self).players() == old(self).players(),
            (final(self).phase(), final(state)@, action_views(r@)) == saga_next(
                old(self).players(),
                old(self).phase(),
                old(state)@,
                reply,
            ),
    {
        let mut out: Vec<Action> = Vec::new();
        let np = self.players.len();
        match (self.phase, &reply) {
            (SagaPhase::FundAwaitBalance { index }, LedgerReply::Balance(b)) => {
                let b = *b;
                if b < FUNDED_THRESHOLD && state.backend_nonce() < u64::MAX {
                    let nonce = state.reserve_nonce();
                    self.phase = SagaPhase::FundAwaitReceipt { index };
                    out.push(Action::Submit(make_transfer(self.players[index], FUND_TARGET - b, nonce)));
                } else {
                    self.advance_to(state, index + 1, &mut out);
                }
            },
            (SagaPhase::FundAwaitBalance { index }, LedgerReply::QueryFailed) => {
                self.advance_to(state, index + 1, &mut out);
            },
            (SagaPhase::FundAwaitReceipt { index }, LedgerReply::Outcome(o)) => {
                match o {
                    TxOutcome::Confirmed => {
                        out.push(
                            Action::Broadcast(
                                ServerMessage::Funded { address: self.players[index], amount: FUND_TARGET },
                            ),
                        );
                    },
                    _ => {},
                }
                self.advance_to(state, index + 1, &mut out);
            },
            (SagaPhase::Resetting, LedgerReply::Outcome(o)) => {
                match o {
                    TxOutcome::Confirmed => {
                        if state.backend_nonce() < u64::MAX {
                            let nonce = state.reserve_nonce();
                            self.phase = SagaPhase::Starting;
                            out.push(Action::Submit(make_start(nonce)));
                        } else {
                            self.phase = SagaPhase::Failed(SagaError::NonceExhausted);
                        }
                    },
                    _ => {
                        self.phase = SagaPhase::Failed(SagaError::ResetFailed);
                    },
                }
            },
            (SagaPhase::Starting, LedgerReply::Outcome(o)) => {
                match o {
                    TxOutcome::Confirmed => {
                        self.phase = SagaPhase::Done;
                    },
                    _ => {
                        self.phase = SagaPhase::Failed(SagaError::StartFailed);
                    },
                }
            },
            _ => {},
        }
        proof {
            let (_, _, expected) = saga_next(old(self).players(), old(self).phase(), old(state)@, reply);
            assert(action_views(out@) =~= expected);
        }
        out
    }
}

} // verus!
