//! Block-height observations and the commands they trigger. The gating rule is
//! the game window: a tick per block while the window is open, and one
//! game-over when the height first reaches the window's end.
use vstd::prelude::*;
use crate::dispatcher::BackendTxEvent;
use crate::state::{AppState, GameView};

verus! {

/// Remembers the end of the last game already announced as over.
#[derive(Clone, Copy, Debug)]
pub struct BlockWatch {
    pub last_ended_block: u64,
}

/// The commands that a new height triggers, given the window's end and the
/// last end already announced.
pub open spec fn triggered(end: Option<u64>, last_ended: u64, height: u64) -> (u64, Seq<BackendTxEvent>) {
    match end {
        None => (last_ended, Seq::empty()),
        Some(e) => {
            let over = e > last_ended && height >= e;
            let after_over = if over { e } else { last_ended };
            let first: Seq<BackendTxEvent> = if over { seq![BackendTxEvent::GameOver] } else { Seq::empty() };
            let second: Seq<BackendTxEvent> = if e > height { seq![BackendTxEvent::Tick] } else { Seq::empty() };
            (after_over, first + second)
        },
    }
}

impl BlockWatch {
    /// A watch that has announced no game as over.
    pub fn new() -> (r: BlockWatch)
        ensures
            r.last_ended_block == 0,
    {
        BlockWatch { last_ended_block: 0 }
    }

    /// Records a new block height and returns the commands it triggers, in
    /// the order in which they are to be queued.
    pub fn observe_block(&mut self, state: &mut AppState, height: u64) -> (r: Vec<BackendTxEvent>)
        requires
            old(state).wf(),
        ensures
            final(state).wf(),
            final(state)@ == (GameView { current_block_height: height, ..old(state)@ }),
            (final(self).last_ended_block, r@) == triggered(
                old(state)@.game_end_block,
                old(self).last_ended_block,
                height,
            ),
    {
        state.set_block_height(height);
        let mut out: Vec<BackendTxEvent> = Vec::new();
        let window = state.game_window();
        match window {
            None => {},
            Some((_, end)) => {
                if end > self.last_ended_block && height >= end {
                    self.last_ended_block = end;
                    out.push(BackendTxEvent::GameOver);
                }
                if end > height {
                    out.push(BackendTxEvent::Tick);
                }
            },
        }
        proof {
            let (_, expected) = triggered(old(state)@.game_end_block, old(self).last_ended_block, height);
            assert(out@ =~= expected);
        }
        out
    }
}

} // verus!
