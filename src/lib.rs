//! Transaction issuance and event projection for a ledger-backed trading game.
//!
//! The library holds the decisions of the service: the nonce counter and its
//! resynchronisation rules, the command cycle that turns write intents into
//! ledger transactions, the restart saga, the idempotent projection of ledger
//! logs onto the shared game state, and the messages pushed to clients. The
//! surrounding program performs the ledger and socket I/O that these decisions
//! ask for.

pub mod dispatcher;
pub mod events;
pub mod ledger;
pub mod messages;
pub mod primitives;
pub mod resync;
pub mod saga;
pub mod session;
pub mod state;
pub mod submit;
pub mod ticker;
