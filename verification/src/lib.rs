//! The control plane of a fleet of trading bots: the handshake by which a
//! bot registers with the server, the registry of connected bots, the
//! permits that bound the connections, and the bot's control engine.
//!
//! Every decision is a function from a state and one event to the next state
//! and an action. Sockets, timers and tasks are left to the caller, which
//! reports events and performs actions.

pub mod bot_server;
pub mod control;
pub mod engine;
pub mod error;
pub mod fleet;
pub mod msg;
pub mod outbox;
pub mod permits;
pub mod state;
