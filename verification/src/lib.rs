//! Connection lifecycle core for a desktop companion that talks to a game
//! client's local management API.
//!
//! The library holds the parts of the companion that carry real state-machine
//! and correctness concerns, all of them verified:
//!
//! - [`state`]: the shared record of the current session (the handles and the
//!   connected flag), with the invariant that ties them together;
//! - [`supervisor`]: the tick-driven state machine that establishes and tears
//!   down sessions and decides when a connectivity notification is due;
//! - [`proxy`]: validation of UI-issued requests (verb, body, connection
//!   state) before they are forwarded to the local service;
//! - [`relay`]: the mapping from push-channel topics to named UI events.
//!
//! Everything that performs I/O — discovery of the local service, the
//! authenticated transport, the push channel itself, and the UI shell — lives
//! outside the library and only hands plain values in and out.

pub mod proxy;
pub mod relay;
pub mod state;
pub mod supervisor;
pub mod text;
