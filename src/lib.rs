//! The browser-delegated login handshake of the Persys developer platform
//! client: the broker's answers are checked, the correlation token is taken
//! out of the login URL, the session credential is read field by field, and a
//! step function decides, state by state, what the caller does next.
pub mod commands;
pub mod credential;
pub mod error;
pub mod handshake;
pub mod lookup;
pub mod token;
