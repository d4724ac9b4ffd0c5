//! Driver logic for a serial bill acceptor: the command and response frames,
//! the status state machine that turns responses into bill events, and the
//! per-bill acceptance ledger.

pub mod nominal;
pub mod protocol;
pub mod ledger;
pub mod event;
pub mod dispatcher;
pub mod driver;
pub mod config;
pub mod autocomplete;
