//! Decision engine of a fetch-through mirror for a daily, date-keyed document:
//! which calendar dates may be asked for, when a stored copy is still fresh,
//! and what to answer when the upstream source fails.
//!
//! The engine does no input or output. `session` says what is to be done
//! next and is told what came of it; `exchange` states what holds of every
//! request that is handled that way. `resolver` turns a request into the key
//! of a date, with `calendar`, `blackout` and `key`; `store` and `upstream`
//! classify what the store and the upstream source gave; `flight` keeps
//! requests for one date from fetching at the same time.

pub mod blackout;
pub mod calendar;
pub mod exchange;
pub mod flight;
pub mod key;
pub mod resolver;
pub mod session;
pub mod store;
pub mod text;
pub mod upstream;
