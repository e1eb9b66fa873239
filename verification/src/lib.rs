//! A calendar of titled time intervals with optional overlap protection.
//!
//! The crate has four layers:
//!
//! * [`event`] holds the plain data: events, candidate events, ranges and the
//!   overlap policy, each with its mathematical view.
//! * [`model`] is the mathematical model of an event store, and the laws that
//!   follow from it.
//! * [`laws`] states what holds of every store, proved over the model.
//! * [`store`] is [`Cale`], an in-memory event store whose every operation is
//!   proved against the model.
//! * [`guard`] is the check-then-commit protocol as a state machine, for
//!   callers whose store lives behind a connection and answers one question
//!   at a time.
//!
//! [`timestamp`] turns calendar text into the epoch seconds that the rest of
//! the crate works with.

pub mod error;
pub mod event;
pub mod guard;
pub mod laws;
pub mod model;
pub mod store;
pub mod timestamp;

pub use error::Error;
pub use event::{AllowOverlap, Event, NewEvent, Range};
pub use store::Cale;

