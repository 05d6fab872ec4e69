//! Decision core of a single-route relay: it reads an upstream URL from a
//! key-value store, fetches it, and answers with a uniform JSON envelope.
//!
//! The I/O (the store lookup, the HTTP call, JSON decoding and encoding) is
//! performed by the host; this crate decides, at each step, what to do next
//! and which envelope the client receives.

use vstd::prelude::*;

pub mod envelope;
pub mod error;
pub mod handler;

pub use envelope::GenericResponse;
pub use error::Error;
pub use handler::{Action, Event, zombie_task};
