//! Clipboard publishing engine for a Wayland-style selection-transfer
//! protocol family.
//!
//! The crate holds the decision logic of a one-shot clipboard copy tool:
//! probing which protocol variants the compositor advertises, the data-source
//! state machine that answers transfer requests, per-seat device selection,
//! and the termination and cleanup protocol. The wire transport, the
//! command line and all file descriptors live in the embedding program; the
//! library works on plain values and is verified.

use vstd::prelude::*;

mod error;
pub mod payload;
pub mod probe;
pub mod seats;
pub mod session;
pub mod source;

pub use error::CopyError;

verus! {

/// Minimum protocol version at which the clipboard manager is bound at all.
pub const MIN_BIND_VERSION: u32 = 1;

/// Minimum manager version that carries the primary-selection capability.
pub const PRIMARY_MIN_VERSION: u32 = 2;

} // verus!
