//! The error taxonomy of the engine.

use vstd::prelude::*;

verus! {

/// Everything that can go wrong while probing the compositor, setting up the
/// per-seat devices, or cleaning up after a finished copy.
///
/// Probing and setup errors are fatal: they reflect a static property of the
/// compositor environment that will not change within the process lifetime.
#[derive(Debug, PartialEq, Eq)]
pub enum CopyError {
    /// No input seat exists; there is nowhere to copy to.
    NoSeats,
    /// The clipboard protocol interface is not advertised at all.
    MissingProtocol { name: String, version: u32 },
    /// The protocol is advertised, but below the version the engine needs.
    SeatVersionTooLow,
    /// A seat was requested by name and no bound seat carries that name.
    NamedSeatNotFound,
    /// The negotiated protocol demands an input serial, which this engine
    /// does not acquire; it refuses to run rather than send an invalid token.
    SerialRequiredUnsupported,
    /// The connection to the compositor failed; no further exchange is tried.
    TransportFailure,
    /// Removing the backing file or its directory failed after the copy.
    FilesystemFailure,
}

} // verus!
