//! Capability probing.
//!
//! One walk of the compositor's global-object registry yields a list of
//! advertisements. The prober classifies that list, together with the outcome
//! of one device-creation exchange, into the five capability verdicts. The
//! walk itself and the exchange belong to the transport; the verdict is
//! decided here, on plain values, and holds for every outcome the transport
//! can hand back.

use vstd::prelude::*;

use crate::{MIN_BIND_VERSION, PRIMARY_MIN_VERSION};
use crate::error::CopyError;

verus! {

/// What one advertised global is, as far as the engine cares.
#[derive(Clone, Copy, Debug, PartialEq, Eq, Structural)]
pub enum GlobalKind {
    /// An input seat.
    Seat,
    /// The clipboard manager interface, `zwlr_data_control_manager_v1`.
    DataControlManager,
    /// Anything else; ignored by the prober.
    Other,
}

/// One advertised global: its classified interface and its version.
#[derive(Clone, Copy, Debug, PartialEq, Eq, Structural)]
pub struct Advertisement {
    pub kind: GlobalKind,
    pub version: u32,
}

/// The five capability verdicts a probe can end in.
#[derive(Debug, PartialEq, Eq)]
pub enum ProbeResult {
    /// The primary-selection capability is present.
    Supported,
    /// The exchange completed without the primary-selection event; the
    /// absence of the event, not an explicit refusal, is the negative signal.
    Unsupported,
    /// The registry advertises no input seat.
    NoSeats,
    /// The clipboard protocol interface is not advertised at all.
    MissingProtocol { name: String, version: u32 },
    /// The interface is advertised, but only below the needed version.
    SeatVersionTooLow,
}

/// How the interface name of a global classifies.
pub open spec fn spec_global_kind(interface: Seq<char>) -> GlobalKind {
    if interface == "wl_seat"@ {
        GlobalKind::Seat
    } else if interface == "zwlr_data_control_manager_v1"@ {
        GlobalKind::DataControlManager
    } else {
        GlobalKind::Other
    }
}

/// The clipboard manager interface occurs in the registry.
pub open spec fn manager_advertised(ads: Seq<Advertisement>) -> bool {
    exists|i: int| 0 <= i < ads.len() && ads[i].kind is DataControlManager
}

/// The manager occurs at a version that carries the primary-selection
/// capability.
pub open spec fn manager_version_ok(ads: Seq<Advertisement>) -> bool {
    exists|i: int|
        0 <= i < ads.len() && ads[i].kind is DataControlManager
            && ads[i].version >= PRIMARY_MIN_VERSION
}

/// At least one input seat occurs in the registry.
pub open spec fn seat_advertised(ads: Seq<Advertisement>) -> bool {
    exists|i: int| 0 <= i < ads.len() && ads[i].kind is Seat
}

/// Classify one advertised global by its interface name.
pub fn classify_global(interface: &String, version: u32) -> (ad: Advertisement)
    ensures
        ad.kind == spec_global_kind(interface@),
        ad.version == version,
{
    let kind = if *interface == "wl_seat".to_owned() {
        GlobalKind::Seat
    } else if *interface == "zwlr_data_control_manager_v1".to_owned() {
        GlobalKind::DataControlManager
    } else {
        GlobalKind::Other
    };
    Advertisement { kind, version }
}

/// Decide the capability verdict from one registry walk and the outcome of
/// the device-creation exchange.
///
/// The registry checks apply in order: a missing manager interface, then a
/// manager version too low for primary selection, then the absence of any
/// seat. Only past all three does the exchange outcome decide between
/// `Supported` and `Unsupported`. `primary_event_seen` reports whether the
/// exchange delivered the primary-selection event; it is consulted only when
/// the registry checks pass, so a transport may hand in either value on the
/// failing paths.
pub fn probe(ads: &Vec<Advertisement>, primary_event_seen: bool) -> (r: ProbeResult)
    ensures
        !manager_advertised(ads@) ==> (r matches ProbeResult::MissingProtocol { name, version }
            && name@ == "zwlr_data_control_manager_v1"@ && version == MIN_BIND_VERSION),
        manager_advertised(ads@) && !manager_version_ok(ads@) ==> r is SeatVersionTooLow,
        manager_advertised(ads@) && manager_version_ok(ads@) && !seat_advertised(ads@)
            ==> r is NoSeats,
        manager_advertised(ads@) && manager_version_ok(ads@) && seat_advertised(ads@)
            && primary_event_seen ==> r is Supported,
        manager_advertised(ads@) && manager_version_ok(ads@) && seat_advertised(ads@)
            && !primary_event_seen ==> r is Unsupported,
{
    let mut has_manager = false;
    let mut version_ok = false;
    let mut has_seat = false;
    let mut i: usize = 0;
    while i < ads.len()
        invariant
            i <= ads.len(),
            has_manager == manager_advertised(ads@.take(i as int)),
            version_ok == manager_version_ok(ads@.take(i as int)),
            has_seat == seat_advertised(ads@.take(i as int)),
        decreases ads.len() - i,
    {
        let ad = ads[i];
        proof {
            assert(ads@.take(i + 1).drop_last() =~= ads@.take(i as int));
            assert(ads@.take(i + 1).last() == ads@[i as int]);
        }
        match ad.kind {
            GlobalKind::DataControlManager => {
                has_manager = true;
                if ad.version >= PRIMARY_MIN_VERSION {
                    version_ok = true;
                }
            }
            GlobalKind::Seat => {
                has_seat = true;
            }
            GlobalKind::Other => {}
        }
        proof {
            let pre = ads@.take(i as int);
            let post = ads@.take(i + 1);
            assert(forall|j: int| 0 <= j < pre.len() ==> post[j] == pre[j]);
            assert(post[i as int] == ads@[i as int]);
            assert(manager_advertised(post) == (manager_advertised(pre)
                || ads@[i as int].kind is DataControlManager));
            assert(manager_version_ok(post) == (manager_version_ok(pre)
                || (ads@[i as int].kind is DataControlManager
                    && ads@[i as int].version >= PRIMARY_MIN_VERSION)));
            assert(seat_advertised(post) == (seat_advertised(pre)
                || ads@[i as int].kind is Seat));
        }
        i += 1;
    }
    proof {
        assert(ads@.take(ads@.len() as int) =~= ads@);
    }
    if !has_manager {
        ProbeResult::MissingProtocol {
            name: "zwlr_data_control_manager_v1".to_owned(),
            version: MIN_BIND_VERSION,
        }
    } else if !version_ok {
        ProbeResult::SeatVersionTooLow
    } else if !has_seat {
        ProbeResult::NoSeats
    } else if primary_event_seen {
        ProbeResult::Supported
    } else {
        ProbeResult::Unsupported
    }
}

/// Report a verdict the way the probing entry point of the tool does:
/// a yes/no answer for the two conclusive verdicts, an error otherwise.
pub fn into_support(r: ProbeResult) -> (s: Result<bool, CopyError>)
    ensures
        r is Supported ==> s == Ok::<bool, CopyError>(true),
        r is Unsupported ==> s == Ok::<bool, CopyError>(false),
        r is NoSeats ==> s == Err::<bool, CopyError>(CopyError::NoSeats),
        r matches ProbeResult::MissingProtocol { name, version }
            ==> (s matches Err(e) && e matches CopyError::MissingProtocol {
                name: n, version: v } && n == name && v == version),
        r is SeatVersionTooLow
            ==> s == Err::<bool, CopyError>(CopyError::SeatVersionTooLow),
{
    match r {
        ProbeResult::Supported => Ok(true),
        ProbeResult::Unsupported => Ok(false),
        ProbeResult::NoSeats => Err(CopyError::NoSeats),
        ProbeResult::MissingProtocol { name, version } => {
            Err(CopyError::MissingProtocol { name, version })
        }
        ProbeResult::SeatVersionTooLow => Err(CopyError::SeatVersionTooLow),
    }
}

} // verus!
