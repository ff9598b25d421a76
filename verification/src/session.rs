//! The negotiated clipboard manager and the run of a copy session.
//!
//! After probing, the engine holds one clipboard manager: the protocol
//! variant it was bound for and whether that protocol demands an input
//! serial when taking the selection. The session decisions live here too:
//! whether the engine may run at all, whether it backgrounds itself, and
//! when its dispatch loop stops.

use vstd::prelude::*;

use crate::error::CopyError;
use crate::source::{should_quit_model, DataSource};

verus! {

/// Which selection the engine publishes to.
#[derive(Clone, Copy, Debug, PartialEq, Eq, Structural)]
pub enum SelectionVariant {
    /// The regular clipboard.
    Regular,
    /// The primary selection.
    Primary,
}

/// The negotiated clipboard manager: a closed set of two variants behind
/// one interface. `needs_serial` is a structural property of the protocol
/// the transport bound: protocols that model selection ownership as a
/// server-granted token demand a serial with every set-selection request.
///
/// Creating the protocol objects themselves is the transport's work; the
/// engine models the created source in [`crate::source`] and the per-seat
/// devices in [`crate::seats`].
pub struct ClipboardManager {
    variant: SelectionVariant,
    needs_serial: bool,
}

impl ClipboardManager {
    /// The manager the transport negotiated.
    pub fn new(variant: SelectionVariant, needs_serial: bool) -> (m: ClipboardManager)
        ensures
            m.variant_spec() == variant,
            m.requires_serial_spec() == needs_serial,
    {
        ClipboardManager { variant, needs_serial }
    }

    /// Which selection this manager publishes to.
    pub closed spec fn variant_spec(&self) -> SelectionVariant {
        self.variant
    }

    /// Whether set-selection requests must carry an input serial.
    pub closed spec fn requires_serial_spec(&self) -> bool {
        self.needs_serial
    }

    pub fn variant(&self) -> (v: SelectionVariant)
        ensures
            v == self.variant_spec(),
    {
        self.variant
    }

    pub fn requires_serial(&self) -> (r: bool)
        ensures
            r == self.requires_serial_spec(),
    {
        self.needs_serial
    }
}

/// Whether a copy may start at all, decided before anything is published.
///
/// It may not when no seat exists (nowhere to copy to) and not when the
/// negotiated protocol demands a serial: the engine acquires none and
/// refuses at startup rather than sending an invalid token mid-publish.
pub fn startup_check(seat_count: usize, manager: &ClipboardManager) -> (r: Result<
    (),
    CopyError,
>)
    ensures
        r is Ok <==> seat_count > 0 && !manager.requires_serial_spec(),
        seat_count == 0 ==> r == Err::<(), CopyError>(CopyError::NoSeats),
        seat_count > 0 && manager.requires_serial_spec() ==> r == Err::<(), CopyError>(
            CopyError::SerialRequiredUnsupported,
        ),
{
    if seat_count == 0 {
        Err(CopyError::NoSeats)
    } else if manager.requires_serial() {
        Err(CopyError::SerialRequiredUnsupported)
    } else {
        Ok(())
    }
}

/// Whether the process backgrounds itself: only a publishing run (not a
/// clear) that was not asked to stay in the foreground forks, after the
/// source and every device are set up and before the loop is entered.
pub fn should_fork(clear: bool, foreground: bool) -> (r: bool)
    ensures
        r == (!clear && !foreground),
{
    !clear && !foreground
}

/// What the dispatch loop does next.
#[derive(Clone, Copy, Debug, PartialEq, Eq, Structural)]
pub enum LoopAction {
    /// Flush outgoing traffic, then block for events and dispatch them.
    PollEvents,
    /// Leave the loop and clean up.
    Finish,
}

/// The loop's sole exit condition: the source says the engine is done.
/// Between any two event dispatches this is the one place cancellation is
/// observed.
pub fn next_loop_action(source: &DataSource) -> (a: LoopAction)
    ensures
        a is Finish <==> should_quit_model(source@),
{
    if source.should_quit() {
        LoopAction::Finish
    } else {
        LoopAction::PollEvents
    }
}

} // verus!
