//! Last-known rotation sample and the sensor link's lifecycle state.
//!
//! The signal is a process-wide cell with a single writer (the sensor link)
//! and many readers: last write wins, readers never see a torn update, and
//! with no sensor the value stays frozen at its default of zero.

use vstd::prelude::*;

verus! {

/// Lifecycle state of the wireless rotation-sensor link, observable
/// externally (a setup spinner, for one) and mutated only by the link.
#[derive(Clone, Copy, Debug, PartialEq, Eq, Structural)]
pub enum ConnectionState {
    /// No link; a fresh discovery cycle may begin.
    Disconnected,
    /// Scanning for a peripheral whose name matches the sensor's.
    Scanning,
    /// A matching peripheral was found and is being connected.
    Connecting,
    /// Connected and subscribed: notifications are flowing.
    Subscribed,
}

/// The last-known decoded rotation sample plus the link's state.
pub struct RotationSignal {
    /// Last decoded rotation-rate sample; zero until a sensor ever reports.
    pub delta: i8,
    /// Current lifecycle state of the sensor link.
    pub state: ConnectionState,
}

impl RotationSignal {
    /// The signal before any sensor was seen: sample zero, link down.
    pub fn new() -> (s: RotationSignal)
        ensures
            s.delta == 0,
            s.state == ConnectionState::Disconnected,
    {
        RotationSignal { delta: 0, state: ConnectionState::Disconnected }
    }

    /// Record a freshly decoded sample, leaving the link state as it is.
    pub fn set_delta(&mut self, delta: i8)
        ensures
            final(self).delta == delta,
            final(self).state == old(self).state,
    {
        self.delta = delta;
    }

    /// Record a link state change, preserving the last-known sample: a
    /// disconnect does not reset the value.
    pub fn set_state(&mut self, state: ConnectionState)
        ensures
            final(self).delta == old(self).delta,
            final(self).state == state,
    {
        self.state = state;
    }
}

impl Default for RotationSignal {
    /// The signal before any sensor was seen: sample zero, link down.
    fn default() -> (s: RotationSignal)
        ensures
            s.delta == 0,
            s.state == ConnectionState::Disconnected,
    {
        RotationSignal { delta: 0, state: ConnectionState::Disconnected }
    }
}

} // verus!
