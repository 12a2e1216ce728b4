//! Discovery/connect/subscribe state machine of the wireless rotation
//! sensor.
//!
//! The machine decides; the transport acts. Each call to [`advance`] takes
//! one event reported by the transport (a peripheral seen while scanning, a
//! connect result, a notification, a loss of connection) and yields the
//! action the transport should perform next, while keeping the
//! [`RotationSignal`] cell up to date. Loss of connection is non-fatal: the
//! next discovery cycle begins immediately, and the last-known rotation
//! value is preserved. A failed subscription disables the rotation feature
//! for the rest of the session.

use vstd::prelude::*;
use crate::sensor::{decode, decode_spec};
use crate::signal::{ConnectionState, RotationSignal};

verus! {

/// The needle occurs in the haystack at position `i`.
pub open spec fn match_at(hay: Seq<u8>, needle: Seq<u8>, i: int) -> bool {
    forall|j: int| 0 <= j < needle.len() ==> hay[i + j] == needle[j]
}

/// The needle occurs somewhere in the haystack.
pub open spec fn contains_pattern(hay: Seq<u8>, needle: Seq<u8>) -> bool {
    exists|i: int| 0 <= i && i + needle.len() <= hay.len() && match_at(hay, needle, i)
}

/// Check for an occurrence of the needle at one position.
fn matches_at(hay: &Vec<u8>, needle: &Vec<u8>, i: usize) -> (m: bool)
    requires
        i + needle@.len() <= hay@.len(),
    ensures
        m == match_at(hay@, needle@, i as int),
{
    let _hay_len: usize = hay.len();
    let mut j: usize = 0;
    while j < needle.len()
        invariant
            i + needle@.len() <= hay@.len(),
            hay@.len() <= usize::MAX,
            j <= needle@.len(),
            forall|jj: int| 0 <= jj < j ==> hay@[i + jj] == needle@[jj],
        decreases needle@.len() - j,
    {
        if hay[i + j] != needle[j] {
            return false;
        }
        j = j + 1;
    }
    true
}

/// Decide whether an advertised peripheral name contains the configured
/// name fragment of the sensor.
pub fn contains_subslice(hay: &Vec<u8>, needle: &Vec<u8>) -> (found: bool)
    ensures
        found == contains_pattern(hay@, needle@),
{
    let nlen: usize = needle.len();
    let hlen: usize = hay.len();
    if nlen > hlen {
        return false;
    }
    let mut i: usize = 0;
    while i <= hlen - nlen
        invariant
            nlen == needle@.len(),
            hlen == hay@.len(),
            nlen <= hlen,
            i <= hlen - nlen + 1,
            forall|ii: int| 0 <= ii < i ==> !match_at(hay@, needle@, ii),
        decreases hlen - nlen + 1 - i,
    {
        if matches_at(hay, needle, i) {
            return true;
        }
        i = i + 1;
    }
    false
}

/// One event reported by the transport driving the link.
#[derive(Debug, Clone)]
pub enum LinkEvent {
    /// The control loop offers to begin a discovery cycle.
    ScanTick,
    /// A peripheral advertising the given name bytes was seen while
    /// scanning.
    PeripheralSeen(Vec<u8>),
    /// The scan-settle delay elapsed without a match.
    ScanSettled,
    /// The connection attempt succeeded.
    ConnectSucceeded,
    /// The connection attempt failed.
    ConnectFailed,
    /// The notification characteristic could not be subscribed.
    SubscribeFailed,
    /// One raw notification byte arrived from the sensor.
    Notification(u8),
    /// The established connection was lost.
    ConnectionLost,
}

/// What the transport should do after an event was taken in.
#[derive(Clone, Copy, Debug, PartialEq, Eq, Structural)]
pub enum LinkAction {
    /// Nothing; await the next event.
    Idle,
    /// Start (or restart) scanning for peripherals.
    StartScan,
    /// Connect to the peripheral just matched.
    Connect,
    /// Subscribe to the notification characteristic.
    Subscribe,
}

/// The link state after taking one event.
pub open spec fn next_state(
    state: ConnectionState,
    disabled: bool,
    event: LinkEvent,
    pattern: Seq<u8>,
) -> ConnectionState {
    if disabled {
        state
    } else {
        match event {
            LinkEvent::ScanTick => if state is Disconnected {
                ConnectionState::Scanning
            } else {
                state
            },
            LinkEvent::PeripheralSeen(name) => if state is Scanning && contains_pattern(
                name@,
                pattern,
            ) {
                ConnectionState::Connecting
            } else {
                state
            },
            LinkEvent::ScanSettled => state,
            LinkEvent::ConnectSucceeded => if state is Connecting {
                ConnectionState::Subscribed
            } else {
                state
            },
            LinkEvent::ConnectFailed => if state is Connecting {
                ConnectionState::Scanning
            } else {
                state
            },
            LinkEvent::SubscribeFailed => if state is Subscribed {
                ConnectionState::Disconnected
            } else {
                state
            },
            LinkEvent::Notification(_) => state,
            LinkEvent::ConnectionLost => if state is Subscribed {
                ConnectionState::Disconnected
            } else {
                state
            },
        }
    }
}

/// Whether the rotation feature is disabled after taking one event: once a
/// subscription fails, it stays off for the session.
pub open spec fn next_disabled(state: ConnectionState, disabled: bool, event: LinkEvent) -> bool {
    disabled || (state is Subscribed && event is SubscribeFailed)
}

/// The action handed to the transport for one event.
pub open spec fn action_spec(
    state: ConnectionState,
    disabled: bool,
    event: LinkEvent,
    pattern: Seq<u8>,
) -> LinkAction {
    if disabled {
        LinkAction::Idle
    } else {
        match event {
            LinkEvent::ScanTick => if state is Disconnected {
                LinkAction::StartScan
            } else {
                LinkAction::Idle
            },
            LinkEvent::PeripheralSeen(name) => if state is Scanning && contains_pattern(
                name@,
                pattern,
            ) {
                LinkAction::Connect
            } else {
                LinkAction::Idle
            },
            LinkEvent::ScanSettled => if state is Scanning {
                LinkAction::StartScan
            } else {
                LinkAction::Idle
            },
            LinkEvent::ConnectSucceeded => if state is Connecting {
                LinkAction::Subscribe
            } else {
                LinkAction::Idle
            },
            LinkEvent::ConnectFailed => if state is Connecting {
                LinkAction::StartScan
            } else {
                LinkAction::Idle
            },
            _ => LinkAction::Idle,
        }
    }
}

/// The decoded sample published for one event: only a notification taken in
/// while subscribed publishes anything.
pub open spec fn publish_spec(state: ConnectionState, disabled: bool, event: LinkEvent) -> Option<
    int,
> {
    match event {
        LinkEvent::Notification(b) => if !disabled && state is Subscribed {
            Some(decode_spec(b))
        } else {
            None
        },
        _ => None,
    }
}

/// The discovery/connect/subscribe state machine, configured with the name
/// fragment that identifies the sensor.
pub struct RotationSensorLink {
    pattern: Vec<u8>,
    state: ConnectionState,
    disabled: bool,
}

impl RotationSensorLink {
    /// The configured name fragment.
    pub closed spec fn spec_pattern(self) -> Seq<u8> {
        self.pattern@
    }

    /// The current lifecycle state.
    pub closed spec fn spec_state(self) -> ConnectionState {
        self.state
    }

    /// Whether the rotation feature was disabled by a failed subscription.
    pub closed spec fn spec_disabled(self) -> bool {
        self.disabled
    }

    /// A fresh link, disconnected, looking for peripherals whose advertised
    /// name contains the given bytes.
    pub fn new(pattern: Vec<u8>) -> (link: RotationSensorLink)
        ensures
            link.spec_state() == ConnectionState::Disconnected,
            !link.spec_disabled(),
            link.spec_pattern() == pattern@,
    {
        RotationSensorLink { pattern, state: ConnectionState::Disconnected, disabled: false }
    }

    /// The current lifecycle state, for UI indicators.
    pub fn state(&self) -> (s: ConnectionState)
        ensures
            s == self.spec_state(),
    {
        self.state
    }

    /// Take one transport event: move to the next state and hand back the
    /// action to perform plus the decoded sample to publish, if any.
    pub fn step(&mut self, event: &LinkEvent) -> (out: (LinkAction, Option<i8>))
        ensures
            final(self).spec_state() == next_state(
                old(self).spec_state(),
                old(self).spec_disabled(),
                *event,
                old(self).spec_pattern(),
            ),
            final(self).spec_disabled() == next_disabled(
                old(self).spec_state(),
                old(self).spec_disabled(),
                *event,
            ),
            final(self).spec_pattern() == old(self).spec_pattern(),
            out.0 == action_spec(
                old(self).spec_state(),
                old(self).spec_disabled(),
                *event,
                old(self).spec_pattern(),
            ),
            match out.1 {
                Some(d) => publish_spec(old(self).spec_state(), old(self).spec_disabled(), *event)
                    == Some(d as int),
                None => publish_spec(old(self).spec_state(), old(self).spec_disabled(), *event)
                    is None,
            },
    {
        let mut action = LinkAction::Idle;
        let mut publish: Option<i8> = None;
        if self.disabled {
            return (action, publish);
        }
        match event {
            LinkEvent::ScanTick => {
                if self.state == ConnectionState::Disconnected {
                    self.state = ConnectionState::Scanning;
                    action = LinkAction::StartScan;
                }
            },
            LinkEvent::PeripheralSeen(name) => {
                if self.state == ConnectionState::Scanning && contains_subslice(
                    name,
                    &self.pattern,
                ) {
                    self.state = ConnectionState::Connecting;
                    action = LinkAction::Connect;
                }
            },
            LinkEvent::ScanSettled => {
                if self.state == ConnectionState::Scanning {
                    action = LinkAction::StartScan;
                }
            },
            LinkEvent::ConnectSucceeded => {
                if self.state == ConnectionState::Connecting {
                    self.state = ConnectionState::Subscribed;
                    action = LinkAction::Subscribe;
                }
            },
            LinkEvent::ConnectFailed => {
                if self.state == ConnectionState::Connecting {
                    self.state = ConnectionState::Scanning;
                    action = LinkAction::StartScan;
                }
            },
            LinkEvent::SubscribeFailed => {
                if self.state == ConnectionState::Subscribed {
                    self.state = ConnectionState::Disconnected;
                    self.disabled = true;
                }
            },
            LinkEvent::Notification(b) => {
                if self.state == ConnectionState::Subscribed {
                    publish = Some(decode(*b));
                }
            },
            LinkEvent::ConnectionLost => {
                if self.state == ConnectionState::Subscribed {
                    self.state = ConnectionState::Disconnected;
                }
            },
        }
        (action, publish)
    }
}

/// Take one transport event through the link and marshal the outcome into
/// the rotation signal: the signal's state always mirrors the link's, and
/// its value changes only when a notification arrives while subscribed —
/// in particular a disconnect preserves the last-known value.
pub fn advance(link: &mut RotationSensorLink, signal: &mut RotationSignal, event: &LinkEvent) -> (a:
    LinkAction)
    ensures
        final(link).spec_state() == next_state(
            old(link).spec_state(),
            old(link).spec_disabled(),
            *event,
            old(link).spec_pattern(),
        ),
        final(link).spec_disabled() == next_disabled(
            old(link).spec_state(),
            old(link).spec_disabled(),
            *event,
        ),
        final(link).spec_pattern() == old(link).spec_pattern(),
        a == action_spec(
            old(link).spec_state(),
            old(link).spec_disabled(),
            *event,
            old(link).spec_pattern(),
        ),
        final(signal).state == final(link).spec_state(),
        match publish_spec(old(link).spec_state(), old(link).spec_disabled(), *event) {
            Some(d) => final(signal).delta as int == d,
            None => final(signal).delta == old(signal).delta,
        },
{
    let (action, publish) = link.step(event);
    match publish {
        Some(d) => signal.set_delta(d),
        None => (),
    }
    let s = link.state();
    signal.set_state(s);
    action
}

/// A fruitless scan changes nothing: while scanning, any event other than
/// the sight of a peripheral whose name matches leaves the machine scanning,
/// publishes no sample, and keeps the feature enabled — however many
/// discovery cycles pass, the signal stays at its last value, and the
/// machine occupies no more memory than one state.
pub proof fn lemma_fruitless_scanning(pattern: Seq<u8>, event: LinkEvent)
    requires
        event matches LinkEvent::PeripheralSeen(name) ==> !contains_pattern(name@, pattern),
    ensures
        next_state(ConnectionState::Scanning, false, event, pattern) == ConnectionState::Scanning,
        next_disabled(ConnectionState::Scanning, false, event) == false,
        publish_spec(ConnectionState::Scanning, false, event) is None,
{
}

/// The event is fruitless while looking for the sensor: it is not the sight
/// of a peripheral whose advertised name matches the pattern.
pub open spec fn is_fruitless(event: LinkEvent, pattern: Seq<u8>) -> bool {
    match event {
        LinkEvent::PeripheralSeen(name) => !contains_pattern(name@, pattern),
        _ => true,
    }
}

/// The machine's state and disabled flag after taking a whole sequence of
/// events, first to last.
pub open spec fn run_state(
    state: ConnectionState,
    disabled: bool,
    events: Seq<LinkEvent>,
    pattern: Seq<u8>,
) -> (ConnectionState, bool)
    decreases events.len(),
{
    if events.len() == 0 {
        (state, disabled)
    } else {
        run_state(
            next_state(state, disabled, events.first(), pattern),
            next_disabled(state, disabled, events.first()),
            events.drop_first(),
            pattern,
        )
    }
}

/// A sensor that is never found, over a whole run: starting disconnected or
/// scanning with the feature enabled, any number of fruitless events leaves
/// the machine disconnected or scanning, never disables it, and publishes
/// not a single sample along the way — the signal keeps its last value for
/// the whole run, and the machine holds one fixed-size state throughout.
pub proof fn lemma_sensor_never_found(
    state: ConnectionState,
    events: Seq<LinkEvent>,
    pattern: Seq<u8>,
)
    requires
        state is Disconnected || state is Scanning,
        forall|i: int| 0 <= i < events.len() ==> is_fruitless(#[trigger] events[i], pattern),
    ensures
        run_state(state, false, events, pattern).0 is Disconnected || run_state(
            state,
            false,
            events,
            pattern,
        ).0 is Scanning,
        run_state(state, false, events, pattern).1 == false,
        forall|i: int|
            0 <= i < events.len() ==> #[trigger] publish_spec(
                run_state(state, false, events.subrange(0, i), pattern).0,
                run_state(state, false, events.subrange(0, i), pattern).1,
                events[i],
            ) is None,
    decreases events.len(),
{
    if events.len() > 0 {
        assert(is_fruitless(events[0], pattern));
        let s1 = next_state(state, false, events.first(), pattern);
        let d1 = next_disabled(state, false, events.first());
        assert(s1 is Disconnected || s1 is Scanning);
        assert(d1 == false);
        lemma_sensor_never_found(s1, events.drop_first(), pattern);
        assert forall|i: int| 0 <= i < events.len() implies #[trigger] publish_spec(
            run_state(state, false, events.subrange(0, i), pattern).0,
            run_state(state, false, events.subrange(0, i), pattern).1,
            events[i],
        ) is None by {
            if i == 0 {
                assert(events.subrange(0, 0) =~= Seq::<LinkEvent>::empty());
            } else {
                assert(events.subrange(0, i).first() == events.first());
                assert(events.subrange(0, i).drop_first() =~= events.drop_first().subrange(
                    0,
                    i - 1,
                ));
                assert(events.drop_first()[i - 1] == events[i]);
                assert(publish_spec(
                    run_state(s1, false, events.drop_first().subrange(0, i - 1), pattern).0,
                    run_state(s1, false, events.drop_first().subrange(0, i - 1), pattern).1,
                    events.drop_first()[i - 1],
                ) is None);
            }
        }
    }
}

/// Loss of an established connection is non-fatal and applies no backoff:
/// within one control-loop iteration the machine goes from `Subscribed`
/// through `Disconnected` back to `Scanning`, and neither step publishes a
/// sample, so the last-known rotation value is preserved.
pub proof fn lemma_disconnect_rescan(pattern: Seq<u8>)
    ensures
        next_state(ConnectionState::Subscribed, false, LinkEvent::ConnectionLost, pattern)
            == ConnectionState::Disconnected,
        next_disabled(ConnectionState::Subscribed, false, LinkEvent::ConnectionLost) == false,
        publish_spec(ConnectionState::Subscribed, false, LinkEvent::ConnectionLost) is None,
        next_state(ConnectionState::Disconnected, false, LinkEvent::ScanTick, pattern)
            == ConnectionState::Scanning,
        action_spec(ConnectionState::Disconnected, false, LinkEvent::ScanTick, pattern)
            == LinkAction::StartScan,
        publish_spec(ConnectionState::Disconnected, false, LinkEvent::ScanTick) is None,
{
}

} // verus!
