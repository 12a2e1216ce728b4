//! Tests for the sensor byte decode and the discovery/connect/subscribe
//! state machine.

use zoetrope_core::link::{advance, contains_subslice, LinkAction, LinkEvent, RotationSensorLink};
use zoetrope_core::sensor::{decode, payload_byte};
use zoetrope_core::signal::{ConnectionState, RotationSignal};
use zoetrope_core::SENSOR_NAME_PATTERN;

#[test]
fn decode_all_byte_values() {
    for v in 0..=255u16 {
        let v = v as u8;
        let expected: i8 = if v < 128 {
            v as i8
        } else if v == 128 {
            0
        } else {
            (v as i16 - 255) as i8
        };
        assert_eq!(decode(v), expected);
    }
}

#[test]
fn decode_boundary_values() {
    assert_eq!(decode(0), 0);
    assert_eq!(decode(1), 1);
    assert_eq!(decode(5), 5);
    assert_eq!(decode(127), 127);
    assert_eq!(decode(128), 0, "the at-rest sentinel, not the two's-complement minimum");
    assert_eq!(decode(129), -126);
    assert_eq!(decode(200), -55);
    assert_eq!(decode(254), -1);
    assert_eq!(decode(255), 0);
}

#[test]
fn payload_takes_first_byte_or_rests() {
    assert_eq!(payload_byte(&vec![7, 200, 3]), 7);
    assert_eq!(payload_byte(&vec![200]), 200);
    assert_eq!(payload_byte(&Vec::new()), 0);
}

#[test]
fn name_pattern_matching() {
    let pattern: Vec<u8> = SENSOR_NAME_PATTERN.as_bytes().to_vec();
    let seen: Vec<u8> = b"UHDRTZ Arduino Nano 33".to_vec();
    assert!(contains_subslice(&seen, &pattern));
    let other: Vec<u8> = b"(peripheral name unknown)".to_vec();
    assert!(!contains_subslice(&other, &pattern));
    let empty: Vec<u8> = Vec::new();
    assert!(contains_subslice(&seen, &empty));
    assert!(!contains_subslice(&empty, &pattern));
}

#[test]
fn default_signal_is_frozen_at_zero() {
    let s = RotationSignal::default();
    assert_eq!(s.delta, 0);
    assert_eq!(s.state, ConnectionState::Disconnected);
    let n = RotationSignal::new();
    assert_eq!(n.delta, 0);
    assert_eq!(n.state, ConnectionState::Disconnected);
}

fn fresh_link_and_signal() -> (RotationSensorLink, RotationSignal) {
    let link = RotationSensorLink::new(SENSOR_NAME_PATTERN.as_bytes().to_vec());
    let signal = RotationSignal::new();
    (link, signal)
}

fn drive_to_subscribed(link: &mut RotationSensorLink, signal: &mut RotationSignal) {
    let a = advance(link, signal, &LinkEvent::ScanTick);
    assert_eq!(a, LinkAction::StartScan);
    assert_eq!(link.state(), ConnectionState::Scanning);
    let a = advance(
        link,
        signal,
        &LinkEvent::PeripheralSeen(b"Arduino Nano RP2040".to_vec()),
    );
    assert_eq!(a, LinkAction::Connect);
    assert_eq!(link.state(), ConnectionState::Connecting);
    let a = advance(link, signal, &LinkEvent::ConnectSucceeded);
    assert_eq!(a, LinkAction::Subscribe);
    assert_eq!(link.state(), ConnectionState::Subscribed);
}

#[test]
fn notifications_update_signal() {
    let (mut link, mut signal) = fresh_link_and_signal();
    drive_to_subscribed(&mut link, &mut signal);
    advance(&mut link, &mut signal, &LinkEvent::Notification(5));
    assert_eq!(signal.delta, 5);
    assert_eq!(signal.state, ConnectionState::Subscribed);
    advance(&mut link, &mut signal, &LinkEvent::Notification(200));
    assert_eq!(signal.delta, -55);
}

#[test]
fn disconnect_rescans_and_preserves_value() {
    let (mut link, mut signal) = fresh_link_and_signal();
    drive_to_subscribed(&mut link, &mut signal);
    advance(&mut link, &mut signal, &LinkEvent::Notification(7));
    assert_eq!(signal.delta, 7);

    // One control-loop iteration: the loss is taken in, then the loop offers
    // a new discovery cycle.
    advance(&mut link, &mut signal, &LinkEvent::ConnectionLost);
    assert_eq!(link.state(), ConnectionState::Disconnected);
    assert_eq!(signal.delta, 7, "value must survive the disconnect");
    let a = advance(&mut link, &mut signal, &LinkEvent::ScanTick);
    assert_eq!(a, LinkAction::StartScan);
    assert_eq!(link.state(), ConnectionState::Scanning);
    assert_eq!(signal.delta, 7, "value must survive the rescan");
}

#[test]
fn connect_failure_returns_to_scanning() {
    let (mut link, mut signal) = fresh_link_and_signal();
    advance(&mut link, &mut signal, &LinkEvent::ScanTick);
    advance(
        &mut link,
        &mut signal,
        &LinkEvent::PeripheralSeen(b"Arduino".to_vec()),
    );
    assert_eq!(link.state(), ConnectionState::Connecting);
    let a = advance(&mut link, &mut signal, &LinkEvent::ConnectFailed);
    assert_eq!(a, LinkAction::StartScan);
    assert_eq!(link.state(), ConnectionState::Scanning);
}

#[test]
fn sensor_never_found_stays_scanning() {
    let (mut link, mut signal) = fresh_link_and_signal();
    advance(&mut link, &mut signal, &LinkEvent::ScanTick);
    for _cycle in 0..10 {
        let a = advance(
            &mut link,
            &mut signal,
            &LinkEvent::PeripheralSeen(b"some other device".to_vec()),
        );
        assert_eq!(a, LinkAction::Idle);
        assert_eq!(link.state(), ConnectionState::Scanning);
        let a = advance(&mut link, &mut signal, &LinkEvent::ScanSettled);
        assert_eq!(a, LinkAction::StartScan);
        assert_eq!(link.state(), ConnectionState::Scanning);
        assert_eq!(signal.delta, 0, "signal stays at its default");
    }
}

#[test]
fn subscribe_failure_disables_for_session() {
    let (mut link, mut signal) = fresh_link_and_signal();
    drive_to_subscribed(&mut link, &mut signal);
    advance(&mut link, &mut signal, &LinkEvent::Notification(3));
    advance(&mut link, &mut signal, &LinkEvent::SubscribeFailed);
    assert_eq!(link.state(), ConnectionState::Disconnected);
    // The rotation feature is off for the rest of the session: no new
    // discovery cycle begins, and the last value stays.
    let a = advance(&mut link, &mut signal, &LinkEvent::ScanTick);
    assert_eq!(a, LinkAction::Idle);
    assert_eq!(link.state(), ConnectionState::Disconnected);
    assert_eq!(signal.delta, 3);
}

#[test]
fn events_out_of_place_are_ignored() {
    let (mut link, mut signal) = fresh_link_and_signal();
    // A notification with no subscription publishes nothing.
    advance(&mut link, &mut signal, &LinkEvent::Notification(9));
    assert_eq!(signal.delta, 0);
    assert_eq!(link.state(), ConnectionState::Disconnected);
    // A peripheral seen while not scanning is ignored.
    let a = advance(
        &mut link,
        &mut signal,
        &LinkEvent::PeripheralSeen(b"Arduino".to_vec()),
    );
    assert_eq!(a, LinkAction::Idle);
    assert_eq!(link.state(), ConnectionState::Disconnected);
}
