use bevy_simplenet_events::epoch_gate::EpochGate;
use bevy_simplenet_events::epoch_gate::Visibility;

#[test]
fn new_gate_allows_everything() {
    let gate = EpochGate::new();
    assert_eq!(gate.pending_connect, None);
    assert_eq!(gate.recent_consumed_disconnect, None);
    assert!(gate.can_send());
    assert_eq!(gate.visibility(0), Visibility::Deliver);
    assert_eq!(gate.visibility(u64::MAX), Visibility::Deliver);
}

#[test]
fn pending_connect_blocks_sending_until_that_report_is_read() {
    let mut gate = EpochGate::new();
    gate.note_connected(7);
    assert_eq!(gate.pending_connect, Some(7));
    assert!(!gate.can_send());
    // reading other reports changes nothing
    gate.consume(6, false);
    assert!(!gate.can_send());
    gate.try_clear_pending_connect(8);
    assert!(!gate.can_send());
    // reading that very report allows sending at once
    gate.consume(7, false);
    assert_eq!(gate.pending_connect, None);
    assert!(gate.can_send());
}

#[test]
fn newer_connect_replaces_pending_connect() {
    let mut gate = EpochGate::new();
    gate.note_connected(3);
    gate.note_connected(9);
    assert_eq!(gate.pending_connect, Some(9));
    gate.try_clear_pending_connect(3);
    assert_eq!(gate.pending_connect, Some(9));
    gate.try_clear_pending_connect(9);
    assert_eq!(gate.pending_connect, None);
}

#[test]
fn set_pending_connect_replaces_the_marker_only() {
    let mut gate = EpochGate { pending_connect: Some(1), recent_consumed_disconnect: Some(4) };
    gate.set_pending_connect(Some(12));
    assert_eq!(gate, EpochGate { pending_connect: Some(12), recent_consumed_disconnect: Some(4) });
    gate.set_pending_connect(None);
    assert_eq!(gate, EpochGate { pending_connect: None, recent_consumed_disconnect: Some(4) });
}

#[test]
fn classified_disconnect_changes_no_marker_but_read_one_does() {
    let mut gate = EpochGate::new();
    // nothing happens until the report is read
    assert_eq!(gate.recent_consumed_disconnect, None);
    gate.consume(5, true);
    assert_eq!(gate.recent_consumed_disconnect, Some(5));
    gate.consume(6, false);
    assert_eq!(gate.recent_consumed_disconnect, Some(5));
    gate.consume(9, true);
    assert_eq!(gate.recent_consumed_disconnect, Some(9));
}

#[test]
fn reading_a_pending_disconnect_counter_clears_and_marks() {
    let mut gate = EpochGate { pending_connect: Some(5), recent_consumed_disconnect: None };
    gate.consume(5, true);
    assert_eq!(gate, EpochGate { pending_connect: None, recent_consumed_disconnect: Some(5) });
}

#[test]
fn visibility_withholds_at_and_after_pending_connect() {
    let gate = EpochGate { pending_connect: Some(10), recent_consumed_disconnect: None };
    assert_eq!(gate.visibility(9), Visibility::Deliver);
    assert_eq!(gate.visibility(10), Visibility::Withhold);
    assert_eq!(gate.visibility(11), Visibility::Withhold);
}

#[test]
fn visibility_is_stale_at_and_before_consumed_disconnect() {
    let gate = EpochGate { pending_connect: None, recent_consumed_disconnect: Some(10) };
    assert_eq!(gate.visibility(0), Visibility::Stale);
    assert_eq!(gate.visibility(10), Visibility::Stale);
    assert_eq!(gate.visibility(11), Visibility::Deliver);
}

#[test]
fn visibility_between_markers_is_misordered() {
    let gate = EpochGate { pending_connect: Some(20), recent_consumed_disconnect: Some(10) };
    assert_eq!(gate.visibility(10), Visibility::Stale);
    assert_eq!(gate.visibility(11), Visibility::Misordered);
    assert_eq!(gate.visibility(19), Visibility::Misordered);
    assert_eq!(gate.visibility(20), Visibility::Withhold);
    assert_eq!(gate.visibility(21), Visibility::Withhold);
}

#[test]
fn visibility_withholds_first_when_connect_is_older_than_disconnect() {
    let gate = EpochGate { pending_connect: Some(3), recent_consumed_disconnect: Some(5) };
    assert_eq!(gate.visibility(2), Visibility::Stale);
    assert_eq!(gate.visibility(3), Visibility::Withhold);
    assert_eq!(gate.visibility(4), Visibility::Withhold);
    assert_eq!(gate.visibility(6), Visibility::Withhold);
}
