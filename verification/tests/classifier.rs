use theclicker::classify::{classify, process_events};
use theclicker::{Binding, Mode, RawEvent, ToggleStates};

fn key(code: u16, value: i32) -> RawEvent {
    RawEvent { ev_type: 1, code, value }
}

fn left_only(code: u16) -> Binding {
    Binding { left: Some(code), middle: None, right: None, lock_unlock: None }
}

#[test]
fn toggle_press_flips_once() {
    let b = left_only(275);
    let s0 = ToggleStates::default();
    let (s1, used1) = classify(s0, &b, Mode::Toggle, key(275, 1));
    assert!(s1.left && used1);
    let (s2, used2) = classify(s1, &b, Mode::Toggle, key(275, 1));
    assert!(!s2.left && used2);
}

#[test]
fn toggle_ignores_release() {
    let b = left_only(275);
    let s0 = ToggleStates::default();
    let (s1, _) = classify(s0, &b, Mode::Toggle, key(275, 1));
    assert!(s1.left);
    let (s2, used) = classify(s1, &b, Mode::Toggle, key(275, 0));
    assert!(s2.left);
    assert!(used);
}

#[test]
fn hold_follows_press_level() {
    let b = left_only(30);
    let s0 = ToggleStates::default();
    let (s1, _) = classify(s0, &b, Mode::Hold, key(30, 1));
    assert!(s1.left);
    let (s2, _) = classify(s1, &b, Mode::Hold, key(30, 2));
    assert!(s2.left);
    let (s3, _) = classify(s2, &b, Mode::Hold, key(30, 0));
    assert!(!s3.left);
}

#[test]
fn unmatched_event_changes_nothing() {
    let b = left_only(275);
    let s0 = ToggleStates::default();
    let (s1, used) = classify(s0, &b, Mode::Toggle, key(999, 1));
    assert_eq!(s1, s0);
    assert!(!used);
}

#[test]
fn lock_freezes_roles() {
    let b = Binding { left: Some(275), middle: None, right: None, lock_unlock: Some(274) };
    let locked = ToggleStates { left: false, middle: false, right: false, lock: true };
    let (s1, used) = classify(locked, &b, Mode::Toggle, key(275, 1));
    assert_eq!(s1, locked);
    assert!(!used);
}

#[test]
fn lock_binding_is_exempt_from_freeze() {
    let b = Binding { left: Some(275), middle: None, right: None, lock_unlock: Some(274) };
    let locked = ToggleStates { left: false, middle: false, right: false, lock: true };
    let (s1, used) = classify(locked, &b, Mode::Toggle, key(274, 1));
    assert!(!s1.lock);
    assert!(used);
    let (s2, used2) = classify(s1, &b, Mode::Toggle, key(274, 1));
    assert!(s2.lock);
    assert!(used2);
}

#[test]
fn lock_release_is_not_consumed() {
    let b = Binding { left: None, middle: None, right: None, lock_unlock: Some(274) };
    let s0 = ToggleStates::default();
    let (s1, used) = classify(s0, &b, Mode::Toggle, key(274, 0));
    assert_eq!(s1, s0);
    assert!(!used);
}

#[test]
fn scenario_locked_start_then_unlock() {
    // lock_unlock bound to 274, left to 275, starting locked: pressing 275
    // changes nothing, pressing 274 unlocks, pressing 275 then flips left.
    let b = Binding { left: Some(275), middle: None, right: None, lock_unlock: Some(274) };
    let s0 = ToggleStates { left: false, middle: false, right: false, lock: true };
    let (s1, _) = classify(s0, &b, Mode::Toggle, key(275, 1));
    assert_eq!(s1, s0);
    let (s2, _) = classify(s1, &b, Mode::Toggle, key(274, 1));
    assert!(!s2.lock);
    let (s3, _) = classify(s2, &b, Mode::Toggle, key(275, 1));
    assert!(s3.left);
}

#[test]
fn snapshots_sent_only_on_change() {
    let b = left_only(30);
    let s0 = ToggleStates::default();
    let events = vec![key(30, 1), key(30, 2), key(30, 0)];
    let (end, snapshots, _) = process_events(s0, &b, Mode::Hold, false, &events);
    assert!(!end.left);
    // The repeat (value 2) leaves the state unchanged, so only the press
    // and the release produce snapshots.
    assert_eq!(snapshots.len(), 2);
    assert!(snapshots[0].left);
    assert!(!snapshots[1].left);
}

#[test]
fn pass_through_forwards_unmatched_in_order() {
    let b = left_only(275);
    let s0 = ToggleStates::default();
    let events = vec![key(300, 1), key(275, 1), key(301, 0), key(275, 0)];
    let (end, _, forwarded) = process_events(s0, &b, Mode::Toggle, true, &events);
    assert!(end.left);
    assert_eq!(forwarded, vec![key(300, 1), key(301, 0)]);
}

#[test]
fn pass_through_off_without_grab() {
    let b = left_only(275);
    let s0 = ToggleStates::default();
    let events = vec![key(300, 1), key(301, 0)];
    let (_, _, forwarded) = process_events(s0, &b, Mode::Toggle, false, &events);
    assert!(forwarded.is_empty());
}

#[test]
fn empty_batch_changes_nothing() {
    let b = left_only(275);
    let s0 = ToggleStates::default();
    let (end, snapshots, forwarded) = process_events(s0, &b, Mode::Toggle, true, &vec![]);
    assert_eq!(end, s0);
    assert!(snapshots.is_empty());
    assert!(forwarded.is_empty());
}

#[test]
fn split_batches_match_one_batch() {
    let b = Binding { left: Some(275), middle: None, right: None, lock_unlock: Some(274) };
    let s0 = ToggleStates::default();
    let all = vec![key(275, 1), key(300, 1), key(274, 1), key(275, 1), key(301, 0)];
    let (end_whole, snaps_whole, fwd_whole) = process_events(s0, &b, Mode::Toggle, true, &all);

    let first = vec![key(275, 1), key(300, 1)];
    let second = vec![key(274, 1), key(275, 1), key(301, 0)];
    let (mid, mut snaps_split, mut fwd_split) = process_events(s0, &b, Mode::Toggle, true, &first);
    let (end_split, snaps_tail, fwd_tail) = process_events(mid, &b, Mode::Toggle, true, &second);
    snaps_split.extend(snaps_tail);
    fwd_split.extend(fwd_tail);

    assert_eq!(end_whole, end_split);
    assert_eq!(snaps_whole, snaps_split);
    assert_eq!(fwd_whole, fwd_split);
    // While locked, even the left-bound press is passed through.
    assert_eq!(fwd_whole, vec![key(300, 1), key(275, 1), key(301, 0)]);
}

#[test]
fn batch_runs_events_in_order() {
    let b = left_only(275);
    let s0 = ToggleStates::default();
    let events = vec![key(275, 1), key(275, 1), key(275, 1)];
    let (end, snapshots, _) = process_events(s0, &b, Mode::Toggle, false, &events);
    assert!(end.left);
    assert_eq!(snapshots.len(), 3);
    assert!(snapshots[0].left);
    assert!(!snapshots[1].left);
    assert!(snapshots[2].left);
}
