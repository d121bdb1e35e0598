use theclicker::classify::classify;
use theclicker::emission::{
    active_line, cycle_actions, key_frame, should_block, state_changed, Action, BTN_LEFT,
    BTN_MIDDLE, BTN_RIGHT,
};
use theclicker::{Binding, Mode, RawEvent, ToggleStates};

fn state(left: bool, middle: bool, right: bool) -> ToggleStates {
    ToggleStates { left, middle, right, lock: false }
}

#[test]
fn cycle_for_left_only() {
    let plan = cycle_actions(state(true, false, false), 25, 0);
    assert_eq!(
        plan,
        vec![Action::Press(BTN_LEFT), Action::Release(BTN_LEFT), Action::Sleep(25)]
    );
}

#[test]
fn cycle_for_all_roles_with_press_release_gap() {
    let plan = cycle_actions(state(true, true, true), 10, 5);
    assert_eq!(
        plan,
        vec![
            Action::Press(BTN_LEFT),
            Action::Press(BTN_MIDDLE),
            Action::Press(BTN_RIGHT),
            Action::Sleep(5),
            Action::Release(BTN_LEFT),
            Action::Release(BTN_MIDDLE),
            Action::Release(BTN_RIGHT),
            Action::Sleep(10),
        ]
    );
}

#[test]
fn cycle_for_idle_state_only_sleeps() {
    let plan = cycle_actions(state(false, false, false), 40, 7);
    assert_eq!(plan, vec![Action::Sleep(7), Action::Sleep(40)]);
}

#[test]
fn zero_press_release_gap_means_no_sleep_between() {
    let plan = cycle_actions(state(true, false, true), 25, 0);
    for (i, a) in plan.iter().enumerate() {
        if i + 1 < plan.len() {
            assert!(!matches!(a, Action::Sleep(_)));
        }
    }
    assert_eq!(plan.last(), Some(&Action::Sleep(25)));
}

#[test]
fn scenario_toggle_left_bound_275() {
    // left bound to code 275 in toggle mode, cooldown 25 ms, no
    // press-to-release gap: one press event activates left, two cycles each
    // produce one left press immediately followed by its release, 25 ms
    // apart; a second press event deactivates left and emission stops.
    let b = Binding { left: Some(275), middle: None, right: None, lock_unlock: None };
    let s0 = ToggleStates::default();
    let (s1, _) = classify(s0, &b, Mode::Toggle, RawEvent { ev_type: 1, code: 275, value: 1 });
    assert_eq!(s1, state(true, false, false));
    let expected = vec![Action::Press(BTN_LEFT), Action::Release(BTN_LEFT), Action::Sleep(25)];
    assert_eq!(cycle_actions(s1, 25, 0), expected);
    assert_eq!(cycle_actions(s1, 25, 0), expected);
    let (s2, _) = classify(s1, &b, Mode::Toggle, RawEvent { ev_type: 1, code: 275, value: 1 });
    assert_eq!(s2, state(false, false, false));
    let idle_plan = cycle_actions(s2, 25, 0);
    assert!(idle_plan.iter().all(|a| matches!(a, Action::Sleep(_))));
    assert!(should_block(s2));
}

#[test]
fn blocking_policy_follows_activity() {
    assert!(should_block(ToggleStates::default()));
    assert!(should_block(ToggleStates { left: false, middle: false, right: false, lock: true }));
    assert!(!should_block(state(true, false, false)));
    assert!(!should_block(state(false, true, false)));
    assert!(!should_block(state(false, false, true)));
}

#[test]
fn state_change_detection() {
    let a = state(true, false, false);
    assert!(!state_changed(a, a));
    assert!(state_changed(a, state(true, true, false)));
    assert!(state_changed(
        ToggleStates::default(),
        ToggleStates { left: false, middle: false, right: false, lock: true }
    ));
}

#[test]
fn key_frame_press_pairs_key_with_syn_report() {
    let frame = key_frame(BTN_LEFT, true);
    assert_eq!(
        frame,
        vec![
            RawEvent { ev_type: 1, code: 272, value: 1 },
            RawEvent { ev_type: 0, code: 0, value: 0 },
        ]
    );
}

#[test]
fn key_frame_release_pairs_key_with_syn_report() {
    let frame = key_frame(BTN_RIGHT, false);
    assert_eq!(
        frame,
        vec![
            RawEvent { ev_type: 1, code: 273, value: 0 },
            RawEvent { ev_type: 0, code: 0, value: 0 },
        ]
    );
}

#[test]
fn active_line_lists_active_roles() {
    assert_eq!(active_line(state(false, false, false)), "Active: ");
    assert_eq!(active_line(state(true, false, false)), "Active: left");
    assert_eq!(active_line(state(false, true, true)), "Active: middle, right");
    assert_eq!(active_line(state(true, true, true)), "Active: left, middle, right");
}
