//! The emission loop's cadence planner: what one cycle of the loop does for
//! a given state snapshot, as a sequence of press, release and sleep steps,
//! and the per-step event frames for the virtual output device.

use vstd::prelude::*;

use crate::state::RawEvent;
use crate::state::ToggleStates;

verus! {

/// Event code of the primary (left) virtual mouse button.
pub const BTN_LEFT: u16 = 272;

/// Event code of the secondary (right) virtual mouse button.
pub const BTN_RIGHT: u16 = 273;

/// Event code of the middle virtual mouse button.
pub const BTN_MIDDLE: u16 = 274;

/// Event type of key and button events.
pub const EV_KEY: u16 = 1;

/// Event type of synchronize markers; a report marker has code and value 0.
pub const EV_SYN: u16 = 0;

/// One step of an emission cycle. The device layer performs the steps in
/// order: it writes a press or release frame for the given button code, or
/// sleeps for the given number of milliseconds.
#[derive(Clone, Copy, Debug, PartialEq, Eq, Structural)]
pub enum Action {
    /// Write a press frame for this button code.
    Press(u16),
    /// Write a release frame for this button code.
    Release(u16),
    /// Sleep this many milliseconds.
    Sleep(u64),
}

/// A press or release step for one button, present exactly when the role is
/// active in the sampled state.
pub open spec fn spec_role_actions(active: bool, action: Action) -> Seq<Action> {
    if active {
        seq![action]
    } else {
        Seq::empty()
    }
}

/// The press steps of one cycle: one per active role, left, middle, right.
pub open spec fn spec_presses(s: ToggleStates) -> Seq<Action> {
    spec_role_actions(s.left, Action::Press(BTN_LEFT)) + spec_role_actions(
        s.middle,
        Action::Press(BTN_MIDDLE),
    ) + spec_role_actions(s.right, Action::Press(BTN_RIGHT))
}

/// The release steps of one cycle: one per active role, left, middle, right.
pub open spec fn spec_releases(s: ToggleStates) -> Seq<Action> {
    spec_role_actions(s.left, Action::Release(BTN_LEFT)) + spec_role_actions(
        s.middle,
        Action::Release(BTN_MIDDLE),
    ) + spec_role_actions(s.right, Action::Release(BTN_RIGHT))
}

/// One full emission cycle for the state sampled at its start: press every
/// active role, sleep `cooldown_pr` between press and release only when it
/// is nonzero, release every active role, then sleep `cooldown`.
pub open spec fn spec_cycle(s: ToggleStates, cooldown: u64, cooldown_pr: u64) -> Seq<Action> {
    spec_presses(s) + (if cooldown_pr > 0 {
        seq![Action::Sleep(cooldown_pr)]
    } else {
        Seq::<Action>::empty()
    }) + spec_releases(s) + seq![Action::Sleep(cooldown)]
}

/// Plan one emission cycle for a sampled state snapshot.
///
/// The cycle uses only the state captured here: a role that turns off
/// before the release step still completes its press/release pair.
pub fn cycle_actions(s: ToggleStates, cooldown: u64, cooldown_pr: u64) -> (r: Vec<Action>)
    ensures
        r@ == spec_cycle(s, cooldown, cooldown_pr),
{
    let mut r: Vec<Action> = Vec::new();
    if s.left {
        r.push(Action::Press(BTN_LEFT));
    }
    if s.middle {
        r.push(Action::Press(BTN_MIDDLE));
    }
    if s.right {
        r.push(Action::Press(BTN_RIGHT));
    }
    if cooldown_pr > 0 {
        r.push(Action::Sleep(cooldown_pr));
    }
    if s.left {
        r.push(Action::Release(BTN_LEFT));
    }
    if s.middle {
        r.push(Action::Release(BTN_MIDDLE));
    }
    if s.right {
        r.push(Action::Release(BTN_RIGHT));
    }
    r.push(Action::Sleep(cooldown));
    proof {
        assert(r@ =~= spec_cycle(s, cooldown, cooldown_pr));
    }
    r
}

/// Whether the emission loop should block on the state channel before this
/// cycle: it blocks exactly while no role is active, so an idle autoclicker
/// burns no CPU, and otherwise polls without blocking so the cadence never
/// stalls.
pub fn should_block(s: ToggleStates) -> (r: bool)
    ensures
        r == !s.spec_any_active(),
{
    !s.any_active()
}

/// Whether a newly received snapshot differs from the one the loop already
/// holds; only then does the loop beep and reprint the active-roles line.
pub fn state_changed(old_state: ToggleStates, new_state: ToggleStates) -> (r: bool)
    ensures
        r == (old_state != new_state),
{
    old_state != new_state
}

/// The two-event frame realizing one press or release step: the key event
/// followed by a synchronize report, as the device layer must write them.
pub open spec fn spec_key_frame(code: u16, pressed: bool) -> Seq<RawEvent> {
    seq![
        RawEvent {
            ev_type: EV_KEY,
            code,
            value: if pressed {
                1
            } else {
                0
            },
        },
        RawEvent { ev_type: EV_SYN, code: 0, value: 0 },
    ]
}

/// Build the two-event frame realizing one press or release step on the
/// virtual device. Timestamps are the device layer's to fill in.
pub fn key_frame(code: u16, pressed: bool) -> (r: Vec<RawEvent>)
    ensures
        r@ == spec_key_frame(code, pressed),
{
    let mut r: Vec<RawEvent> = Vec::new();
    r.push(RawEvent { ev_type: EV_KEY, code, value: if pressed { 1 } else { 0 } });
    r.push(RawEvent { ev_type: EV_SYN, code: 0, value: 0 });
    proof {
        assert(r@ =~= spec_key_frame(code, pressed));
    }
    r
}

/// The names of the active click roles, comma-separated, left to right.
pub open spec fn spec_role_names(s: ToggleStates) -> Seq<char> {
    match (s.left, s.middle, s.right) {
        (false, false, false) => Seq::empty(),
        (true, false, false) => "left"@,
        (false, true, false) => "middle"@,
        (false, false, true) => "right"@,
        (true, true, false) => "left"@ + ", "@ + "middle"@,
        (true, false, true) => "left"@ + ", "@ + "right"@,
        (false, true, true) => "middle"@ + ", "@ + "right"@,
        (true, true, true) => "left"@ + ", "@ + "middle"@ + ", "@ + "right"@,
    }
}

/// The human-readable active-roles line the emission loop reprints on each
/// state change.
pub open spec fn spec_active_line(s: ToggleStates) -> Seq<char> {
    "Active: "@ + spec_role_names(s)
}

/// Render the active-roles line for a state snapshot: the names of the
/// active click roles after "Active: ", separated by commas. The caller
/// prints it; any terminal control sequences around it are the caller's.
pub fn active_line(s: ToggleStates) -> (r: String)
    ensures
        r@ == spec_active_line(s),
{
    let mut out = String::from_str("Active: ");
    let mut any = false;
    if s.left {
        out.append("left");
        any = true;
    }
    if s.middle {
        if any {
            out.append(", ");
        }
        out.append("middle");
        any = true;
    }
    if s.right {
        if any {
            out.append(", ");
        }
        out.append("right");
    }
    proof {
        assert(out@ =~= spec_active_line(s));
    }
    out
}

/// How many steps of the plan equal the given action.
pub open spec fn spec_count_action(s: Seq<Action>, a: Action) -> nat
    decreases s.len(),
{
    if s.len() == 0 {
        0
    } else {
        spec_count_action(s.drop_last(), a) + if s.last() == a {
            1nat
        } else {
            0nat
        }
    }
}

/// The milliseconds one step sleeps; press and release steps sleep nothing.
pub open spec fn spec_sleep_ms(a: Action) -> int {
    match a {
        Action::Sleep(ms) => ms as int,
        _ => 0,
    }
}

/// The total milliseconds a plan spends sleeping.
pub open spec fn spec_sleep_total(s: Seq<Action>) -> int
    decreases s.len(),
{
    if s.len() == 0 {
        0
    } else {
        spec_sleep_total(s.drop_last()) + spec_sleep_ms(s.last())
    }
}

proof fn lemma_count_action_add(s1: Seq<Action>, s2: Seq<Action>, a: Action)
    ensures
        spec_count_action(s1 + s2, a) == spec_count_action(s1, a) + spec_count_action(s2, a),
    decreases s2.len(),
{
    if s2.len() == 0 {
        assert(s1 + s2 =~= s1);
    } else {
        lemma_count_action_add(s1, s2.drop_last(), a);
        assert((s1 + s2).drop_last() =~= s1 + s2.drop_last());
    }
}

proof fn lemma_sleep_total_add(s1: Seq<Action>, s2: Seq<Action>)
    ensures
        spec_sleep_total(s1 + s2) == spec_sleep_total(s1) + spec_sleep_total(s2),
    decreases s2.len(),
{
    if s2.len() == 0 {
        assert(s1 + s2 =~= s1);
    } else {
        lemma_sleep_total_add(s1, s2.drop_last());
        assert((s1 + s2).drop_last() =~= s1 + s2.drop_last());
    }
}

proof fn lemma_count_singleton(x: Action, a: Action)
    ensures
        spec_count_action(seq![x], a) == if x == a {
            1nat
        } else {
            0nat
        },
{
    assert(seq![x].drop_last() =~= Seq::<Action>::empty());
    assert(spec_count_action(Seq::<Action>::empty(), a) == 0);
}

proof fn lemma_sleep_total_singleton(x: Action)
    ensures
        spec_sleep_total(seq![x]) == spec_sleep_ms(x),
{
    assert(seq![x].drop_last() =~= Seq::<Action>::empty());
    assert(spec_sleep_total(Seq::<Action>::empty()) == 0);
}

proof fn lemma_count_role_actions(active: bool, x: Action, a: Action)
    ensures
        spec_count_action(spec_role_actions(active, x), a) == if active && x == a {
            1nat
        } else {
            0nat
        },
{
    if active {
        lemma_count_singleton(x, a);
    }
}

proof fn lemma_sleep_total_role_actions(active: bool, x: Action)
    ensures
        spec_sleep_total(spec_role_actions(active, x)) == if active {
            spec_sleep_ms(x)
        } else {
            0
        },
{
    if active {
        lemma_sleep_total_singleton(x);
    }
}

/// Every count over one cycle splits into the counts over its eight parts.
proof fn lemma_cycle_count_decomposes(s: ToggleStates, cooldown: u64, cooldown_pr: u64, a: Action)
    ensures
        spec_count_action(spec_cycle(s, cooldown, cooldown_pr), a) == spec_count_action(
            spec_role_actions(s.left, Action::Press(BTN_LEFT)),
            a,
        ) + spec_count_action(spec_role_actions(s.middle, Action::Press(BTN_MIDDLE)), a)
            + spec_count_action(spec_role_actions(s.right, Action::Press(BTN_RIGHT)), a)
            + spec_count_action(
            if cooldown_pr > 0 {
                seq![Action::Sleep(cooldown_pr)]
            } else {
                Seq::<Action>::empty()
            },
            a,
        ) + spec_count_action(spec_role_actions(s.left, Action::Release(BTN_LEFT)), a)
            + spec_count_action(spec_role_actions(s.middle, Action::Release(BTN_MIDDLE)), a)
            + spec_count_action(spec_role_actions(s.right, Action::Release(BTN_RIGHT)), a)
            + spec_count_action(seq![Action::Sleep(cooldown)], a),
{
    let mid = if cooldown_pr > 0 {
        seq![Action::Sleep(cooldown_pr)]
    } else {
        Seq::<Action>::empty()
    };
    lemma_count_action_add(
        spec_presses(s) + mid + spec_releases(s),
        seq![Action::Sleep(cooldown)],
        a,
    );
    lemma_count_action_add(spec_presses(s) + mid, spec_releases(s), a);
    lemma_count_action_add(spec_presses(s), mid, a);
    lemma_count_action_add(
        spec_role_actions(s.left, Action::Press(BTN_LEFT)) + spec_role_actions(
            s.middle,
            Action::Press(BTN_MIDDLE),
        ),
        spec_role_actions(s.right, Action::Press(BTN_RIGHT)),
        a,
    );
    lemma_count_action_add(
        spec_role_actions(s.left, Action::Press(BTN_LEFT)),
        spec_role_actions(s.middle, Action::Press(BTN_MIDDLE)),
        a,
    );
    lemma_count_action_add(
        spec_role_actions(s.left, Action::Release(BTN_LEFT)) + spec_role_actions(
            s.middle,
            Action::Release(BTN_MIDDLE),
        ),
        spec_role_actions(s.right, Action::Release(BTN_RIGHT)),
        a,
    );
    lemma_count_action_add(
        spec_role_actions(s.left, Action::Release(BTN_LEFT)),
        spec_role_actions(s.middle, Action::Release(BTN_MIDDLE)),
        a,
    );
}

/// One emission cycle emits exactly one press step and one release step per
/// active role, none for an inactive role, and sleeps for exactly
/// `cooldown + cooldown_pr` milliseconds in total, so the duration of a
/// cycle is at least `cooldown + cooldown_pr`.
pub proof fn lemma_cycle_emits_once_per_role(s: ToggleStates, cooldown: u64, cooldown_pr: u64)
    ensures
        spec_count_action(spec_cycle(s, cooldown, cooldown_pr), Action::Press(BTN_LEFT)) == if s.left {
            1nat
        } else {
            0nat
        },
        spec_count_action(spec_cycle(s, cooldown, cooldown_pr), Action::Release(BTN_LEFT)) == if s.left {
            1nat
        } else {
            0nat
        },
        spec_count_action(spec_cycle(s, cooldown, cooldown_pr), Action::Press(BTN_MIDDLE)) == if s.middle {
            1nat
        } else {
            0nat
        },
        spec_count_action(spec_cycle(s, cooldown, cooldown_pr), Action::Release(BTN_MIDDLE)) == if s.middle {
            1nat
        } else {
            0nat
        },
        spec_count_action(spec_cycle(s, cooldown, cooldown_pr), Action::Press(BTN_RIGHT)) == if s.right {
            1nat
        } else {
            0nat
        },
        spec_count_action(spec_cycle(s, cooldown, cooldown_pr), Action::Release(BTN_RIGHT)) == if s.right {
            1nat
        } else {
            0nat
        },
        spec_sleep_total(spec_cycle(s, cooldown, cooldown_pr)) == cooldown + cooldown_pr,
{
    let mid = if cooldown_pr > 0 {
        seq![Action::Sleep(cooldown_pr)]
    } else {
        Seq::<Action>::empty()
    };
    let actions = seq![
        Action::Press(BTN_LEFT),
        Action::Release(BTN_LEFT),
        Action::Press(BTN_MIDDLE),
        Action::Release(BTN_MIDDLE),
        Action::Press(BTN_RIGHT),
        Action::Release(BTN_RIGHT),
    ];
    assert forall|k: int| 0 <= k < actions.len() implies spec_count_action(
        spec_cycle(s, cooldown, cooldown_pr),
        actions[k],
    ) == spec_count_action(spec_role_actions(s.left, Action::Press(BTN_LEFT)), actions[k])
        + spec_count_action(spec_role_actions(s.middle, Action::Press(BTN_MIDDLE)), actions[k])
        + spec_count_action(spec_role_actions(s.right, Action::Press(BTN_RIGHT)), actions[k])
        + spec_count_action(mid, actions[k]) + spec_count_action(
        spec_role_actions(s.left, Action::Release(BTN_LEFT)),
        actions[k],
    ) + spec_count_action(spec_role_actions(s.middle, Action::Release(BTN_MIDDLE)), actions[k])
        + spec_count_action(spec_role_actions(s.right, Action::Release(BTN_RIGHT)), actions[k])
        + spec_count_action(seq![Action::Sleep(cooldown)], actions[k]) by {
        lemma_cycle_count_decomposes(s, cooldown, cooldown_pr, actions[k]);
    }
    assert forall|k: int| 0 <= k < actions.len() implies {
        &&& spec_count_action(spec_role_actions(s.left, Action::Press(BTN_LEFT)), actions[k])
            == (if s.left && Action::Press(BTN_LEFT) == actions[k] {
            1nat
        } else {
            0nat
        })
        &&& spec_count_action(spec_role_actions(s.middle, Action::Press(BTN_MIDDLE)), actions[k])
            == (if s.middle && Action::Press(BTN_MIDDLE) == actions[k] {
            1nat
        } else {
            0nat
        })
        &&& spec_count_action(spec_role_actions(s.right, Action::Press(BTN_RIGHT)), actions[k])
            == (if s.right && Action::Press(BTN_RIGHT) == actions[k] {
            1nat
        } else {
            0nat
        })
        &&& spec_count_action(spec_role_actions(s.left, Action::Release(BTN_LEFT)), actions[k])
            == (if s.left && Action::Release(BTN_LEFT) == actions[k] {
            1nat
        } else {
            0nat
        })
        &&& spec_count_action(spec_role_actions(s.middle, Action::Release(BTN_MIDDLE)), actions[k])
            == (if s.middle && Action::Release(BTN_MIDDLE) == actions[k] {
            1nat
        } else {
            0nat
        })
        &&& spec_count_action(spec_role_actions(s.right, Action::Release(BTN_RIGHT)), actions[k])
            == (if s.right && Action::Release(BTN_RIGHT) == actions[k] {
            1nat
        } else {
            0nat
        })
        &&& spec_count_action(mid, actions[k]) == 0
        &&& spec_count_action(seq![Action::Sleep(cooldown)], actions[k]) == 0
    } by {
        lemma_count_role_actions(s.left, Action::Press(BTN_LEFT), actions[k]);
        lemma_count_role_actions(s.middle, Action::Press(BTN_MIDDLE), actions[k]);
        lemma_count_role_actions(s.right, Action::Press(BTN_RIGHT), actions[k]);
        lemma_count_role_actions(s.left, Action::Release(BTN_LEFT), actions[k]);
        lemma_count_role_actions(s.middle, Action::Release(BTN_MIDDLE), actions[k]);
        lemma_count_role_actions(s.right, Action::Release(BTN_RIGHT), actions[k]);
        if cooldown_pr > 0 {
            lemma_count_singleton(Action::Sleep(cooldown_pr), actions[k]);
        }
        lemma_count_singleton(Action::Sleep(cooldown), actions[k]);
    }
    lemma_sleep_total_add(spec_presses(s) + mid + spec_releases(s), seq![Action::Sleep(cooldown)]);
    lemma_sleep_total_add(spec_presses(s) + mid, spec_releases(s));
    lemma_sleep_total_add(spec_presses(s), mid);
    lemma_sleep_total_add(
        spec_role_actions(s.left, Action::Press(BTN_LEFT)) + spec_role_actions(
            s.middle,
            Action::Press(BTN_MIDDLE),
        ),
        spec_role_actions(s.right, Action::Press(BTN_RIGHT)),
    );
    lemma_sleep_total_add(
        spec_role_actions(s.left, Action::Press(BTN_LEFT)),
        spec_role_actions(s.middle, Action::Press(BTN_MIDDLE)),
    );
    lemma_sleep_total_add(
        spec_role_actions(s.left, Action::Release(BTN_LEFT)) + spec_role_actions(
            s.middle,
            Action::Release(BTN_MIDDLE),
        ),
        spec_role_actions(s.right, Action::Release(BTN_RIGHT)),
    );
    lemma_sleep_total_add(
        spec_role_actions(s.left, Action::Release(BTN_LEFT)),
        spec_role_actions(s.middle, Action::Release(BTN_MIDDLE)),
    );
    lemma_sleep_total_role_actions(s.left, Action::Press(BTN_LEFT));
    lemma_sleep_total_role_actions(s.middle, Action::Press(BTN_MIDDLE));
    lemma_sleep_total_role_actions(s.right, Action::Press(BTN_RIGHT));
    lemma_sleep_total_role_actions(s.left, Action::Release(BTN_LEFT));
    lemma_sleep_total_role_actions(s.middle, Action::Release(BTN_MIDDLE));
    lemma_sleep_total_role_actions(s.right, Action::Release(BTN_RIGHT));
    if cooldown_pr > 0 {
        lemma_sleep_total_singleton(Action::Sleep(cooldown_pr));
    }
    lemma_sleep_total_singleton(Action::Sleep(cooldown));
}

/// With `cooldown_pr == 0` a release immediately follows its press: the
/// only sleep step of the cycle is the final inter-cycle sleep, so nothing
/// intervenes between the press steps and the release steps.
pub proof fn lemma_zero_press_release_gap(s: ToggleStates, cooldown: u64)
    ensures
        spec_cycle(s, cooldown, 0).len() > 0,
        spec_cycle(s, cooldown, 0).last() == Action::Sleep(cooldown),
        forall|i: int|
            0 <= i < spec_cycle(s, cooldown, 0).len() - 1 ==> !(spec_cycle(s, cooldown, 0)[i]
                is Sleep),
{
    let c = spec_cycle(s, cooldown, 0);
    let body = spec_presses(s) + Seq::<Action>::empty() + spec_releases(s);
    assert(c == body + seq![Action::Sleep(cooldown)]);
    assert(c.last() == Action::Sleep(cooldown));
    assert forall|i: int| 0 <= i < c.len() - 1 implies !(c[i] is Sleep) by {
        assert(c[i] == body[i]);
    }
}

} // verus!
