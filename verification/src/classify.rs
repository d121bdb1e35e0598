//! The event classifier: converts one raw event into a state transition and
//! a consumed/pass-through decision, and its lift to whole event batches.

use vstd::prelude::*;

use crate::state::Binding;
use crate::state::Mode;
use crate::state::RawEvent;
use crate::state::ToggleStates;
use crate::state::spec_pressed;

verus! {

/// The next value of one click role. A role reacts only while the state is
/// not locked and the event code equals the role's bound code: in hold mode
/// it follows the press level, in toggle mode it flips on a press edge and
/// ignores releases.
pub open spec fn spec_role_step(
    lock: bool,
    cur: bool,
    bind: Option<u16>,
    mode: Mode,
    e: RawEvent,
) -> bool {
    if !lock && bind == Some(e.code) {
        match mode {
            Mode::Hold => spec_pressed(e.value),
            Mode::Toggle => if spec_pressed(e.value) {
                !cur
            } else {
                cur
            },
        }
    } else {
        cur
    }
}

/// The state after one raw event: each click role steps as above, and the
/// lock flag flips on a press edge of the lock binding. The lock binding is
/// exempt from the lock freeze, so a single physical control can serve as
/// both a role and the lock source.
pub open spec fn spec_step(s: ToggleStates, b: Binding, mode: Mode, e: RawEvent) -> ToggleStates {
    ToggleStates {
        left: spec_role_step(s.lock, s.left, b.left, mode, e),
        middle: spec_role_step(s.lock, s.middle, b.middle, mode, e),
        right: spec_role_step(s.lock, s.right, b.right, mode, e),
        lock: if b.lock_unlock == Some(e.code) && spec_pressed(e.value) {
            !s.lock
        } else {
            s.lock
        },
    }
}

/// Whether the event matched a binding and is therefore consumed rather
/// than passed through. A click role consumes every event with its code
/// (press or release) while not locked; the lock binding consumes its press
/// edges only.
pub open spec fn spec_consumed(s: ToggleStates, b: Binding, e: RawEvent) -> bool {
    (!s.lock && b.spec_matches_role(e.code)) || (b.lock_unlock == Some(e.code) && spec_pressed(
        e.value,
    ))
}

/// Whether an optional bound code equals the given event code.
fn bind_matches(bind: &Option<u16>, code: u16) -> (r: bool)
    ensures
        r == (*bind == Some(code)),
{
    match bind {
        Some(c) => *c == code,
        None => false,
    }
}

/// One step of the event classifier.
///
/// Returns the new state snapshot and whether the event was consumed by a
/// binding. While `lock` is set, no click role changes value, whatever the
/// event; only the lock binding itself may flip `lock`.
pub fn classify(state: ToggleStates, binding: &Binding, mode: Mode, event: RawEvent) -> (r: (
    ToggleStates,
    bool,
))
    ensures
        r.0 == spec_step(state, *binding, mode, event),
        r.1 == spec_consumed(state, *binding, event),
        state.lock ==> r.0.left == state.left && r.0.middle == state.middle && r.0.right
            == state.right,
{
    let pressed = event.pressed();
    let mut next = state;
    let mut used = false;

    if !state.lock {
        if bind_matches(&binding.left, event.code) {
            next.left = role_value(mode, pressed, state.left);
            used = true;
        }
        if bind_matches(&binding.middle, event.code) {
            next.middle = role_value(mode, pressed, state.middle);
            used = true;
        }
        if bind_matches(&binding.right, event.code) {
            next.right = role_value(mode, pressed, state.right);
            used = true;
        }
    }
    if bind_matches(&binding.lock_unlock, event.code) && pressed {
        next.lock = !state.lock;
        used = true;
    }
    (next, used)
}

/// The new value of a matched click role, per mode.
fn role_value(mode: Mode, pressed: bool, cur: bool) -> (r: bool)
    ensures
        mode is Hold ==> r == pressed,
        mode is Toggle ==> r == (if pressed {
            !cur
        } else {
            cur
        }),
{
    match mode {
        Mode::Hold => pressed,
        Mode::Toggle => if pressed {
            !cur
        } else {
            cur
        },
    }
}

/// The state after a whole batch of raw events, applied in order.
pub open spec fn spec_run(s: ToggleStates, b: Binding, mode: Mode, events: Seq<RawEvent>) -> ToggleStates
    decreases events.len(),
{
    if events.len() == 0 {
        s
    } else {
        spec_step(spec_run(s, b, mode, events.drop_last()), b, mode, events.last())
    }
}

/// The events a grabbing classifier passes through to the output sink while
/// it processes a batch: exactly the unconsumed ones, in their original
/// order and unchanged. Without a grab nothing is forwarded.
pub open spec fn spec_forwarded(
    s: ToggleStates,
    b: Binding,
    mode: Mode,
    grab: bool,
    events: Seq<RawEvent>,
) -> Seq<RawEvent>
    decreases events.len(),
{
    if events.len() == 0 {
        Seq::empty()
    } else {
        let prefix = events.drop_last();
        let before = spec_run(s, b, mode, prefix);
        spec_forwarded(s, b, mode, grab, prefix) + if grab && !spec_consumed(
            before,
            b,
            events.last(),
        ) {
            seq![events.last()]
        } else {
            Seq::empty()
        }
    }
}

/// The snapshots the classifier sends on the state channel while it
/// processes a batch: one per event whose step changed the state, and none
/// otherwise, so channel traffic is bounded by actual state changes.
pub open spec fn spec_snapshots(
    s: ToggleStates,
    b: Binding,
    mode: Mode,
    events: Seq<RawEvent>,
) -> Seq<ToggleStates>
    decreases events.len(),
{
    if events.len() == 0 {
        Seq::empty()
    } else {
        let prefix = events.drop_last();
        let before = spec_run(s, b, mode, prefix);
        let after = spec_step(before, b, mode, events.last());
        spec_snapshots(s, b, mode, prefix) + if after != before {
            seq![after]
        } else {
            Seq::empty()
        }
    }
}

/// One pass of the classifier thread's body over a batch of raw events, as
/// one call of `read` hands them over.
///
/// Returns the state after the batch, the snapshots to send on the state
/// channel (one per state change, in order), and the events to forward
/// verbatim to the output sink (the unconsumed ones, in order, and only
/// when the device is grabbed).
pub fn process_events(
    state: ToggleStates,
    binding: &Binding,
    mode: Mode,
    grab: bool,
    events: &Vec<RawEvent>,
) -> (r: (ToggleStates, Vec<ToggleStates>, Vec<RawEvent>))
    ensures
        r.0 == spec_run(state, *binding, mode, events@),
        r.1@ == spec_snapshots(state, *binding, mode, events@),
        r.2@ == spec_forwarded(state, *binding, mode, grab, events@),
{
    let mut cur = state;
    let mut snapshots: Vec<ToggleStates> = Vec::new();
    let mut forwarded: Vec<RawEvent> = Vec::new();
    let n: usize = events.len();
    let mut i: usize = 0;
    while i < n
        invariant
            n == events@.len(),
            i <= n,
            cur == spec_run(state, *binding, mode, events@.take(i as int)),
            snapshots@ == spec_snapshots(state, *binding, mode, events@.take(i as int)),
            forwarded@ == spec_forwarded(state, *binding, mode, grab, events@.take(i as int)),
        decreases n - i,
    {
        let event = events[i];
        proof {
            assert(events@.take(i + 1).drop_last() =~= events@.take(i as int));
            assert(events@.take(i + 1).last() == event);
        }
        let (next, used) = classify(cur, binding, mode, event);
        if next != cur {
            snapshots.push(next);
        }
        if grab && !used {
            forwarded.push(event);
        }
        cur = next;
        i = i + 1;
    }
    proof {
        assert(events@.take(n as int) =~= events@);
    }
    (cur, snapshots, forwarded)
}

/// Classifying one batch after another is classifying their concatenation:
/// the state the classifier reaches does not depend on how the event
/// stream is chopped into `read` batches.
pub proof fn lemma_run_append(
    s: ToggleStates,
    b: Binding,
    mode: Mode,
    e1: Seq<RawEvent>,
    e2: Seq<RawEvent>,
)
    ensures
        spec_run(s, b, mode, e1 + e2) == spec_run(spec_run(s, b, mode, e1), b, mode, e2),
    decreases e2.len(),
{
    if e2.len() == 0 {
        assert(e1 + e2 =~= e1);
    } else {
        lemma_run_append(s, b, mode, e1, e2.drop_last());
        assert((e1 + e2).drop_last() =~= e1 + e2.drop_last());
    }
}

/// The pass-through relay is faithful to the stream, not to the batches:
/// what two consecutive batches forward is what their concatenation
/// forwards, in the same order.
pub proof fn lemma_forwarded_append(
    s: ToggleStates,
    b: Binding,
    mode: Mode,
    grab: bool,
    e1: Seq<RawEvent>,
    e2: Seq<RawEvent>,
)
    ensures
        spec_forwarded(s, b, mode, grab, e1 + e2) == spec_forwarded(s, b, mode, grab, e1)
            + spec_forwarded(spec_run(s, b, mode, e1), b, mode, grab, e2),
    decreases e2.len(),
{
    if e2.len() == 0 {
        assert(e1 + e2 =~= e1);
        assert(spec_forwarded(s, b, mode, grab, e1 + e2) =~= spec_forwarded(s, b, mode, grab, e1)
            + spec_forwarded(spec_run(s, b, mode, e1), b, mode, grab, e2));
    } else {
        lemma_forwarded_append(s, b, mode, grab, e1, e2.drop_last());
        lemma_run_append(s, b, mode, e1, e2.drop_last());
        assert((e1 + e2).drop_last() =~= e1 + e2.drop_last());
        assert(spec_forwarded(s, b, mode, grab, e1 + e2) =~= spec_forwarded(s, b, mode, grab, e1)
            + spec_forwarded(spec_run(s, b, mode, e1), b, mode, grab, e2));
    }
}

/// The state channel sees the stream, not the batches: the snapshots two
/// consecutive batches send are the snapshots their concatenation sends,
/// in the same order.
pub proof fn lemma_snapshots_append(
    s: ToggleStates,
    b: Binding,
    mode: Mode,
    e1: Seq<RawEvent>,
    e2: Seq<RawEvent>,
)
    ensures
        spec_snapshots(s, b, mode, e1 + e2) == spec_snapshots(s, b, mode, e1) + spec_snapshots(
            spec_run(s, b, mode, e1),
            b,
            mode,
            e2,
        ),
    decreases e2.len(),
{
    if e2.len() == 0 {
        assert(e1 + e2 =~= e1);
        assert(spec_snapshots(s, b, mode, e1 + e2) =~= spec_snapshots(s, b, mode, e1)
            + spec_snapshots(spec_run(s, b, mode, e1), b, mode, e2));
    } else {
        lemma_snapshots_append(s, b, mode, e1, e2.drop_last());
        lemma_run_append(s, b, mode, e1, e2.drop_last());
        assert((e1 + e2).drop_last() =~= e1 + e2.drop_last());
        assert(spec_snapshots(s, b, mode, e1 + e2) =~= spec_snapshots(s, b, mode, e1)
            + spec_snapshots(spec_run(s, b, mode, e1), b, mode, e2));
    }
}

/// How many events in the batch are press edges of the given bound code.
pub open spec fn spec_press_count(bind: Option<u16>, events: Seq<RawEvent>) -> nat
    decreases events.len(),
{
    if events.len() == 0 {
        0
    } else {
        spec_press_count(bind, events.drop_last()) + if bind == Some(events.last().code)
            && spec_pressed(events.last().value) {
            1nat
        } else {
            0nat
        }
    }
}

/// While `lock` is set, no click role changes value, for any input event;
/// only the lock flag itself may flip, and only through the lock binding.
pub proof fn lemma_lock_freezes_roles(s: ToggleStates, b: Binding, mode: Mode, e: RawEvent)
    requires
        s.lock,
    ensures
        spec_step(s, b, mode, e).left == s.left,
        spec_step(s, b, mode, e).middle == s.middle,
        spec_step(s, b, mode, e).right == s.right,
        spec_step(s, b, mode, e).lock != s.lock ==> b.lock_unlock == Some(e.code) && spec_pressed(
            e.value,
        ),
{
}

/// Without a lock binding the lock flag never moves, over any batch.
pub proof fn lemma_lock_constant(s: ToggleStates, b: Binding, mode: Mode, events: Seq<RawEvent>)
    requires
        b.lock_unlock is None,
    ensures
        spec_run(s, b, mode, events).lock == s.lock,
    decreases events.len(),
{
    if events.len() > 0 {
        lemma_lock_constant(s, b, mode, events.drop_last());
    }
}

/// In toggle mode a role's boolean flips exactly once per press edge of its
/// bound code and is unaffected by releases: after any event sequence it
/// equals its initial value exactly when the number of press edges for that
/// role is even.
pub proof fn lemma_toggle_press_parity(s: ToggleStates, b: Binding, events: Seq<RawEvent>)
    requires
        !s.lock,
        b.lock_unlock is None,
    ensures
        spec_run(s, b, Mode::Toggle, events).left == (s.left != (spec_press_count(b.left, events)
            % 2 == 1)),
        spec_run(s, b, Mode::Toggle, events).middle == (s.middle != (spec_press_count(
            b.middle,
            events,
        ) % 2 == 1)),
        spec_run(s, b, Mode::Toggle, events).right == (s.right != (spec_press_count(
            b.right,
            events,
        ) % 2 == 1)),
    decreases events.len(),
{
    if events.len() > 0 {
        lemma_toggle_press_parity(s, b, events.drop_last());
        lemma_lock_constant(s, b, Mode::Toggle, events.drop_last());
    }
}

/// In hold mode a role's boolean equals the press level of every observed
/// event for that role: right after the classifier has taken event `i`,
/// each role bound to that event's code reads exactly "pressed".
pub proof fn lemma_hold_tracks_level(s: ToggleStates, b: Binding, events: Seq<RawEvent>, i: int)
    requires
        !s.lock,
        b.lock_unlock is None,
        0 <= i < events.len(),
    ensures
        b.left == Some(events[i].code) ==> spec_run(s, b, Mode::Hold, events.take(i + 1)).left
            == spec_pressed(events[i].value),
        b.middle == Some(events[i].code) ==> spec_run(s, b, Mode::Hold, events.take(i + 1)).middle
            == spec_pressed(events[i].value),
        b.right == Some(events[i].code) ==> spec_run(s, b, Mode::Hold, events.take(i + 1)).right
            == spec_pressed(events[i].value),
{
    let prefix = events.take(i + 1).drop_last();
    lemma_lock_constant(s, b, Mode::Hold, prefix);
    assert(events.take(i + 1).last() == events[i]);
}

/// With the device grabbed, the pass-through relay forwards exactly the
/// events no binding consumed, unchanged and in their original relative
/// order. Stated for engines without a lock binding, where what is consumed
/// depends on the event alone: the forwarded sequence is the plain filter
/// of the batch by "matches no click role".
pub proof fn lemma_forwarded_unconsumed(
    s: ToggleStates,
    b: Binding,
    mode: Mode,
    events: Seq<RawEvent>,
)
    requires
        !s.lock,
        b.lock_unlock is None,
    ensures
        spec_forwarded(s, b, mode, true, events) == events.filter(
            |e: RawEvent| !b.spec_matches_role(e.code),
        ),
    decreases events.len(),
{
    reveal(Seq::filter);
    let pred = |e: RawEvent| !b.spec_matches_role(e.code);
    if events.len() == 0 {
        assert(spec_forwarded(s, b, mode, true, events) =~= events.filter(pred));
    } else {
        let prefix = events.drop_last();
        lemma_forwarded_unconsumed(s, b, mode, prefix);
        lemma_lock_constant(s, b, mode, prefix);
        assert(spec_forwarded(s, b, mode, true, events) =~= events.filter(pred));
    }
}

} // verus!
