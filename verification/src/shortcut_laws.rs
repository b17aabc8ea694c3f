//! Laws of the shortcut detector, stated over its state model.

use crate::shortcuts::{
    codes_of, count_ends, count_starts, DetectorState, KeyEvent, ShortcutEvent, ShortcutKind,
    ShortcutPhase,
};
use vstd::prelude::*;

verus! {

/// An active combination has all its keys held.
pub open spec fn consistent(s: DetectorState) -> bool {
    s.active ==> s.target.subset_of(s.pressed)
}

/// Key events keep the detector consistent and never touch the shortcut, its
/// kind, the monitored devices or the timing parameters.
pub proof fn law_key_event_preserves_consistency(
    s: DetectorState,
    code: u16,
    value: i32,
    now: u64,
)
    requires
        consistent(s),
    ensures
        consistent(s.key_event(code, value, now).0),
        s.key_event(code, value, now).0 == (DetectorState {
            pressed: s.key_event(code, value, now).0.pressed,
            active: s.key_event(code, value, now).0.active,
            last_trigger: s.key_event(code, value, now).0.last_trigger,
            ..s
        }),
{
}

/// A press shortcut only ever emits `Start`; an `End` comes from a hold
/// shortcut whose combination was active, and a `Start` from a combination
/// that was not. Every event carries the detector's kind and the time of the
/// key event.
pub proof fn law_event_phases(s: DetectorState, code: u16, value: i32, now: u64)
    ensures
        match s.key_event(code, value, now).1 {
            Some(event) => {
                &&& event.kind == s.kind
                &&& event.triggered_at == now
                &&& s.kind == ShortcutKind::Press ==> event.phase == ShortcutPhase::Start
                &&& event.phase == ShortcutPhase::End ==> s.active && value == 0
                    && !s.key_event(code, value, now).0.active
                &&& event.phase == ShortcutPhase::Start ==> !s.active && value == 1
                    && s.key_event(code, value, now).0.active
            },
            None => true,
        },
{
}

/// Keys pressed one after another, in any order and with none released,
/// yield exactly one `Start` once they cover the target set, and no event
/// before that.
pub proof fn law_presses_in_any_order_start_once(s: DetectorState, events: Seq<KeyEvent>)
    requires
        s.pressed == Set::<u16>::empty(),
        !s.active,
        s.target != Set::<u16>::empty(),
        s.kind == ShortcutKind::Hold || s.last_trigger is None,
        forall|i: int| 0 <= i < events.len() ==> (#[trigger] events[i]).value == 1,
    ensures
        s.replay(events).0.pressed == codes_of(events),
        s.replay(events).0.active == s.target.subset_of(codes_of(events)),
        s.replay(events).1.len() == if s.target.subset_of(codes_of(events)) {
            1nat
        } else {
            0nat
        },
        count_starts(s.replay(events).1) == s.replay(events).1.len(),
        count_ends(s.replay(events).1) == 0,
    decreases events.len(),
{
    lemma_presses_only(s, events);
}

proof fn lemma_presses_only(s: DetectorState, events: Seq<KeyEvent>)
    requires
        s.pressed == Set::<u16>::empty(),
        !s.active,
        s.target != Set::<u16>::empty(),
        s.kind == ShortcutKind::Hold || s.last_trigger is None,
        forall|i: int| 0 <= i < events.len() ==> (#[trigger] events[i]).value == 1,
    ensures
        s.replay(events).0.pressed == codes_of(events),
        s.replay(events).0.active == s.target.subset_of(codes_of(events)),
        s.replay(events).0.target == s.target,
        s.replay(events).0.kind == s.kind,
        !s.replay(events).0.active ==> s.replay(events).0.last_trigger == s.last_trigger,
        s.replay(events).1.len() == if s.target.subset_of(codes_of(events)) {
            1nat
        } else {
            0nat
        },
        count_starts(s.replay(events).1) == s.replay(events).1.len(),
        count_ends(s.replay(events).1) == 0,
    decreases events.len(),
{
    if events.len() == 0 {
        if s.target.subset_of(Set::<u16>::empty()) {
            assert(s.target =~= Set::<u16>::empty());
        }
    } else {
        let prefix = events.drop_last();
        let last = events.last();
        assert forall|i: int| 0 <= i < prefix.len() implies (#[trigger] prefix[i]).value == 1 by {
            assert(prefix[i] == events[i]);
        }
        lemma_presses_only(s, prefix);
        let (before, emitted) = s.replay(prefix);
        let (after, event) = before.key_down(last.code, last.at);
        assert(last.value == 1);
        assert(before.key_event(last.code, last.value, last.at) == before.key_down(
            last.code,
            last.at,
        ));
        assert(after.pressed == codes_of(events));
        if before.active {
            assert(s.target.subset_of(codes_of(events)));
            assert(event is None);
        } else if s.target.subset_of(codes_of(events)) {
            assert(before.debounce_allows(last.at));
            assert(event is Some);
            assert(emitted.push(event->0).drop_last() =~= emitted);
        } else {
            assert(event is None);
        }
    }
}

/// While a press shortcut is within its debounce time of the last `Start`,
/// no run of key events starts it again.
pub proof fn law_press_debounce(s: DetectorState, last: u64, events: Seq<KeyEvent>)
    requires
        s.kind == ShortcutKind::Press,
        s.last_trigger == Some(last),
        forall|i: int| 0 <= i < events.len() ==> (#[trigger] events[i]).at - last <= s.debounce,
    ensures
        s.replay(events).1 == Seq::<ShortcutEvent>::empty(),
        s.replay(events).0.last_trigger == Some(last),
        s.replay(events).0.kind == ShortcutKind::Press,
        s.replay(events).0.debounce == s.debounce,
    decreases events.len(),
{
    if events.len() > 0 {
        let prefix = events.drop_last();
        assert forall|i: int| 0 <= i < prefix.len() implies (#[trigger] prefix[i]).at - last
            <= s.debounce by {
            assert(prefix[i] == events[i]);
        }
        law_press_debounce(s, last, prefix);
        assert(events.last() == events[events.len() - 1]);
    }
}

/// Of two presses of a press shortcut within the debounce time of each other,
/// only the first produces a `Start`: whatever keys move in between, the
/// second press is swallowed.
pub proof fn law_second_press_is_debounced(
    s: DetectorState,
    code: u16,
    first: u64,
    between: Seq<KeyEvent>,
    again: u16,
    second: u64,
)
    requires
        s.kind == ShortcutKind::Press,
        s.key_down(code, first).1 is Some,
        second - first <= s.debounce,
        forall|i: int| 0 <= i < between.len() ==> (#[trigger] between[i]).at - first <= s.debounce,
    ensures
        s.key_down(code, first).0.replay(between).1 == Seq::<ShortcutEvent>::empty(),
        s.key_down(code, first).0.replay(between).0.key_down(again, second).1 is None,
{
    let started = s.key_down(code, first).0;
    law_press_debounce(started, first, between);
}

/// While a hold shortcut is active, releasing a key outside the target set
/// produces no event and leaves it active; releasing a key of the target set
/// produces exactly one `End`, and no release after that produces another.
pub proof fn law_hold_release(s: DetectorState, code: u16, now: u64, next: u16, later: u64)
    requires
        s.kind == ShortcutKind::Hold,
        s.active,
        s.target.subset_of(s.pressed),
    ensures
        !s.target.contains(code) ==> s.key_up(code, now).1 is None && s.key_up(code, now).0.active,
        s.target.contains(code) ==> s.key_up(code, now).1 == Some(
            ShortcutEvent { triggered_at: now, kind: ShortcutKind::Hold, phase: ShortcutPhase::End },
        ) && !s.key_up(code, now).0.active && s.key_up(code, now).0.key_up(next, later).1 is None,
{
    if !s.target.contains(code) {
        assert(s.target.subset_of(s.pressed.remove(code)));
    } else {
        assert(!s.pressed.remove(code).contains(code));
    }
}

} // verus!
