//! What activating the HUD is good for.

use vstd::prelude::*;

use crate::smoketest::activation::{
    hud_visible, should_retry, Activation, ActivationAction, ActivationEvent, ActivationMetrics,
    ActivationOutcome, StreamEvent,
};

verus! {

/// The HUD was known to be visible no later than it was reported and no later than it
/// was seen; and it was known only by one of these.
pub proof fn visible_by_the_earlier_sign(outcome: ActivationOutcome, r: Option<u64>)
    requires
        call_ensures(ActivationOutcome::hud_visible_ms, (&outcome,), r),
    ensures
        r is None <==> outcome.hud_update_ms is None && outcome.frontmost_ms is None,
        outcome.hud_update_ms is Some ==> r is Some && r->Some_0 <= outcome.hud_update_ms->Some_0,
        outcome.frontmost_ms is Some ==> r is Some && r->Some_0 <= outcome.frontmost_ms->Some_0,
        r is Some ==> r == outcome.hud_update_ms || r == outcome.frontmost_ms,
{
}

/// The HUD is visible only where both its own word and a window say so.
pub proof fn visible_takes_word_and_window(said: Option<bool>, windows: usize, r: bool)
    requires
        call_ensures(hud_visible, (said, windows), r),
    ensures
        r ==> said is Some && said->Some_0 && windows >= 1,
        said is Some && said->Some_0 && windows >= 1 ==> r,
{
}

/// The chord is injected again no sooner than thirty milliseconds after the last time,
/// and at once where there was no last time.
pub proof fn chords_keep_their_distance(last: u64, now: u64, again: bool, first: bool)
    requires
        call_ensures(should_retry, (Some(last), now), again),
        call_ensures(should_retry, (None::<u64>, now), first),
    ensures
        again <==> now - last >= 30_000_000,
        first,
{
}

/// Every report is counted and only the first is timed; nothing else changes.
pub proof fn the_first_report_is_timed(m: ActivationMetrics, now: u64)
    ensures
        m.hud_updates_seen < u32::MAX ==> m.updated(now).hud_updates_seen == m.hud_updates_seen
            + 1,
        m.hud_update_at is None ==> m.updated(now).hud_update_at == Some(now),
        m.hud_update_at is Some ==> m.updated(now).hud_update_at == m.hud_update_at,
        m.updated(now).start == m.start,
        m.updated(now).frontmost_at == m.frontmost_at,
        m.updated(now).activation_attempts == m.activation_attempts,
        m.updated(now).focus_event_seen == m.focus_event_seen,
{
}

/// Only the first sight is timed; nothing else changes.
pub proof fn the_first_sight_is_timed(m: ActivationMetrics, now: u64)
    ensures
        m.frontmost_at is None ==> m.fronted(now).frontmost_at == Some(now),
        m.frontmost_at is Some ==> m.fronted(now).frontmost_at == m.frontmost_at,
        m.fronted(now).start == m.start,
        m.fronted(now).hud_update_at == m.hud_update_at,
        m.fronted(now).hud_updates_seen == m.hud_updates_seen,
        m.fronted(now).activation_attempts == m.activation_attempts,
        m.fronted(now).focus_event_seen == m.focus_event_seen,
{
}

/// Every injection is counted; nothing else changes.
pub proof fn injections_are_counted(m: ActivationMetrics)
    ensures
        m.activation_attempts < u32::MAX ==> m.activated().activation_attempts
            == m.activation_attempts + 1,
        m.activated().activation_attempts >= m.activation_attempts,
        m.activated().start == m.start,
        m.activated().hud_update_at == m.hud_update_at,
        m.activated().frontmost_at == m.frontmost_at,
        m.activated().hud_updates_seen == m.hud_updates_seen,
        m.activated().focus_event_seen == m.focus_event_seen,
{
}

/// What is told of an activation are the whole milliseconds since it began, and the
/// counts as they stood.
pub proof fn outcomes_tell_whole_milliseconds(m: ActivationMetrics, r: ActivationOutcome)
    requires
        call_ensures(ActivationMetrics::into_outcome, (m,), r),
    ensures
        r.hud_update_ms is Some <==> m.hud_update_at is Some,
        r.frontmost_ms is Some <==> m.frontmost_at is Some,
        m.hud_update_at is Some && m.hud_update_at->Some_0 >= m.start ==> {
            let took = m.hud_update_at->Some_0 - m.start;
            r.hud_update_ms->Some_0 * 1_000_000 <= took < (r.hud_update_ms->Some_0 + 1) * 1_000_000
        },
        m.hud_update_at is Some && m.hud_update_at->Some_0 < m.start ==> r.hud_update_ms->Some_0
            == 0,
        m.frontmost_at is Some && m.frontmost_at->Some_0 >= m.start ==> {
            let took = m.frontmost_at->Some_0 - m.start;
            r.frontmost_ms->Some_0 * 1_000_000 <= took < (r.frontmost_ms->Some_0 + 1) * 1_000_000
        },
        m.frontmost_at is Some && m.frontmost_at->Some_0 < m.start ==> r.frontmost_ms->Some_0 == 0,
        r.activation_attempts == m.activation_attempts,
        r.hud_updates_seen == m.hud_updates_seen,
        r.focus_event_seen == m.focus_event_seen,
{
}

/// How often, in a stream, a visible HUD is reported by an event that does not repeat
/// the one about the HUD before it.
pub open spec fn fresh_reports(last: Option<u64>, events: Seq<StreamEvent>) -> int
    decreases events.len(),
{
    if events.len() == 0 {
        0
    } else {
        fresh_reports(last, events.drop_last()) + match events.last() {
            StreamEvent::Hud { id, visible } => if visible && Some(id) != last_about(
                last,
                events.drop_last(),
            ) {
                1int
            } else {
                0
            },
            _ => 0,
        }
    }
}

/// The number of the last event about the HUD.
pub open spec fn last_about(last: Option<u64>, events: Seq<StreamEvent>) -> Option<u64>
    decreases events.len(),
{
    if events.len() == 0 {
        last
    } else {
        match events.last() {
            StreamEvent::Hud { id, visible: _ } => Some(id),
            _ => last_about(last, events.drop_last()),
        }
    }
}

/// Of the events that have come, each fresh report of a visible HUD is counted once, a
/// change of focus is noted exactly when there is one, and the time of a report is
/// noted exactly when there was one.
pub proof fn every_fresh_report_is_counted(a: Activation, events: Seq<StreamEvent>, now: u64)
    requires
        a.metrics.hud_updates_seen + events.len() <= u32::MAX,
    ensures
        a.noted_all(events, now).metrics.hud_updates_seen == a.metrics.hud_updates_seen
            + fresh_reports(a.last_hud_event, events),
        0 <= fresh_reports(a.last_hud_event, events) <= events.len(),
        a.noted_all(events, now).last_hud_event == last_about(a.last_hud_event, events),
        a.noted_all(events, now).metrics.focus_event_seen <==> a.metrics.focus_event_seen
            || exists|i: int| 0 <= i < events.len() && #[trigger] events[i] is FocusChanged,
        a.noted_all(events, now).metrics.hud_update_at == if a.metrics.hud_update_at is None
            && fresh_reports(a.last_hud_event, events) > 0 {
            Some(now)
        } else {
            a.metrics.hud_update_at
        },
        a.noted_all(events, now).metrics.frontmost_at == a.metrics.frontmost_at,
        a.noted_all(events, now).metrics.activation_attempts == a.metrics.activation_attempts,
        a.noted_all(events, now).metrics.start == a.metrics.start,
        a.noted_all(events, now).deadline == a.deadline,
        a.noted_all(events, now).timeout_ms == a.timeout_ms,
        a.noted_all(events, now).nested == a.nested,
        a.noted_all(events, now).last_attempt == a.last_attempt,
        a.noted_all(events, now).begun == a.begun,
    decreases events.len(),
{
    if events.len() > 0 {
        let before = events.drop_last();
        every_fresh_report_is_counted(a, before, now);
        if events.last() is FocusChanged {
            assert(events[events.len() - 1] is FocusChanged);
        }
        if exists|i: int| 0 <= i < before.len() && #[trigger] before[i] is FocusChanged {
            let i = choose|i: int| 0 <= i < before.len() && #[trigger] before[i] is FocusChanged;
            assert(events[i] is FocusChanged);
        }
        if exists|i: int| 0 <= i < events.len() && #[trigger] events[i] is FocusChanged {
            let i = choose|i: int| 0 <= i < events.len() && #[trigger] events[i] is FocusChanged;
            if i < before.len() {
                assert(before[i] is FocusChanged);
            }
        }
    }
}

/// An activation succeeds only where the HUD was seen: just now, when no nested
/// bindings are awaited, or before they came.
pub proof fn success_means_the_hud_was_seen(a: Activation, event: ActivationEvent, now: u64)
    requires
        a.after(event, now).1 is Succeed,
    ensures
        a.nested ==> a.phase is Nesting && !(event is NotBound),
        !a.nested && !(a.phase is Nesting) ==> a.phase is Looking && event
            == ActivationEvent::Visible(true) && a.after(event, now).0.metrics.frontmost_at is Some,
{
}

/// A visible HUD ends an activation that awaits nothing nested, and otherwise leads to
/// waiting for the nested bindings while a millisecond is left.
pub proof fn seeing_the_hud_moves_on(a: Activation, now: u64)
    requires
        a.phase is Looking,
    ensures
        !a.nested ==> a.after(ActivationEvent::Visible(true), now).1 is Succeed,
        a.nested && a.deadline - now >= 1_000_000 ==> a.after(
            ActivationEvent::Visible(true),
            now,
        ).1 is AwaitNested,
        a.nested && a.deadline - now < 1_000_000 ==> a.after(
            ActivationEvent::Visible(true),
            now,
        ).1 is GiveUp,
        !(a.after(ActivationEvent::Visible(false), now).1 is Succeed),
{
}

/// An activation is given up only in its last millisecond, or later.
pub proof fn giving_up_takes_the_whole_time(a: Activation, event: ActivationEvent, now: u64)
    requires
        a.after(event, now).1 is GiveUp,
    ensures
        now + 1_000_000 > a.deadline,
{
}

/// Nothing that is asked for takes longer than the time that is left, and a pause is
/// at most ten milliseconds.
pub proof fn actions_fit_the_time_left(a: Activation, event: ActivationEvent, now: u64)
    ensures
        match a.after(event, now).1 {
            ActivationAction::AwaitActivation(n) => 1 <= n && now + n * 1_000_000 <= a.deadline,
            ActivationAction::InjectActivation(n) => 1 <= n && now + n * 1_000_000 <= a.deadline,
            ActivationAction::AwaitNested(n) => 1 <= n && now + n * 1_000_000 <= a.deadline,
            ActivationAction::Pause(n) => n <= 10_000_000 && now + n <= a.deadline,
            _ => true,
        },
{
}

/// The chord is injected after its binding was awaited, and what follows remembers
/// when; it is injected again once thirty milliseconds have passed without the HUD.
pub proof fn the_chord_is_repeated(a: Activation, now: u64)
    ensures
        a.phase is Binding && now + 1_000_000 <= a.deadline ==> a.after(
            ActivationEvent::Done,
            now,
        ).1 is InjectActivation && a.after(ActivationEvent::Done, now).0.phase is Injecting,
        a.phase is Injecting ==> a.after(ActivationEvent::Done, now).0.last_attempt == Some(now)
            && a.after(ActivationEvent::Done, now).0.begun,
        a.phase is Looking && a.last_attempt is Some && now - a.last_attempt->Some_0 >= 30_000_000
            && now + 1_000_000 <= a.deadline ==> a.after(
            ActivationEvent::Visible(false),
            now,
        ).1 is AwaitActivation,
        a.phase is Looking && a.last_attempt is Some && now - a.last_attempt->Some_0 < 30_000_000
            && now <= a.deadline ==> a.after(ActivationEvent::Visible(false), now).1 is Pause,
        a.phase is Nesting && now + 1_000_000 <= a.deadline ==> a.after(
            ActivationEvent::NotBound,
            now,
        ).1 is AwaitActivation,
        a.phase is Pausing && now < a.deadline ==> a.after(
            ActivationEvent::Done,
            now,
        ).1 is DrainEvents,
        a.phase is Draining ==> a.after(ActivationEvent::Done, now).1 is CheckVisible && a.after(
            ActivationEvent::Done,
            now,
        ).0.phase is Looking,
{
}

} // verus!
