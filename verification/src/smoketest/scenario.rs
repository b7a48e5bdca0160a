//! Scenarios of several helper windows: starting them, finding them, and waiting
//! for the focus.

use vstd::prelude::*;
use vstd::string::*;

use crate::smoketest::config::{ms, NANOS_PER_MS};
use crate::smoketest::error::{fails_with, Error};
use crate::smoketest::place_support::{marker, title_marker};
use crate::text::{contains_text, dec, dec_int, decimal, decimal_signed, occurs, text_eq};

verus! {

/// Holds operations of the main thread back while it is alive.
#[derive(Debug)]
pub struct MainOpsDrainGuard {
    /// Whether operations were run before.
    pub prev: bool,
}

impl MainOpsDrainGuard {
    /// Hold operations back, and remember whether they were run before.
    pub fn disable(draining: &mut bool) -> (r: Self)
        ensures
            r.prev == *old(draining),
            !*final(draining),
    {
        let prev = *draining;
        *draining = false;
        MainOpsDrainGuard { prev }
    }

    /// Put back what was before.
    pub fn restore(self, draining: &mut bool)
        ensures
            *final(draining) == self.prev,
    {
        *draining = self.prev;
    }
}

/// How often helpers are let run before a case begins.
pub const INITIAL_SPIN_ITERS: u32 = 24;

/// Most events that are dropped before a case begins.
pub const DRAIN_LIMIT: u32 = 5_000;

/// How long events are dropped before a case begins, in milliseconds.
pub const DRAIN_MS: u64 = 750;

/// How often the windows are looked for.
pub const RESOLVE_ATTEMPTS: u32 = 40;

/// How long the focus is awaited, in milliseconds.
pub const FOCUS_WAIT_MS: u64 = 10_000;

/// A helper window of a scenario.
#[derive(Debug, Clone, Copy)]
pub struct WindowSpawnSpec {
    /// Label of the window in the scenario.
    pub label: &'static str,
    /// Title of the window.
    pub title: &'static str,
    /// Lifetime in milliseconds.
    pub time_ms: u64,
    /// Size in points.
    pub size: Option<(i32, i32)>,
    /// Position in points.
    pub pos: Option<(i32, i32)>,
    /// Text shown in the window.
    pub label_text: Option<&'static str>,
}

impl WindowSpawnSpec {
    /// A window with nothing but its names.
    pub fn new(label: &'static str, title: &'static str) -> (r: Self)
        ensures
            r == (WindowSpawnSpec {
                label,
                title,
                time_ms: 0,
                size: None,
                pos: None,
                label_text: None,
            }),
    {
        WindowSpawnSpec { label, title, time_ms: 0, size: None, pos: None, label_text: None }
    }

    /// The window with its lifetime, geometry and text.
    pub fn configure(
        self,
        time_ms: u64,
        size: Option<(i32, i32)>,
        pos: Option<(i32, i32)>,
        label_text: &'static str,
    ) -> (r: Self)
        ensures
            r == (WindowSpawnSpec { time_ms, size, pos, label_text: Some(label_text), ..self }),
    {
        WindowSpawnSpec { time_ms, size, pos, label_text: Some(label_text), ..self }
    }
}

/// A window in a snapshot of the world.
#[derive(Debug)]
pub struct WorldWindow {
    /// Process of the window.
    pub pid: i32,
    /// Identifier of the window.
    pub id: u32,
    /// Title of the window.
    pub title: String,
    /// Layer of the window.
    pub layer: i32,
    /// Whether the window is on screen.
    pub is_on_screen: bool,
    /// Distance from the front.
    pub z: u32,
}

impl WorldWindow {
    /// Whether this window is to be preferred to another: ordinary windows first,
    /// then those on screen, then the foremost.
    pub open spec fn better_than(&self, other: &WorldWindow) -> bool {
        let off = self.layer != 0;
        let other_off = other.layer != 0;
        if off != other_off {
            !off
        } else if self.is_on_screen != other.is_on_screen {
            self.is_on_screen
        } else {
            self.z < other.z
        }
    }

    fn beats(&self, other: &WorldWindow) -> (r: bool)
        ensures
            r == self.better_than(other),
    {
        let off = self.layer != 0;
        let other_off = other.layer != 0;
        if off != other_off {
            !off
        } else if self.is_on_screen != other.is_on_screen {
            self.is_on_screen
        } else {
            self.z < other.z
        }
    }
}

/// Whether position `i` holds the window to take for a mark: it bears the mark, no
/// marked window is better, and none before it is as good.
pub open spec fn best_marked(snapshot: Seq<WorldWindow>, mark: Seq<char>, i: int) -> bool {
    &&& 0 <= i < snapshot.len()
    &&& occurs(snapshot[i].title@, mark)
    &&& forall|j: int|
        0 <= j < snapshot.len() && occurs((#[trigger] snapshot[j]).title@, mark)
            ==> !snapshot[j].better_than(&snapshot[i])
    &&& forall|j: int|
        0 <= j < i && occurs((#[trigger] snapshot[j]).title@, mark)
            ==> snapshot[i].better_than(&snapshot[j])
}

/// Whether no window bears a mark.
pub open spec fn none_marked(snapshot: Seq<WorldWindow>, mark: Seq<char>) -> bool {
    forall|j: int| 0 <= j < snapshot.len() ==> !occurs((#[trigger] snapshot[j]).title@, mark)
}

/// The window to take for a mark.
pub fn resolve_marked(snapshot: &Vec<WorldWindow>, mark: &str) -> (r: Option<usize>)
    ensures
        match r {
            Some(i) => best_marked(snapshot@, mark@, i as int),
            None => forall|j: int|
                0 <= j < snapshot@.len() ==> !occurs((#[trigger] snapshot@[j]).title@, mark@),
        },
        r is None <==> none_marked(snapshot@, mark@),
{
    let mut best: Option<usize> = None;
    let mut i: usize = 0;
    while i < snapshot.len()
        invariant
            i <= snapshot@.len(),
            match best {
                Some(b) => b < i && best_marked(snapshot@.take(i as int), mark@, b as int),
                None => forall|j: int|
                    0 <= j < i ==> !occurs((#[trigger] snapshot@[j]).title@, mark@),
            },
        decreases snapshot@.len() - i,
    {
        let ghost upto = snapshot@.take(i as int);
        let ghost now = snapshot@.take(i + 1);
        assert(forall|j: int| 0 <= j < i ==> #[trigger] now[j] == upto[j]);
        assert(now[i as int] == snapshot@[i as int]);
        if contains_text(snapshot[i].title.as_str(), mark) {
            match best {
                Some(b) => {
                    if snapshot[i].beats(&snapshot[b]) {
                        best = Some(i);
                        assert(best_marked(now, mark@, i as int)) by {
                            assert forall|j: int|
                                0 <= j < i && occurs((#[trigger] now[j]).title@, mark@) implies now[i as int].better_than(
                                &now[j],
                            ) by {
                                assert(upto[j] == now[j]);
                                assert(!upto[j].better_than(&upto[b as int]));
                            }
                        }
                    } else {
                        assert(best_marked(now, mark@, b as int)) by {
                            assert forall|j: int|
                                0 <= j < now.len() && occurs(
                                    (#[trigger] now[j]).title@,
                                    mark@,
                                ) implies !now[j].better_than(&now[b as int]) by {
                                if j < i {
                                    assert(upto[j] == now[j]);
                                }
                            }
                            assert forall|j: int|
                                0 <= j < b && occurs((#[trigger] now[j]).title@, mark@) implies now[b as int].better_than(
                                &now[j],
                            ) by {
                                assert(upto[j] == now[j]);
                            }
                        }
                    }
                },
                None => {
                    best = Some(i);
                    assert(best_marked(now, mark@, i as int)) by {
                        assert forall|j: int|
                            0 <= j < now.len() && occurs(
                                (#[trigger] now[j]).title@,
                                mark@,
                            ) implies j == i by {
                            if j < i {
                                assert(snapshot@[j] == now[j]);
                            }
                        }
                    }
                },
            }
        } else {
            if let Some(b) = best {
                assert(best_marked(now, mark@, b as int)) by {
                    assert forall|j: int|
                        0 <= j < now.len() && occurs(
                            (#[trigger] now[j]).title@,
                            mark@,
                        ) implies !now[j].better_than(&now[b as int]) by {
                        assert(upto[j] == now[j]);
                    }
                    assert forall|j: int|
                        0 <= j < b && occurs((#[trigger] now[j]).title@, mark@) implies now[b as int].better_than(
                        &now[j],
                    ) by {
                        assert(upto[j] == now[j]);
                    }
                }
            }
        }
        i = i + 1;
    }
    assert(snapshot@.take(i as int) =~= snapshot@);
    best
}

/// A window of a scenario that was found.
#[derive(Debug)]
pub struct ScenarioWindow {
    /// Label of the window in the scenario.
    pub label: &'static str,
    /// Title of the window.
    pub title: String,
    /// Process of the window.
    pub pid: i32,
    /// Identifier of the window.
    pub id: u32,
}

/// What to do while the windows are looked for.
#[derive(Debug)]
pub enum ResolveStep {
    /// Every window is found.
    Complete,
    /// Let helpers run and look again.
    Again,
    /// Give up.
    Fail(Error),
}

/// The windows of a scenario.
#[derive(Debug)]
pub struct ScenarioState {
    /// Name of the scenario.
    pub slug: &'static str,
    /// Labels of the windows.
    pub labels: Vec<&'static str>,
    /// The windows found so far.
    pub windows: Vec<ScenarioWindow>,
    /// How often they were looked for in vain.
    pub attempts: u32,
}

/// Whether a window with a label is among those found.
pub open spec fn has_label(windows: Seq<ScenarioWindow>, label: Seq<char>) -> bool {
    exists|i: int| 0 <= i < windows.len() && (#[trigger] windows[i]).label@ == label
}

/// Whether the first window with a label stands at a position.
pub open spec fn label_at(windows: Seq<ScenarioWindow>, label: Seq<char>, i: int) -> bool {
    &&& 0 <= i < windows.len()
    &&& windows[i].label@ == label
    &&& forall|j: int| 0 <= j < i ==> (#[trigger] windows[j]).label@ != label
}

impl ScenarioState {
    /// A scenario whose windows have not been found yet.
    pub fn spawn_scenario(slug: &'static str, specs: &Vec<WindowSpawnSpec>) -> (r: Self)
        ensures
            r.slug == slug,
            r.labels@.len() == specs@.len(),
            forall|i: int| 0 <= i < specs@.len() ==> #[trigger] r.labels@[i] == specs@[i].label,
            r.windows@.len() == 0,
            r.attempts == 0,
    {
        let mut labels: Vec<&'static str> = Vec::new();
        let mut i: usize = 0;
        while i < specs.len()
            invariant
                i <= specs@.len(),
                labels@.len() == i,
                forall|j: int| 0 <= j < i ==> #[trigger] labels@[j] == specs@[j].label,
            decreases specs@.len() - i,
        {
            labels.push(specs[i].label);
            i = i + 1;
        }
        ScenarioState { slug, labels, windows: Vec::new(), attempts: 0 }
    }

    /// The position of a window by its label.
    pub fn window(&self, label: &str) -> (r: Result<usize, Error>)
        ensures
            match r {
                Ok(i) => label_at(self.windows@, label@, i as int),
                Err(_) => !has_label(self.windows@, label@) && fails_with(
                    r,
                    "unknown window label: "@ + label@,
                ),
            },
    {
        let mut i: usize = 0;
        while i < self.windows.len()
            invariant
                i <= self.windows@.len(),
                forall|j: int| 0 <= j < i ==> (#[trigger] self.windows@[j]).label@ != label@,
            decreases self.windows@.len() - i,
        {
            if text_eq(self.windows[i].label, label) {
                return Ok(i);
            }
            i = i + 1;
        }
        let mut s = "unknown window label: ".to_owned();
        s.append(label);
        Err(Error::InvalidState(s))
    }

    /// The window of a snapshot to take for a label, unless the label has one
    /// already.
    pub fn candidate(&self, label: &'static str, snapshot: &Vec<WorldWindow>) -> (r: Option<usize>)
        ensures
            match r {
                Some(i) => !has_label(self.windows@, label@) && best_marked(
                    snapshot@,
                    title_marker(self.slug@, label@),
                    i as int,
                ),
                None => has_label(self.windows@, label@) || forall|j: int|
                    0 <= j < snapshot@.len() ==> !occurs(
                        (#[trigger] snapshot@[j]).title@,
                        title_marker(self.slug@, label@),
                    ),
            },
    {
        if self.window(label).is_ok() {
            return None;
        }
        let mark = marker(self.slug, label);
        resolve_marked(snapshot, mark.as_str())
    }

    /// Note a window that was found.
    pub fn record(&mut self, label: &'static str, title: String, pid: i32, id: u32)
        ensures
            final(self).windows@ == old(self).windows@.push(
                ScenarioWindow { label, title, pid, id },
            ),
            final(self).slug == old(self).slug,
            final(self).labels == old(self).labels,
            final(self).attempts == old(self).attempts,
    {
        self.windows.push(ScenarioWindow { label, title, pid, id });
    }

    /// After a look at the windows, say how to go on.
    pub fn after_look(&mut self) -> (r: ResolveStep)
        requires
            old(self).attempts <= RESOLVE_ATTEMPTS,
        ensures
            final(self).windows == old(self).windows,
            final(self).labels == old(self).labels,
            final(self).attempts <= RESOLVE_ATTEMPTS,
            if old(self).windows@.len() >= old(self).labels@.len() {
                r is Complete && final(self).attempts == old(self).attempts
            } else if old(self).attempts < RESOLVE_ATTEMPTS {
                r is Again && final(self).attempts == old(self).attempts + 1
            } else {
                &&& final(self).attempts == old(self).attempts
                &&& r matches ResolveStep::Fail(Error::InvalidState(why))
                &&& why@ == "mimic scenario '"@ + old(self).slug@
                    + "' did not expose all windows"@
            },
    {
        if self.windows.len() >= self.labels.len() {
            return ResolveStep::Complete;
        }
        if self.attempts >= RESOLVE_ATTEMPTS {
            let mut s = "mimic scenario '".to_owned();
            s.append(self.slug);
            s.append("' did not expose all windows");
            return ResolveStep::Fail(Error::InvalidState(s));
        }
        self.attempts = self.attempts + 1;
        ResolveStep::Again
    }
}

/// The window that is used once it is looked for on screen: as it was when it is there
/// already, or when the wait for it has failed; else as the wait has found it.
pub fn ensure_window_ready(window: WorldWindow, waited: Option<WorldWindow>) -> (r: WorldWindow)
    ensures
        r == if window.is_on_screen {
            window
        } else {
            match waited {
                Some(updated) => updated,
                None => window,
            }
        },
{
    if window.is_on_screen {
        return window;
    }
    match waited {
        Some(updated) => updated,
        None => window,
    }
}

/// Whether to drop another event of the round.
pub fn drop_another(dropped: u32) -> (r: bool)
    ensures
        r == (dropped < DRAIN_LIMIT),
{
    dropped < DRAIN_LIMIT
}

/// Whether to begin another round of dropping events: the last one dropped some,
/// there is room for more, and there is time.
pub fn drain_again(dropped: u32, in_round: u32, overdue: bool) -> (r: bool)
    ensures
        r == (in_round > 0 && dropped < DRAIN_LIMIT && !overdue),
{
    in_round > 0 && dropped < DRAIN_LIMIT && !overdue
}

/// The message about a raise that hit another window.
pub open spec fn unexpected_target(
    what: Seq<char>,
    expected: (i32, u32),
    got: (i32, u32),
) -> Seq<char> {
    what + " targeted unexpected window: expected pid="@ + dec_int(expected.0 as int) + " id="@
        + dec(expected.1 as nat) + " got pid="@ + dec_int(got.0 as int) + " id="@ + dec(
        got.1 as nat,
    )
}

/// The error about a command that hit another window.
pub fn wrong_target(what: &str, expected: (i32, u32), got: (i32, u32)) -> (r: Error)
    ensures
        r matches Error::InvalidState(why) && why@ == unexpected_target(what@, expected, got),
{
    let mut s = what.to_owned();
    s.append(" targeted unexpected window: expected pid=");
    s.append(decimal_signed(expected.0 as i64).as_str());
    s.append(" id=");
    s.append(decimal(expected.1 as u64).as_str());
    s.append(" got pid=");
    s.append(decimal_signed(got.0 as i64).as_str());
    s.append(" id=");
    s.append(decimal(got.1 as u64).as_str());
    Error::InvalidState(s)
}

/// Check the answer to a request to raise a window.
pub fn check_raise(
    label: &str,
    title: &str,
    expected: (i32, u32),
    answer: Result<Option<(i32, u32)>, String>,
) -> (r: Result<(), Error>)
    ensures
        match answer {
            Err(why) => fails_with(r, "raise request failed: "@ + why@),
            Ok(None) => fails_with(
                r,
                "raise did not select a target window (label="@ + label@ + " title="@ + title@
                    + ")"@,
            ),
            Ok(Some(got)) => if got == expected {
                r is Ok
            } else {
                fails_with(r, unexpected_target("raise"@, expected, got))
            },
        },
{
    match answer {
        Err(why) => {
            let mut s = "raise request failed: ".to_owned();
            s.append(why.as_str());
            Err(Error::InvalidState(s))
        },
        Ok(None) => {
            let mut s = "raise did not select a target window (label=".to_owned();
            s.append(label);
            s.append(" title=");
            s.append(title);
            s.append(")");
            Err(Error::InvalidState(s))
        },
        Ok(Some(got)) => {
            if got.0 == expected.0 && got.1 == expected.1 {
                Ok(())
            } else {
                Err(wrong_target("raise", expected, got))
            }
        },
    }
}

/// Where the cursor of an event stream stands.
#[derive(Debug, Clone, Copy, PartialEq, Eq, Structural)]
pub struct CursorState {
    /// Events lost so far.
    pub lost_count: u64,
    /// The next event.
    pub next_index: u64,
}

/// What was learned about the focus.
#[derive(Debug, Clone, Copy)]
pub enum FocusEvent {
    /// The window that has the focus now.
    Focused(Option<(i32, u32)>),
    /// An event: the focus went to a window, or to none.
    Changed(Option<(i32, u32)>),
    /// Another event.
    Other,
    /// No event is left.
    NoMore,
}

/// What to do while the focus is awaited.
#[derive(Debug)]
pub enum FocusStep {
    /// Let helpers run and ask for the focus.
    AskFocus,
    /// Let the main thread run a little, and take the next event.
    PumpAndTake,
    /// Take the next event.
    TakeEvent,
    /// The wait is over.
    Finish(Result<(), Error>),
}

/// How far a wait for the focus has come.
#[derive(Debug, Clone, Copy, PartialEq, Eq, Structural)]
pub enum FocusPhase {
    /// The focus was not asked for yet.
    First,
    /// The focus is asked for again and again.
    Polling,
    /// Events are taken.
    Taking,
}

/// A wait for the focus.
#[derive(Debug)]
pub struct WaitForFocus {
    /// Name of the case.
    pub case: String,
    /// The window that has to get the focus.
    pub expected: (i32, u32),
    /// Events lost when the wait began.
    pub baseline_lost: u64,
    /// When to give up.
    pub deadline: u128,
    /// How far the wait has come.
    pub phase: FocusPhase,
}

/// The message about a wait that took too long.
pub open spec fn focus_timeout(case: Seq<char>, cursor: CursorState) -> Seq<char> {
    "timeout waiting for "@ + case + " (lost_count="@ + dec(cursor.lost_count as nat)
        + " next_index="@ + dec(cursor.next_index as nat) + ")"@
}

/// The message about lost events.
pub open spec fn events_lost(cursor: CursorState) -> Seq<char> {
    "events lost during wait (lost_count="@ + dec(cursor.lost_count as nat)
        + "): see artifacts"@
}

impl WaitForFocus {
    /// A wait that has not begun.
    pub fn wait_for_focus(case: String, expected: (i32, u32), cursor: CursorState) -> (r: (Self, FocusStep))
        ensures
            r.0 == (WaitForFocus {
                case,
                expected,
                baseline_lost: cursor.lost_count,
                deadline: 0,
                phase: FocusPhase::First,
            }),
            r.1 is AskFocus,
    {
        (
            WaitForFocus {
                case,
                expected,
                baseline_lost: cursor.lost_count,
                deadline: 0,
                phase: FocusPhase::First,
            },
            FocusStep::AskFocus,
        )
    }

    /// Whether an event shows the focus on the expected window.
    pub open spec fn hits(&self, event: FocusEvent) -> bool {
        match event {
            FocusEvent::Focused(Some(key)) => key == self.expected,
            FocusEvent::Changed(Some(key)) => key == self.expected,
            _ => false,
        }
    }

    /// Whether a step is the answer to an event.
    pub open spec fn answers(
        &self,
        event: FocusEvent,
        now: u64,
        cursor: CursorState,
        step: FocusStep,
    ) -> bool {
        let lost = cursor.lost_count > self.baseline_lost;
        match self.phase {
            FocusPhase::First => if self.hits(event) {
                step == FocusStep::Finish(Ok(()))
            } else {
                step is AskFocus
            },
            FocusPhase::Polling => if self.hits(event) {
                step == FocusStep::Finish(Ok(()))
            } else if now >= self.deadline {
                step matches FocusStep::Finish(res) && fails_with(
                    res,
                    focus_timeout(self.case@, cursor),
                )
            } else {
                step is PumpAndTake
            },
            FocusPhase::Taking => if lost {
                step matches FocusStep::Finish(res) && fails_with(res, events_lost(cursor))
            } else if self.hits(event) {
                step == FocusStep::Finish(Ok(()))
            } else if event is NoMore {
                step is AskFocus
            } else {
                step is TakeEvent
            },
        }
    }

    fn is_hit(&self, event: FocusEvent) -> (r: bool)
        ensures
            r == self.hits(event),
    {
        match event {
            FocusEvent::Focused(Some(key)) => key.0 == self.expected.0 && key.1 == self.expected.1,
            FocusEvent::Changed(Some(key)) => key.0 == self.expected.0 && key.1 == self.expected.1,
            _ => false,
        }
    }

    /// Take in what was learned, and say what to do next.
    pub fn next(&mut self, event: FocusEvent, now: u64, cursor: CursorState) -> (r: FocusStep)
        ensures
            old(self).answers(event, now, cursor, r),
            final(self).case == old(self).case,
            final(self).expected == old(self).expected,
            final(self).baseline_lost == old(self).baseline_lost,
            final(self).deadline == if old(self).phase is First {
                (now + FOCUS_WAIT_MS * NANOS_PER_MS) as u128
            } else {
                old(self).deadline
            },
            r is AskFocus ==> final(self).phase is Polling,
            r is PumpAndTake || r is TakeEvent ==> final(self).phase is Taking,
    {
        match self.phase {
            FocusPhase::First => {
                self.deadline = now as u128 + ms(FOCUS_WAIT_MS);
                if self.is_hit(event) {
                    return FocusStep::Finish(Ok(()));
                }
                self.phase = FocusPhase::Polling;
                FocusStep::AskFocus
            },
            FocusPhase::Polling => {
                if self.is_hit(event) {
                    return FocusStep::Finish(Ok(()));
                }
                if now as u128 >= self.deadline {
                    let mut s = "timeout waiting for ".to_owned();
                    s.append(self.case.as_str());
                    s.append(" (lost_count=");
                    s.append(decimal(cursor.lost_count).as_str());
                    s.append(" next_index=");
                    s.append(decimal(cursor.next_index).as_str());
                    s.append(")");
                    return FocusStep::Finish(Err(Error::InvalidState(s)));
                }
                self.phase = FocusPhase::Taking;
                FocusStep::PumpAndTake
            },
            FocusPhase::Taking => {
                if cursor.lost_count > self.baseline_lost {
                    let mut s = "events lost during wait (lost_count=".to_owned();
                    s.append(decimal(cursor.lost_count).as_str());
                    s.append("): see artifacts");
                    return FocusStep::Finish(Err(Error::InvalidState(s)));
                }
                if self.is_hit(event) {
                    return FocusStep::Finish(Ok(()));
                }
                match event {
                    FocusEvent::NoMore => {
                        self.phase = FocusPhase::Polling;
                        FocusStep::AskFocus
                    },
                    _ => FocusStep::TakeEvent,
                }
            },
        }
    }
}

/// A wait ends well only when the expected window was seen with the focus.
pub proof fn waits_end_well_only_on_the_window(
    w: WaitForFocus,
    event: FocusEvent,
    now: u64,
    cursor: CursorState,
    step: FocusStep,
)
    requires
        w.answers(event, now, cursor, step),
        step == FocusStep::Finish(Ok(())),
    ensures
        w.hits(event),
{
}

/// Once the deadline has passed, the next answer about the focus ends the wait.
pub proof fn late_answers_end_the_wait(
    w: WaitForFocus,
    focus: Option<(i32, u32)>,
    now: u64,
    cursor: CursorState,
    step: FocusStep,
)
    requires
        w.phase is Polling,
        now >= w.deadline,
        w.answers(FocusEvent::Focused(focus), now, cursor, step),
    ensures
        step is Finish,
{
}

/// A case over a scenario: its windows, and the labels raised one after the other.
#[derive(Debug)]
pub struct ScenarioPlan {
    /// Name of the scenario.
    pub slug: &'static str,
    /// Its windows.
    pub windows: Vec<WindowSpawnSpec>,
    /// Labels of the windows to raise, in order.
    pub raises: Vec<&'static str>,
}

/// A window of the focus cases.
pub open spec fn focus_window(
    label: &'static str,
    title: &'static str,
    size: (i32, i32),
    pos: (i32, i32),
    text: &'static str,
) -> WindowSpawnSpec {
    WindowSpawnSpec {
        label,
        title,
        time_ms: 25_000,
        size: Some(size),
        pos: Some(pos),
        label_text: Some(text),
    }
}

fn make_focus_window(
    label: &'static str,
    title: &'static str,
    size: (i32, i32),
    pos: (i32, i32),
    text: &'static str,
) -> (r: WindowSpawnSpec)
    ensures
        r == focus_window(label, title, size, pos, text),
{
    WindowSpawnSpec::new(label, title).configure(25_000, Some(size), Some(pos), text)
}

/// Two windows are raised, the supporting one first.
pub fn focus_tracking() -> (r: ScenarioPlan)
    ensures
        r.slug@ == "focus.tracking"@,
        r.windows@ == seq![
            focus_window("support", "focus-support", (520, 320), (180, 200), "S"),
            focus_window("primary", "focus-primary", (520, 320), (860, 200), "P"),
        ],
        r.raises@ == seq!["support", "primary"],
{
    let windows = vec![
        make_focus_window("support", "focus-support", (520, 320), (180, 200), "S"),
        make_focus_window("primary", "focus-primary", (520, 320), (860, 200), "P"),
    ];
    ScenarioPlan { slug: "focus.tracking", windows, raises: vec!["support", "primary"] }
}

/// Four windows are raised around the screen.
pub fn focus_nav() -> (r: ScenarioPlan)
    ensures
        r.slug@ == "focus.nav"@,
        r.windows@ == seq![
            focus_window("tl", "focus-nav-tl", (520, 320), (180, 520), "TL"),
            focus_window("tr", "focus-nav-tr", (520, 320), (860, 520), "TR"),
            focus_window("br", "focus-nav-br", (520, 320), (860, 200), "BR"),
            focus_window("bl", "focus-nav-bl", (520, 320), (180, 200), "BL"),
        ],
        r.raises@ == seq!["tl", "tr", "br", "bl"],
{
    let windows = vec![
        make_focus_window("tl", "focus-nav-tl", (520, 320), (180, 520), "TL"),
        make_focus_window("tr", "focus-nav-tr", (520, 320), (860, 520), "TR"),
        make_focus_window("br", "focus-nav-br", (520, 320), (860, 200), "BR"),
        make_focus_window("bl", "focus-nav-bl", (520, 320), (180, 200), "BL"),
    ];
    ScenarioPlan { slug: "focus.nav", windows, raises: vec!["tl", "tr", "br", "bl"] }
}

/// Two windows are raised by their titles.
pub fn raise() -> (r: ScenarioPlan)
    ensures
        r.slug@ == "raise"@,
        r.windows@ == seq![
            focus_window("primary", "raise-primary", (540, 360), (160, 140), "P"),
            focus_window("sibling", "raise-sibling", (540, 360), (860, 140), "S"),
        ],
        r.raises@ == seq!["primary", "sibling"],
{
    let windows = vec![
        make_focus_window("primary", "raise-primary", (540, 360), (160, 140), "P"),
        make_focus_window("sibling", "raise-sibling", (540, 360), (860, 140), "S"),
    ];
    ScenarioPlan { slug: "raise", windows, raises: vec!["primary", "sibling"] }
}

} // verus!
