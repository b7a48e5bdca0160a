//! Cases about the world service: its status, the properties of the focused window,
//! and the change of the active space.

use vstd::prelude::*;
use vstd::string::*;

use crate::permissions::PermissionState;
use crate::pick::{first_where_at, first_where_none, pick_where};
use crate::smoketest::config::{ms, NANOS_PER_MS};
use crate::smoketest::dump::{dump_optional_text, optional_text_dump};
use crate::smoketest::error::{fails_with, is_invalid, Error};
use crate::smoketest::repeat::{is_space, space};
use crate::text::{bool_text, bool_word, chars_of, dec, dec_int, decimal, decimal_signed};
use crate::window::WindowInfo;

verus! {

/// Status of the world service.
#[derive(Debug, Clone, Copy, PartialEq, Eq)]
pub struct WorldStatus {
    /// How many windows are known.
    pub windows_count: u64,
    /// The window in focus: its process and identifier.
    pub focused: Option<(i32, u32)>,
    /// How long the last update took, in milliseconds.
    pub last_tick_ms: u64,
    /// The interval of updates, in milliseconds.
    pub current_poll_ms: u64,
    /// Permission to use the accessibility interface.
    pub accessibility: PermissionState,
    /// Permission to record the screen.
    pub screen_recording: PermissionState,
    /// How many entries are remembered.
    pub debounce_cache: u64,
    /// How many changes are held back.
    pub debounce_pending: u64,
    /// State of the world service.
    pub reconcile_seq: u64,
    /// How many windows are in doubt.
    pub suspects_pending: u64,
}

/// The name of a permission.
pub open spec fn permission_word(p: PermissionState) -> Seq<char> {
    match p {
        PermissionState::Granted => "Granted"@,
        PermissionState::Denied => "Denied"@,
        PermissionState::Unknown => "Unknown"@,
    }
}

fn permission_name(p: PermissionState) -> (r: &'static str)
    ensures
        r@ == permission_word(p),
{
    match p {
        PermissionState::Granted => "Granted",
        PermissionState::Denied => "Denied",
        PermissionState::Unknown => "Unknown",
    }
}

/// What is wrong with a status, where something is: there are no windows, a permission
/// is missing, or updates come too fast or too slowly.
pub open spec fn status_complaint(status: WorldStatus) -> Option<Seq<char>> {
    if status.windows_count == 0 {
        Some("world-status: expected at least one window in snapshot"@)
    } else if status.accessibility !is Granted || status.screen_recording !is Granted {
        Some(
            "world-status: capabilities not granted (accessibility="@ + permission_word(
                status.accessibility,
            ) + " screen_recording="@ + permission_word(status.screen_recording) + ")"@,
        )
    } else if status.current_poll_ms < 10 || status.current_poll_ms > 5_000 {
        Some(
            "world-status: current poll outside bounds ("@ + dec(status.current_poll_ms as nat)
                + " ms)"@,
        )
    } else {
        None
    }
}

/// Fail unless a status is healthy.
pub fn world_status_permissions(status: &WorldStatus) -> (r: Result<(), Error>)
    ensures
        match status_complaint(*status) {
            None => r is Ok,
            Some(why) => fails_with(r, why),
        },
{
    if status.windows_count == 0 {
        return Err(Error::invalid("world-status: expected at least one window in snapshot"));
    }
    let accessible = matches!(status.accessibility, PermissionState::Granted);
    let recordable = matches!(status.screen_recording, PermissionState::Granted);
    if !accessible || !recordable {
        let mut s = "world-status: capabilities not granted (accessibility=".to_owned();
        s.append(permission_name(status.accessibility));
        s.append(" screen_recording=");
        s.append(permission_name(status.screen_recording));
        s.append(")");
        return Err(Error::InvalidState(s));
    }
    if status.current_poll_ms < 10 || status.current_poll_ms > 5_000 {
        let mut s = "world-status: current poll outside bounds (".to_owned();
        s.append(decimal(status.current_poll_ms).as_str());
        s.append(" ms)");
        return Err(Error::InvalidState(s));
    }
    Ok(())
}

/// The window in focus, in logs.
pub open spec fn focused_text(focused: Option<(i32, u32)>) -> Seq<char> {
    match focused {
        Some((pid, id)) => "pid="@ + dec_int(pid as int) + " id="@ + dec(id as nat),
        None => "-"@,
    }
}

/// A status in logs.
pub fn status_log(status: &WorldStatus) -> (r: String)
    ensures
        r@ == "windows_count="@ + dec(status.windows_count as nat) + " focused="@ + focused_text(
            status.focused,
        ) + " last_tick_ms="@ + dec(status.last_tick_ms as nat) + " current_poll_ms="@ + dec(
            status.current_poll_ms as nat,
        ) + " accessibility="@ + permission_word(status.accessibility) + " screen_recording="@
            + permission_word(status.screen_recording) + " debounce_cache="@ + dec(
            status.debounce_cache as nat,
        ) + " debounce_pending="@ + dec(status.debounce_pending as nat) + " reconcile_seq="@ + dec(
            status.reconcile_seq as nat,
        ) + " suspects_pending="@ + dec(status.suspects_pending as nat),
{
    let focused = match status.focused {
        Some((pid, id)) => {
            let mut f = "pid=".to_owned();
            f.append(decimal_signed(pid as i64).as_str());
            f.append(" id=");
            f.append(decimal(id as u64).as_str());
            f
        },
        None => "-".to_owned(),
    };
    let mut s = "windows_count=".to_owned();
    s.append(decimal(status.windows_count).as_str());
    s.append(" focused=");
    s.append(focused.as_str());
    s.append(" last_tick_ms=");
    s.append(decimal(status.last_tick_ms).as_str());
    s.append(" current_poll_ms=");
    s.append(decimal(status.current_poll_ms).as_str());
    s.append(" accessibility=");
    s.append(permission_name(status.accessibility));
    s.append(" screen_recording=");
    s.append(permission_name(status.screen_recording));
    s.append(" debounce_cache=");
    s.append(decimal(status.debounce_cache).as_str());
    s.append(" debounce_pending=");
    s.append(decimal(status.debounce_pending).as_str());
    s.append(" reconcile_seq=");
    s.append(decimal(status.reconcile_seq).as_str());
    s.append(" suspects_pending=");
    s.append(decimal(status.suspects_pending).as_str());
    s
}

/// Properties of a window.
#[derive(Debug)]
pub struct AxProps {
    /// Its role.
    pub role: Option<String>,
    /// Its subrole.
    pub subrole: Option<String>,
    /// Whether it can be moved.
    pub can_set_pos: Option<bool>,
    /// Whether it can be resized.
    pub can_set_size: Option<bool>,
}

/// Whether a text has something in it besides white space.
pub open spec fn has_ink(s: Seq<char>) -> bool {
    exists|i: int| 0 <= i < s.len() && !is_space(#[trigger] s[i])
}

/// Whether there is a text with something in it besides white space.
pub open spec fn tells(t: Option<String>) -> bool {
    t matches Some(s) && has_ink(s@)
}

fn is_inked(s: &str) -> (r: bool)
    ensures
        r == has_ink(s@),
{
    let v = chars_of(s);
    let mut i: usize = 0;
    while i < v.len()
        invariant
            i <= v@.len(),
            v@ == s@,
            forall|j: int| 0 <= j < i ==> is_space(#[trigger] s@[j]),
        decreases v@.len() - i,
    {
        if !space(v[i]) {
            assert(!is_space(s@[i as int]));
            return true;
        }
        i = i + 1;
    }
    false
}

fn is_telling(t: &Option<String>) -> (r: bool)
    ensures
        r == tells(*t),
{
    match t {
        None => false,
        Some(s) => is_inked(s.as_str()),
    }
}

/// Whether the properties are complete.
pub open spec fn props_complete(props: AxProps) -> bool {
    tells(props.role) && tells(props.subrole) && props.can_set_pos is Some
        && props.can_set_size is Some
}

/// An optional flag in messages.
pub open spec fn flag_dump(t: Option<bool>) -> Seq<char> {
    match t {
        Some(b) => "Some("@ + bool_word(b) + ")"@,
        None => "None"@,
    }
}

fn dump_flag(t: Option<bool>) -> (r: String)
    ensures
        r@ == flag_dump(t),
{
    match t {
        Some(b) => {
            let mut out = "Some(".to_owned();
            out.append(bool_text(b));
            out.append(")");
            out
        },
        None => "None".to_owned(),
    }
}

/// The properties in messages.
pub open spec fn props_text(props: AxProps) -> Seq<char> {
    "role="@ + optional_text_dump(props.role) + " subrole="@ + optional_text_dump(props.subrole) + " can_set_pos="@
        + flag_dump(props.can_set_pos) + " can_set_size="@ + flag_dump(props.can_set_size)
}

/// The properties in messages.
pub fn describe_props(props: &AxProps) -> (r: String)
    ensures
        r@ == props_text(*props),
{
    let mut s = "role=".to_owned();
    s.append(dump_optional_text(&props.role).as_str());
    s.append(" subrole=");
    s.append(dump_optional_text(&props.subrole).as_str());
    s.append(" can_set_pos=");
    s.append(dump_flag(props.can_set_pos).as_str());
    s.append(" can_set_size=");
    s.append(dump_flag(props.can_set_size).as_str());
    s
}

/// Fail unless the properties are complete.
pub fn judge_props(props: &AxProps) -> (r: Result<(), Error>)
    ensures
        if props_complete(*props) {
            r is Ok
        } else {
            fails_with(r, "world-ax: invalid props "@ + props_text(*props))
        },
{
    let role = is_telling(&props.role);
    let subrole = is_telling(&props.subrole);
    if role && subrole && props.can_set_pos.is_some() && props.can_set_size.is_some() {
        return Ok(());
    }
    let mut s = "world-ax: invalid props ".to_owned();
    s.append(describe_props(props).as_str());
    Err(Error::InvalidState(s))
}

/// The window in focus.
#[derive(Debug)]
pub struct FocusedWindow {
    /// Its process.
    pub pid: i32,
    /// Its identifier.
    pub id: u32,
    /// Its properties, where they are known.
    pub ax: Option<AxProps>,
}

/// What to do while the properties are awaited.
#[derive(Debug)]
pub enum PropsStep {
    /// The properties are known.
    Known(AxProps),
    /// Look again after milliseconds.
    Pause(u64),
    /// The properties did not come.
    Failed(Error),
}

/// A wait for the properties of a window in focus.
#[derive(Debug, Clone, Copy, PartialEq, Eq)]
pub struct PropsWait {
    /// The window: its process and identifier.
    pub expected: (i32, u32),
    /// When the wait ends.
    pub deadline: u128,
}

/// How long the properties may take, in milliseconds.
pub const PROPS_WAIT_MS: u64 = 2_000;

impl PropsWait {
    /// Begin to wait.
    pub fn world_ax_focus_props(expected: (i32, u32), now: u64) -> (r: Self)
        ensures
            r.expected == expected,
            r.deadline == now + PROPS_WAIT_MS * NANOS_PER_MS,
    {
        PropsWait { expected, deadline: now as u128 + ms(PROPS_WAIT_MS) }
    }

    /// Take in which window is in focus.
    pub fn look(&self, focused: Option<FocusedWindow>, now: u64) -> (r: PropsStep)
        ensures
            match focused {
                Some(FocusedWindow { pid, id, ax: Some(props) }) if pid == self.expected.0 && id
                    == self.expected.1 => r == PropsStep::Known(props),
                _ => if now >= self.deadline {
                    r matches PropsStep::Failed(e) && is_invalid(
                        e,
                        "world-ax: focused window props not observed"@,
                    )
                } else {
                    r == PropsStep::Pause(25)
                },
            },
    {
        if let Some(window) = focused {
            if window.pid == self.expected.0 && window.id == self.expected.1 {
                if let Some(props) = window.ax {
                    return PropsStep::Known(props);
                }
            }
        }
        if now as u128 >= self.deadline {
            PropsStep::Failed(Error::invalid("world-ax: focused window props not observed"))
        } else {
            PropsStep::Pause(25)
        }
    }
}

/// How long the change of the space may take, in milliseconds.
pub const ADOPTION_BUDGET_MS: u64 = 250;

/// How long the first snapshot may take, in milliseconds.
pub const INITIAL_WAIT_MS: u64 = 200;

/// A window in a snapshot.
#[derive(Debug, Clone, Copy, PartialEq, Eq, Structural)]
pub struct SpaceWindow {
    /// Its process.
    pub pid: i32,
    /// Whether it is on the active space.
    pub on_active_space: bool,
    /// Its space.
    pub space: Option<i64>,
}

/// Tuning of the world service.
#[derive(Debug, Clone, Copy, PartialEq, Eq, Structural)]
pub struct WorldCfg {
    /// The shortest interval of updates, in milliseconds.
    pub poll_ms_min: u64,
    /// The longest interval of updates, in milliseconds.
    pub poll_ms_max: u64,
    /// Whether windows off screen are included.
    pub include_offscreen: bool,
    /// Whether the frontmost application is watched.
    pub ax_watch_frontmost: bool,
    /// How many events are buffered.
    pub events_buffer: u64,
}

/// Tuning for fast updates.
pub fn world_cfg_fast() -> (r: WorldCfg)
    ensures
        r == (WorldCfg {
            poll_ms_min: 20,
            poll_ms_max: 120,
            include_offscreen: false,
            ax_watch_frontmost: false,
            events_buffer: 64,
        }),
{
    WorldCfg {
        poll_ms_min: 20,
        poll_ms_max: 120,
        include_offscreen: false,
        ax_watch_frontmost: false,
        events_buffer: 64,
    }
}

/// Whether a window is one of the simulated desktop: titled after its identifier, on
/// screen, without bounds, and not yet known to be on the active space.
pub open spec fn is_win(
    w: WindowInfo,
    space: Option<i64>,
    pid: i32,
    id: u32,
    focused: bool,
) -> bool {
    &&& w.id == id
    &&& w.pid == pid
    &&& w.app@ == "App"@ + dec_int(pid as int)
    &&& w.title@ == "Win"@ + dec(id as nat)
    &&& w.pos is None
    &&& w.space == space
    &&& w.layer == 0
    &&& w.focused == focused
    &&& w.is_on_screen
    &&& !w.on_active_space
}

/// A window of the simulated desktop.
pub fn win(space: Option<i64>, pid: i32, id: u32, focused: bool) -> (r: WindowInfo)
    ensures
        is_win(r, space, pid, id, focused),
{
    let mut app = "App".to_owned();
    app.append(decimal_signed(pid as i64).as_str());
    let mut title = "Win".to_owned();
    title.append(decimal(id as u64).as_str());
    WindowInfo {
        id,
        pid,
        app,
        title,
        pos: None,
        space,
        layer: 0,
        focused,
        is_on_screen: true,
        on_active_space: false,
    }
}

/// The windows of the simulated desktop, with the first or the second in focus.
pub fn simulated_windows(second_active: bool) -> (r: Vec<WindowInfo>)
    ensures
        r@.len() == 2,
        is_win(r@[0], Some(1i64), 100, 1, !second_active),
        is_win(r@[1], Some(2i64), 200, 2, second_active),
{
    vec![win(Some(1), 100, 1, !second_active), win(Some(2), 200, 2, second_active)]
}

/// Whether a window belongs to a process.
pub open spec fn of_process(pid: i32) -> spec_fn(SpaceWindow) -> bool {
    |w: SpaceWindow| w.pid == pid
}

/// Whether some window belongs to a process and is, or is not, on the active space.
pub open spec fn some_window(windows: Seq<SpaceWindow>, pid: i32, active: bool) -> bool {
    exists|i: int|
        0 <= i < windows.len() && (#[trigger] windows[i]).pid == pid && windows[i].on_active_space
            == active
}

fn any_window(windows: &Vec<SpaceWindow>, pid: i32, active: bool) -> (r: bool)
    ensures
        r == some_window(windows@, pid, active),
{
    let mut i: usize = 0;
    while i < windows.len()
        invariant
            i <= windows@.len(),
            forall|j: int|
                0 <= j < i ==> !((#[trigger] windows@[j]).pid == pid && windows@[j].on_active_space
                    == active),
        decreases windows@.len() - i,
    {
        if windows[i].pid == pid && windows[i].on_active_space == active {
            return true;
        }
        i = i + 1;
    }
    false
}

/// Whether a first snapshot shows the first space active and the second not.
pub fn shows_first_space(windows: &Vec<SpaceWindow>) -> (r: bool)
    ensures
        r == (some_window(windows@, 100, true) && some_window(windows@, 200, false)),
{
    any_window(windows, 100, true) && any_window(windows, 200, false)
}

/// Whether the second space was adopted.
pub open spec fn second_adopted(windows: Seq<SpaceWindow>) -> bool {
    exists|i: int|
        0 <= i < windows.len() && (#[trigger] windows[i]).pid == 200 && windows[i].on_active_space
            && windows[i].space == Some(2i64)
}

/// Whether the second space was adopted.
pub fn shows_second_space(windows: &Vec<SpaceWindow>) -> (r: bool)
    ensures
        r == second_adopted(windows@),
{
    let mut i: usize = 0;
    while i < windows.len()
        invariant
            i <= windows@.len(),
            forall|j: int|
                0 <= j < i ==> !((#[trigger] windows@[j]).pid == 200 && windows@[j].on_active_space
                    && windows@[j].space == Some(2i64)),
        decreases windows@.len() - i,
    {
        if windows[i].pid == 200 && windows[i].on_active_space {
            if let Some(s) = windows[i].space {
                if s == 2 {
                    return true;
                }
            }
        }
        i = i + 1;
    }
    false
}

fn find_process(windows: &Vec<SpaceWindow>, pid: i32) -> (r: Option<SpaceWindow>)
    ensures
        r == pick_where(windows@, of_process(pid)),
{
    let mut i: usize = 0;
    while i < windows.len()
        invariant
            i <= windows@.len(),
            forall|j: int| 0 <= j < i ==> !of_process(pid)(#[trigger] windows@[j]),
        decreases windows@.len() - i,
    {
        if windows[i].pid == pid {
            proof {
                first_where_at(windows@, of_process(pid), i as int);
            }
            return Some(windows[i]);
        }
        i = i + 1;
    }
    proof {
        first_where_none(windows@, of_process(pid));
    }
    None
}

/// What is wrong with the snapshot after the change of the space, where something is.
pub open spec fn spaces_complaint(windows: Seq<SpaceWindow>) -> Option<Seq<char>> {
    match pick_where(windows, of_process(100)) {
        None => Some("missing original space window"@),
        Some(first) => if first.on_active_space {
            Some("original space window remained marked active"@)
        } else {
            match pick_where(windows, of_process(200)) {
                None => Some("missing adopted space window"@),
                Some(second) => if !second.on_active_space {
                    Some("new active space window not marked on_active_space"@)
                } else {
                    None
                },
            }
        },
    }
}

fn judge_spaces(windows: &Vec<SpaceWindow>) -> (r: Result<(), Error>)
    ensures
        match spaces_complaint(windows@) {
            None => r is Ok,
            Some(why) => fails_with(r, why),
        },
{
    match find_process(windows, 100) {
        None => {
            return Err(Error::invalid("missing original space window"));
        },
        Some(first) => {
            if first.on_active_space {
                return Err(Error::invalid("original space window remained marked active"));
            }
        },
    }
    match find_process(windows, 200) {
        None => Err(Error::invalid("missing adopted space window")),
        Some(second) => {
            if second.on_active_space {
                Ok(())
            } else {
                Err(Error::invalid("new active space window not marked on_active_space"))
            }
        },
    }
}

/// How far the simulation has come.
#[derive(Debug, Clone, Copy, PartialEq, Eq, Structural)]
pub enum SpacesStage {
    /// The first snapshot is awaited.
    Initial,
    /// The space is changed.
    Switching,
    /// The change has to be adopted.
    Adopting,
    /// The snapshot is checked.
    Checking,
    /// The status is checked.
    Measuring,
    /// It is over.
    Over,
}

/// What was learned in the simulation.
#[derive(Debug)]
pub enum SpacesEvent {
    /// A snapshot.
    Snapshot(Vec<SpaceWindow>),
    /// The step is done.
    Done,
    /// How long the last update took, and the interval of updates, in milliseconds.
    Status(u64, u64),
}

/// What the simulation has measured.
#[derive(Debug, Clone, Copy, PartialEq, Eq, Structural)]
pub struct WorldSpacesMetrics {
    /// How long the change took to be adopted, in milliseconds.
    pub adoption_ms: u64,
    /// How long the last update took, in milliseconds.
    pub last_tick_ms: u64,
    /// The interval of updates, in milliseconds.
    pub current_poll_ms: u64,
}

/// The line that is logged about the simulation.
pub fn world_spaces_adoption(metrics: &WorldSpacesMetrics) -> (r: String)
    ensures
        r@ == "slug=world.spaces.adoption adoption_ms="@ + dec(metrics.adoption_ms as nat)
            + " last_tick_ms="@ + dec(metrics.last_tick_ms as nat) + " current_poll_ms="@ + dec(
            metrics.current_poll_ms as nat,
        ),
{
    let mut s = "slug=world.spaces.adoption adoption_ms=".to_owned();
    s.append(decimal(metrics.adoption_ms).as_str());
    s.append(" last_tick_ms=");
    s.append(decimal(metrics.last_tick_ms).as_str());
    s.append(" current_poll_ms=");
    s.append(decimal(metrics.current_poll_ms).as_str());
    s
}

/// What to do in the simulation.
#[derive(Debug)]
pub enum SpacesAction {
    /// Take a snapshot.
    TakeSnapshot,
    /// Pause for milliseconds, then take a snapshot.
    PauseAndSnapshot(u64),
    /// Change the active space and have the service refreshed.
    SwitchSpace,
    /// Ask for the status.
    AskStatus,
    /// It is over.
    Finish(Result<WorldSpacesMetrics, Error>),
}

/// A run of the simulation.
#[derive(Debug, Clone, Copy, PartialEq, Eq, Structural)]
pub struct SpacesRun {
    /// How long the change may take to be seen at all, in milliseconds.
    pub timeout_ms: u64,
    /// When the wait at hand began.
    pub start: u64,
    /// When the wait at hand ends.
    pub deadline: u128,
    /// How long the change took to be adopted, in milliseconds.
    pub adoption_ms: u64,
    /// How far the simulation has come.
    pub stage: SpacesStage,
}

/// Whole milliseconds since a moment.
pub open spec fn since_ms(start: u64, now: u64) -> u64 {
    if now >= start {
        ((now - start) / (NANOS_PER_MS as int)) as u64
    } else {
        0
    }
}

fn elapsed_ms(start: u64, now: u64) -> (r: u64)
    ensures
        r == since_ms(start, now),
{
    if now >= start {
        (now - start) / NANOS_PER_MS
    } else {
        0
    }
}

/// Whether an action ends the simulation with a complaint.
pub open spec fn spaces_failed(action: SpacesAction, why: Seq<char>) -> bool {
    action matches SpacesAction::Finish(Err(e)) && is_invalid(e, why)
}

/// Whether an event is answered as it has to be.
pub open spec fn spaces_answer(
    before: SpacesRun,
    event: SpacesEvent,
    now: u64,
    after: SpacesRun,
    action: SpacesAction,
) -> bool {
    match (before.stage, event) {
        (SpacesStage::Initial, SpacesEvent::Snapshot(windows)) => if some_window(windows@, 100, true)
            && some_window(windows@, 200, false) {
            after == (SpacesRun { stage: SpacesStage::Switching, ..before }) && action is SwitchSpace
        } else if now >= before.deadline {
            after.stage is Over && spaces_failed(
                action,
                "initial world snapshot missing expected windows"@,
            )
        } else {
            after == before && action == SpacesAction::PauseAndSnapshot(5)
        },
        (SpacesStage::Initial, _) => after == before && action is TakeSnapshot,
        (SpacesStage::Switching, _) => after == (SpacesRun {
            start: now,
            deadline: (now + before.timeout_ms * NANOS_PER_MS) as u128,
            stage: SpacesStage::Adopting,
            ..before
        }) && action is TakeSnapshot,
        (SpacesStage::Adopting, SpacesEvent::Snapshot(windows)) => if second_adopted(windows@) {
            if since_ms(before.start, now) > ADOPTION_BUDGET_MS {
                after.stage is Over && spaces_failed(
                    action,
                    "space adoption exceeded budget: "@ + dec(since_ms(before.start, now) as nat)
                        + "ms (budget "@ + dec(ADOPTION_BUDGET_MS as nat) + "ms)"@,
                )
            } else {
                after == (SpacesRun {
                    adoption_ms: since_ms(before.start, now),
                    stage: SpacesStage::Checking,
                    ..before
                }) && action is TakeSnapshot
            }
        } else if now >= before.deadline {
            after.stage is Over && spaces_failed(
                action,
                "world did not adopt new active space within timeout"@,
            )
        } else {
            after == before && action == SpacesAction::PauseAndSnapshot(5)
        },
        (SpacesStage::Adopting, _) => after == before && action is TakeSnapshot,
        (SpacesStage::Checking, SpacesEvent::Snapshot(windows)) => match spaces_complaint(
            windows@,
        ) {
            Some(why) => after.stage is Over && spaces_failed(action, why),
            None => after == (SpacesRun { stage: SpacesStage::Measuring, ..before })
                && action is AskStatus,
        },
        (SpacesStage::Checking, _) => after == before && action is TakeSnapshot,
        (SpacesStage::Measuring, SpacesEvent::Status(tick, poll)) => after.stage is Over && if tick
            > ADOPTION_BUDGET_MS {
            spaces_failed(action, "world tick exceeded budget: "@ + dec(tick as nat) + "ms"@)
        } else if poll > ADOPTION_BUDGET_MS {
            spaces_failed(
                action,
                "world poll interval exceeded budget: "@ + dec(poll as nat) + "ms"@,
            )
        } else {
            action == SpacesAction::Finish(
                Ok(
                    WorldSpacesMetrics {
                        adoption_ms: before.adoption_ms,
                        last_tick_ms: tick,
                        current_poll_ms: poll,
                    },
                ),
            )
        },
        (SpacesStage::Measuring, _) => after == before && action is AskStatus,
        (SpacesStage::Over, _) => after == before && spaces_failed(action, "the run is over"@),
    }
}

fn over_budget(what: &str, n: u64) -> (r: Error)
    ensures
        is_invalid(r, what@ + dec(n as nat) + "ms"@),
{
    let mut s = what.to_owned();
    s.append(decimal(n).as_str());
    s.append("ms");
    Error::InvalidState(s)
}

impl SpacesRun {
    /// Begin the simulation, with the first space active.
    pub fn run_world_spaces_simulation(timeout_ms: u64, now: u64) -> (r: (Self, SpacesAction))
        ensures
            r.0 == (SpacesRun {
                timeout_ms,
                start: now,
                deadline: (now + INITIAL_WAIT_MS * NANOS_PER_MS) as u128,
                adoption_ms: 0,
                stage: SpacesStage::Initial,
            }),
            r.1 is TakeSnapshot,
    {
        (
            SpacesRun {
                timeout_ms,
                start: now,
                deadline: now as u128 + ms(INITIAL_WAIT_MS),
                adoption_ms: 0,
                stage: SpacesStage::Initial,
            },
            SpacesAction::TakeSnapshot,
        )
    }

    fn fail(&mut self, e: Error) -> (r: SpacesAction)
        ensures
            final(self).stage is Over,
            r == SpacesAction::Finish(Err(e)),
    {
        self.stage = SpacesStage::Over;
        SpacesAction::Finish(Err(e))
    }

    fn on_adopting(&mut self, windows: &Vec<SpaceWindow>, now: u64) -> (r: SpacesAction)
        requires
            old(self).stage is Adopting,
        ensures
            spaces_answer(*old(self), SpacesEvent::Snapshot(*windows), now, *final(self), r),
    {
        if shows_second_space(windows) {
            let took: u64 = elapsed_ms(self.start, now);
            if took > ADOPTION_BUDGET_MS {
                let mut s = "space adoption exceeded budget: ".to_owned();
                s.append(decimal(took).as_str());
                s.append("ms (budget ");
                s.append(decimal(ADOPTION_BUDGET_MS).as_str());
                s.append("ms)");
                return self.fail(Error::InvalidState(s));
            }
            self.adoption_ms = took;
            self.stage = SpacesStage::Checking;
            return SpacesAction::TakeSnapshot;
        }
        if now as u128 >= self.deadline {
            return self.fail(Error::invalid("world did not adopt new active space within timeout"));
        }
        SpacesAction::PauseAndSnapshot(5)
    }

    /// Take in what was learned.
    pub fn next(&mut self, event: SpacesEvent, now: u64) -> (r: SpacesAction)
        ensures
            spaces_answer(*old(self), event, now, *final(self), r),
    {
        match self.stage {
            SpacesStage::Initial => match event {
                SpacesEvent::Snapshot(windows) => {
                    if shows_first_space(&windows) {
                        self.stage = SpacesStage::Switching;
                        return SpacesAction::SwitchSpace;
                    }
                    if now as u128 >= self.deadline {
                        return self.fail(
                            Error::invalid("initial world snapshot missing expected windows"),
                        );
                    }
                    SpacesAction::PauseAndSnapshot(5)
                },
                _ => SpacesAction::TakeSnapshot,
            },
            SpacesStage::Switching => {
                self.start = now;
                self.deadline = now as u128 + ms(self.timeout_ms);
                self.stage = SpacesStage::Adopting;
                SpacesAction::TakeSnapshot
            },
            SpacesStage::Adopting => match event {
                SpacesEvent::Snapshot(windows) => self.on_adopting(&windows, now),
                _ => SpacesAction::TakeSnapshot,
            },
            SpacesStage::Checking => match event {
                SpacesEvent::Snapshot(windows) => match judge_spaces(&windows) {
                    Err(e) => self.fail(e),
                    Ok(()) => {
                        self.stage = SpacesStage::Measuring;
                        SpacesAction::AskStatus
                    },
                },
                _ => SpacesAction::TakeSnapshot,
            },
            SpacesStage::Measuring => match event {
                SpacesEvent::Status(tick, poll) => {
                    if tick > ADOPTION_BUDGET_MS {
                        return self.fail(over_budget("world tick exceeded budget: ", tick));
                    }
                    if poll > ADOPTION_BUDGET_MS {
                        return self.fail(
                            over_budget("world poll interval exceeded budget: ", poll),
                        );
                    }
                    self.stage = SpacesStage::Over;
                    SpacesAction::Finish(
                        Ok(
                            WorldSpacesMetrics {
                                adoption_ms: self.adoption_ms,
                                last_tick_ms: tick,
                                current_poll_ms: poll,
                            },
                        ),
                    )
                },
                _ => SpacesAction::AskStatus,
            },
            SpacesStage::Over => SpacesAction::Finish(Err(Error::invalid("the run is over"))),
        }
    }
}

/// Whether a run has measured the adoption within its budget, once it is past it.
pub open spec fn spaces_sound(run: SpacesRun) -> bool {
    run.stage is Checking || run.stage is Measuring ==> run.adoption_ms <= ADOPTION_BUDGET_MS
}

/// A run that ends well has kept every budget.
pub proof fn ending_well_keeps_the_budgets(
    before: SpacesRun,
    event: SpacesEvent,
    now: u64,
    after: SpacesRun,
    action: SpacesAction,
)
    requires
        spaces_sound(before),
        spaces_answer(before, event, now, after, action),
    ensures
        spaces_sound(after),
        action matches SpacesAction::Finish(Ok(m)) ==> m.adoption_ms <= ADOPTION_BUDGET_MS
            && m.last_tick_ms <= ADOPTION_BUDGET_MS && m.current_poll_ms <= ADOPTION_BUDGET_MS,
{
}

} // verus!
