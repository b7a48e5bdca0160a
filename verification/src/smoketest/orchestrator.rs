//! Runs of many tests, each in a process of its own under a watchdog.

use vstd::prelude::*;
use vstd::string::*;

use crate::smoketest::config::{ms, NANOS_PER_MS, RETRY_DELAY_MS};
use crate::smoketest::repeat::{is_space, space};
use crate::text::{chars_of, dec, decimal, string_of, texts, trimmed_end};

verus! {

/// The heading of a test.
pub fn heading(title: &str) -> (r: String)
    ensures
        r@ == "\n==> "@ + title@,
{
    let mut s = "\n==> ".to_owned();
    s.append(title);
    s
}

/// The log filter of child processes.
pub fn log_config_for_child() -> (r: &'static str)
    ensures
        r@ == "info,hotki=info,hotki_server=info,hotki_engine=warn,mac_winops=info,mac_hotkey=info,mac_focus_watcher=info,mrpc::connection=off"@,
{
    "info,hotki=info,hotki_server=info,hotki_engine=warn,mac_winops=info,mac_hotkey=info,mac_focus_watcher=info,mrpc::connection=off"
}

/// What becomes of a child's output.
#[derive(Debug, Clone, Copy, PartialEq, Eq, Structural)]
pub enum SubtestIo {
    /// It goes where the parent's goes.
    Inherit {
        /// Whether the child is asked for logs.
        logs: bool,
    },
    /// It is captured, and the child is asked to be quiet.
    CaptureQuiet,
}

impl SubtestIo {
    /// Whether the output goes where the parent's goes.
    pub fn inherits_stdio(&self) -> (r: bool)
        ensures
            r <==> self is Inherit,
    {
        matches!(self, SubtestIo::Inherit { .. })
    }

    /// Whether the output is captured.
    pub fn quiet_capture(&self) -> (r: bool)
        ensures
            r <==> self is CaptureQuiet,
    {
        matches!(self, SubtestIo::CaptureQuiet)
    }

    /// Whether the child is asked for logs.
    pub fn logs_enabled(&self) -> (r: bool)
        ensures
            r <==> *self == (SubtestIo::Inherit { logs: true }),
    {
        matches!(self, SubtestIo::Inherit { logs: true })
    }
}

/// Arguments of a child that runs one test.
pub open spec fn subtest_args_spec(
    subcmd: Seq<char>,
    duration_ms: u64,
    timeout_ms: u64,
    extra: Seq<Seq<char>>,
    io: SubtestIo,
) -> Seq<Seq<char>> {
    (if io is CaptureQuiet {
        seq!["--quiet"@, "--no-warn"@]
    } else {
        Seq::empty()
    }) + seq!["--duration"@, dec(duration_ms as nat), "--timeout"@, dec(timeout_ms as nat)] + (
    if io == (SubtestIo::Inherit { logs: true }) {
        seq!["--logs"@]
    } else {
        Seq::empty()
    }) + seq![subcmd] + extra
}

/// Arguments of a child that runs one test.
pub fn subtest_args(
    subcmd: &str,
    duration_ms: u64,
    timeout_ms: u64,
    extra: &Vec<String>,
    io: SubtestIo,
) -> (r: Vec<String>)
    ensures
        texts(r@) == subtest_args_spec(subcmd@, duration_ms, timeout_ms, texts(extra@), io),
{
    let mut args: Vec<String> = Vec::new();
    if io.quiet_capture() {
        args.push("--quiet".to_owned());
        args.push("--no-warn".to_owned());
    }
    args.push("--duration".to_owned());
    args.push(decimal(duration_ms));
    args.push("--timeout".to_owned());
    args.push(decimal(timeout_ms));
    if io.logs_enabled() {
        args.push("--logs".to_owned());
    }
    args.push(subcmd.to_owned());
    let ghost start = texts(args@);
    assert(start =~= subtest_args_spec(subcmd@, duration_ms, timeout_ms, Seq::empty(), io));
    let mut i: usize = 0;
    while i < extra.len()
        invariant
            i <= extra@.len(),
            texts(args@) == start + texts(extra@).take(i as int),
        decreases extra@.len() - i,
    {
        let ghost before = texts(args@);
        args.push(extra[i].clone());
        assert(texts(args@) =~= before.push(extra@[i as int]@));
        assert(texts(extra@)[i as int] == extra@[i as int]@);
        assert(texts(args@) =~= start + texts(extra@).take(i + 1));
        i = i + 1;
    }
    assert(texts(extra@).take(i as int) =~= texts(extra@));
    assert(texts(args@) =~= subtest_args_spec(
        subcmd@,
        duration_ms,
        timeout_ms,
        texts(extra@),
        io,
    ));
    args
}

/// The failure to find the program.
pub fn unresolved_message(why: &str) -> (r: String)
    ensures
        r@ == "orchestrator: failed to resolve current_exe: "@ + why@,
{
    let mut s = "orchestrator: failed to resolve current_exe: ".to_owned();
    s.append(why);
    s
}

/// The failure to start a child.
pub fn unspawned_message(subcmd: &str, why: &str) -> (r: String)
    ensures
        r@ == "orchestrator: failed to spawn subtest '"@ + subcmd@ + "': "@ + why@,
{
    let mut s = "orchestrator: failed to spawn subtest '".to_owned();
    s.append(subcmd);
    s.append("': ");
    s.append(why);
    s
}

/// How long a child may take beyond its own allowance, in milliseconds.
pub const WATCHDOG_OVERHEAD_MS: u64 = 15_000;

/// What a child is doing.
#[derive(Debug, Clone, Copy, PartialEq, Eq, Structural)]
pub enum ChildState {
    /// It has ended, well or not.
    Exited(bool),
    /// It is running.
    Running,
    /// It could not be asked.
    Unknown,
}

/// What to do about a child.
#[derive(Debug, Clone, Copy, PartialEq, Eq, Structural)]
pub enum WatchStep {
    /// It is over: whether the test has passed.
    Over(bool),
    /// End the child and collect it; the test has failed.
    KillAndReap,
    /// Look again after milliseconds.
    Pause(u64),
}

/// A watchdog.
#[derive(Debug, Clone, Copy, PartialEq, Eq, Structural)]
pub struct Watchdog {
    /// When the child has to be done.
    pub deadline: u128,
}

impl Watchdog {
    /// A watchdog over a child with an allowance, some overhead and some more.
    pub fn start(timeout_ms: u64, overhead_ms: u64, extra_ms: u64, now: u64) -> (r: Self)
        ensures
            r.deadline == now + (timeout_ms + overhead_ms + extra_ms) * NANOS_PER_MS,
    {
        let a: u128 = ms(timeout_ms);
        let b: u128 = ms(overhead_ms);
        let c: u128 = ms(extra_ms);
        assert((timeout_ms + overhead_ms + extra_ms) * NANOS_PER_MS == timeout_ms * NANOS_PER_MS
            + overhead_ms * NANOS_PER_MS + extra_ms * NANOS_PER_MS) by (nonlinear_arith);
        Watchdog { deadline: now as u128 + a + b + c }
    }

    /// Look at the child.
    pub fn look(&self, state: ChildState, now: u64) -> (r: WatchStep)
        ensures
            r == (match state {
                ChildState::Exited(ok) => WatchStep::Over(ok),
                ChildState::Unknown => WatchStep::Over(false),
                ChildState::Running => if now >= self.deadline {
                    WatchStep::KillAndReap
                } else {
                    WatchStep::Pause(RETRY_DELAY_MS)
                },
            }),
    {
        match state {
            ChildState::Exited(ok) => WatchStep::Over(ok),
            ChildState::Unknown => WatchStep::Over(false),
            ChildState::Running => {
                if now as u128 >= self.deadline {
                    WatchStep::KillAndReap
                } else {
                    WatchStep::Pause(RETRY_DELAY_MS)
                }
            },
        }
    }
}

/// Whether a character is white space.
pub open spec fn white() -> spec_fn(char) -> bool {
    |c: char| is_space(c)
}

/// A text without white space at its end.
pub fn trim_end(s: &str) -> (r: String)
    ensures
        r@ == trimmed_end(s@, white()),
{
    let mut v = chars_of(s);
    while v.len() > 0 && space(v[v.len() - 1])
        invariant
            trimmed_end(s@, white()) == trimmed_end(v@, white()),
        decreases v.len(),
    {
        let ghost before = v@;
        let _ = v.pop();
        assert(v@ =~= before.drop_last());
    }
    string_of(&v)
}

/// Captured output, as it is shown after a failure.
pub open spec fn streams_text(stdout: Seq<char>, stderr: Seq<char>) -> Seq<Seq<char>> {
    let out = trimmed_end(stdout, white());
    let err = trimmed_end(stderr, white());
    (if err.len() > 0 {
        seq!["--- stderr ---\n"@ + err]
    } else {
        Seq::empty()
    }) + (if out.len() > 0 {
        seq!["--- stdout ---\n"@ + out]
    } else {
        Seq::empty()
    })
}

/// Captured output, as it is shown after a failure: errors first, and nothing for what
/// is empty.
pub fn captured_streams(stdout: &str, stderr: &str) -> (r: Vec<String>)
    ensures
        texts(r@) == streams_text(stdout@, stderr@),
{
    let out = trim_end(stdout);
    let err = trim_end(stderr);
    let mut lines: Vec<String> = Vec::new();
    if err.as_str().unicode_len() > 0 {
        let mut s = "--- stderr ---\n".to_owned();
        s.append(err.as_str());
        lines.push(s);
    }
    if out.as_str().unicode_len() > 0 {
        let mut s = "--- stdout ---\n".to_owned();
        s.append(out.as_str());
        lines.push(s);
    }
    assert(texts(lines@) =~= streams_text(stdout@, stderr@));
    lines
}

/// Settings of a placement test.
#[derive(Debug, Clone, Copy, PartialEq, Eq, Structural)]
pub struct PlaceFlexSettings {
    /// Columns of the grid.
    pub cols: u32,
    /// Rows of the grid.
    pub rows: u32,
    /// Column of the cell.
    pub col: u32,
    /// Row of the cell.
    pub row: u32,
    /// Whether the size is set before the position.
    pub force_size_pos: bool,
    /// Whether only the position is set before the size.
    pub pos_first_only: bool,
    /// Whether the window is shrunk, moved and grown.
    pub force_shrink_move_grow: bool,
}

/// Arguments of a placement test.
pub open spec fn place_flex_args_spec(cfg: PlaceFlexSettings) -> Seq<Seq<char>> {
    seq![
        "place-flex"@,
        "--cols"@,
        dec(cfg.cols as nat),
        "--rows"@,
        dec(cfg.rows as nat),
        "--col"@,
        dec(cfg.col as nat),
        "--row"@,
        dec(cfg.row as nat),
    ] + (if cfg.force_size_pos {
        seq!["--force-size-pos"@]
    } else {
        Seq::empty()
    }) + (if cfg.pos_first_only {
        seq!["--pos-first-only"@]
    } else {
        Seq::empty()
    }) + (if cfg.force_shrink_move_grow {
        seq!["--force-shrink-move-grow"@]
    } else {
        Seq::empty()
    })
}

/// Arguments of a placement test.
pub fn place_flex_args(cfg: &PlaceFlexSettings) -> (r: Vec<String>)
    ensures
        texts(r@) == place_flex_args_spec(*cfg),
{
    let mut args = vec![
        "place-flex".to_owned(),
        "--cols".to_owned(),
        decimal(cfg.cols as u64),
        "--rows".to_owned(),
        decimal(cfg.rows as u64),
        "--col".to_owned(),
        decimal(cfg.col as u64),
        "--row".to_owned(),
        decimal(cfg.row as u64),
    ];
    if cfg.force_size_pos {
        args.push("--force-size-pos".to_owned());
    }
    if cfg.pos_first_only {
        args.push("--pos-first-only".to_owned());
    }
    if cfg.force_shrink_move_grow {
        args.push("--force-shrink-move-grow".to_owned());
    }
    assert(texts(args@) =~= place_flex_args_spec(*cfg));
    args
}

/// A test of a run.
#[derive(Debug, Clone, Copy, PartialEq, Eq)]
pub struct PlannedTest {
    /// Name of the test.
    pub name: &'static str,
    /// How long it runs, in milliseconds.
    pub duration_ms: u64,
    /// Its allowance, in milliseconds.
    pub timeout_ms: u64,
    /// What the watchdog adds, in milliseconds.
    pub extra_watchdog_ms: u64,
    /// Whether its failure fails the run.
    pub counts: bool,
    /// Settings of a placement test, and what is said of them.
    pub flex: Option<(PlaceFlexSettings, &'static str)>,
}

/// A test with nothing special about it.
pub open spec fn plain_test(name: &'static str, duration_ms: u64, timeout_ms: u64) -> PlannedTest {
    PlannedTest {
        name,
        duration_ms,
        timeout_ms,
        extra_watchdog_ms: 0,
        counts: true,
        flex: None,
    }
}

/// A sum that stays at its largest value.
pub open spec fn saturated(a: u64, b: u64) -> u64 {
    if a + b > u64::MAX {
        u64::MAX
    } else {
        (a + b) as u64
    }
}

/// A test that may take longer.
pub open spec fn slow_test(
    name: &'static str,
    duration_ms: u64,
    timeout_ms: u64,
    extra_ms: u64,
    counts: bool,
) -> PlannedTest {
    PlannedTest {
        name,
        duration_ms,
        timeout_ms: saturated(timeout_ms, extra_ms),
        extra_watchdog_ms: extra_ms,
        counts,
        flex: None,
    }
}

/// A placement test with settings.
pub open spec fn flex_test(
    duration_ms: u64,
    timeout_ms: u64,
    cell: (u32, u32, u32, u32),
    flags: (bool, bool, bool),
    info: &'static str,
) -> PlannedTest {
    PlannedTest {
        name: "place-flex",
        duration_ms,
        timeout_ms,
        extra_watchdog_ms: 0,
        counts: true,
        flex: Some(
            (
                PlaceFlexSettings {
                    cols: cell.0,
                    rows: cell.1,
                    col: cell.2,
                    row: cell.3,
                    force_size_pos: flags.0,
                    pos_first_only: flags.1,
                    force_shrink_move_grow: flags.2,
                },
                info,
            ),
        ),
    }
}

/// The larger of two numbers.
pub open spec fn most(a: u64, b: u64) -> u64 {
    if a >= b {
        a
    } else {
        b
    }
}

/// All tests, in their order. The ones that only show something do not count.
pub open spec fn all_tests_spec(d: u64, t: u64, min_volume_ms: u64, grid: (u32, u32)) -> Seq<
    PlannedTest,
> {
    seq![
        plain_test("world-status", d, t),
        plain_test("world-ax", d, t),
        plain_test("world-spaces", d, t),
        plain_test("repeat-relay", d, t),
        plain_test("repeat-shell", d, t),
        plain_test("repeat-volume", most(d, min_volume_ms), t),
        plain_test("focus-tracking", d, t),
        plain_test("raise", d, t),
        slow_test("focus-nav", d, t, 10_000, false),
        plain_test("place", d, t),
        plain_test("place-async", d, t),
        plain_test("place-animated", d, t),
        plain_test("place-increments", d, t),
        plain_test("place-term", d, t),
        plain_test("place-move-min", d, t),
        plain_test("place-move-nonresizable", d, t),
        slow_test("place-minimized", d, t, 60_000, true),
        plain_test("place-zoomed", d, t),
        plain_test("place-skip", d, t),
        flex_test(d, t, (2, 2, 1, 1), (true, false, false), "2x2 BR, force size->pos"),
        flex_test(d, t, (grid.0, grid.1, 0, 0), (false, true, false), "TL, pos-first-only"),
        flex_test(d, t, (grid.0, grid.1, 0, 1), (false, false, false), "BL, normal"),
        flex_test(d, t, (2, 2, 1, 1), (false, false, true), "2x2 BR, force shrink->move->grow"),
        plain_test("fullscreen", d, t),
        PlannedTest { counts: false, ..plain_test("ui", d, t) },
        PlannedTest { counts: false, ..plain_test("minui", d, t) },
    ]
}

fn plain(name: &'static str, duration_ms: u64, timeout_ms: u64) -> (r: PlannedTest)
    ensures
        r == plain_test(name, duration_ms, timeout_ms),
{
    PlannedTest {
        name,
        duration_ms,
        timeout_ms,
        extra_watchdog_ms: 0,
        counts: true,
        flex: None,
    }
}

fn shown(name: &'static str, duration_ms: u64, timeout_ms: u64) -> (r: PlannedTest)
    ensures
        r == (PlannedTest { counts: false, ..plain_test(name, duration_ms, timeout_ms) }),
{
    PlannedTest {
        name,
        duration_ms,
        timeout_ms,
        extra_watchdog_ms: 0,
        counts: false,
        flex: None,
    }
}

fn slow(name: &'static str, duration_ms: u64, timeout_ms: u64, extra_ms: u64, counts: bool) -> (r:
    PlannedTest)
    ensures
        r == slow_test(name, duration_ms, timeout_ms, extra_ms, counts),
{
    let longer: u64 = match timeout_ms.checked_add(extra_ms) {
        Some(n) => n,
        None => u64::MAX,
    };
    PlannedTest {
        name,
        duration_ms,
        timeout_ms: longer,
        extra_watchdog_ms: extra_ms,
        counts,
        flex: None,
    }
}

fn flexible(
    duration_ms: u64,
    timeout_ms: u64,
    cell: (u32, u32, u32, u32),
    flags: (bool, bool, bool),
    info: &'static str,
) -> (r: PlannedTest)
    ensures
        r == flex_test(duration_ms, timeout_ms, cell, flags, info),
{
    PlannedTest {
        name: "place-flex",
        duration_ms,
        timeout_ms,
        extra_watchdog_ms: 0,
        counts: true,
        flex: Some(
            (
                PlaceFlexSettings {
                    cols: cell.0,
                    rows: cell.1,
                    col: cell.2,
                    row: cell.3,
                    force_size_pos: flags.0,
                    pos_first_only: flags.1,
                    force_shrink_move_grow: flags.2,
                },
                info,
            ),
        ),
    }
}

/// What is run when all tests are asked for: one simulated test where there is no
/// screen, and else all of them.
pub fn run_all_tests(
    duration_ms: u64,
    timeout_ms: u64,
    fake_mode: bool,
    min_volume_ms: u64,
    grid: (u32, u32),
) -> (r: Vec<PlannedTest>)
    ensures
        r@ == if fake_mode {
            seq![plain_test("place-fake", duration_ms, timeout_ms)]
        } else {
            all_tests_spec(duration_ms, timeout_ms, min_volume_ms, grid)
        },
{
    let d: u64 = duration_ms;
    let t: u64 = timeout_ms;
    if fake_mode {
        let r = vec![plain("place-fake", d, t)];
        assert(r@ =~= seq![plain_test("place-fake", duration_ms, timeout_ms)]);
        return r;
    }
    let volume: u64 = if d >= min_volume_ms {
        d
    } else {
        min_volume_ms
    };
    let r = vec![
        plain("world-status", d, t),
        plain("world-ax", d, t),
        plain("world-spaces", d, t),
        plain("repeat-relay", d, t),
        plain("repeat-shell", d, t),
        plain("repeat-volume", volume, t),
        plain("focus-tracking", d, t),
        plain("raise", d, t),
        slow("focus-nav", d, t, 10_000, false),
        plain("place", d, t),
        plain("place-async", d, t),
        plain("place-animated", d, t),
        plain("place-increments", d, t),
        plain("place-term", d, t),
        plain("place-move-min", d, t),
        plain("place-move-nonresizable", d, t),
        slow("place-minimized", d, t, 60_000, true),
        plain("place-zoomed", d, t),
        plain("place-skip", d, t),
        flexible(d, t, (2, 2, 1, 1), (true, false, false), "2x2 BR, force size->pos"),
        flexible(d, t, (grid.0, grid.1, 0, 0), (false, true, false), "TL, pos-first-only"),
        flexible(d, t, (grid.0, grid.1, 0, 1), (false, false, false), "BL, normal"),
        flexible(d, t, (2, 2, 1, 1), (false, false, true), "2x2 BR, force shrink->move->grow"),
        plain("fullscreen", d, t),
        shown("ui", d, t),
        shown("minui", d, t),
    ];
    assert(r@ =~= all_tests_spec(d, t, min_volume_ms, grid));
    r
}

/// Whether the overlay is shown during a run of all tests.
pub fn wants_overlay(warn_overlay: bool, fake_mode: bool) -> (r: bool)
    ensures
        r == (warn_overlay && !fake_mode),
{
    warn_overlay && !fake_mode
}

/// Whether every test that counts has passed. A test without a result has not.
pub open spec fn run_passed(plan: Seq<PlannedTest>, passed: Seq<bool>) -> bool {
    forall|i: int|
        0 <= i < plan.len() && (#[trigger] plan[i]).counts ==> i < passed.len() && passed[i]
}

/// The exit code of a run of all tests.
pub fn exit_code(plan: &Vec<PlannedTest>, passed: &Vec<bool>) -> (r: i32)
    ensures
        r == if run_passed(plan@, passed@) {
            0i32
        } else {
            1i32
        },
{
    let mut i: usize = 0;
    while i < plan.len()
        invariant
            i <= plan@.len(),
            forall|j: int|
                0 <= j < i && (#[trigger] plan@[j]).counts ==> j < passed@.len() && passed@[j],
        decreases plan@.len() - i,
    {
        if plan[i].counts && (i >= passed.len() || !passed[i]) {
            assert(plan@[i as int].counts);
            return 1;
        }
        i = i + 1;
    }
    0
}

/// A test that can be asked for by name.
#[derive(Debug, Clone, Copy, PartialEq, Eq, Structural)]
pub enum SeqTest {
    /// Relayed keys.
    RepeatRelay,
    /// Shell commands.
    RepeatShell,
    /// Changes of the volume.
    RepeatVolume,
    /// Tracking of the focus.
    Focus,
    /// Raising windows.
    Raise,
    /// Hiding windows.
    Hide,
    /// Placing windows.
    Place,
    /// Placing windows with a delay.
    PlaceAsync,
    /// Placing windows that move slowly.
    PlaceAnimated,
    /// Filling the screen.
    Fullscreen,
    /// The full HUD.
    Ui,
    /// The compact HUD.
    Minui,
    /// Simulated placing.
    PlaceFake,
    /// Spaces.
    WorldSpaces,
}

impl SeqTest {
    /// Name of the test.
    pub open spec fn subcmd(self) -> &'static str {
        match self {
            SeqTest::RepeatRelay => "repeat-relay",
            SeqTest::RepeatShell => "repeat-shell",
            SeqTest::RepeatVolume => "repeat-volume",
            SeqTest::Focus => "focus-tracking",
            SeqTest::Raise => "raise",
            SeqTest::Hide => "hide",
            SeqTest::Place => "place",
            SeqTest::PlaceAsync => "place-async",
            SeqTest::PlaceAnimated => "place-animated",
            SeqTest::Fullscreen => "fullscreen",
            SeqTest::Ui => "ui",
            SeqTest::Minui => "minui",
            SeqTest::PlaceFake => "place-fake",
            SeqTest::WorldSpaces => "world-spaces",
        }
    }
}

/// Name of a test.
pub fn to_subcmd(t: SeqTest) -> (r: &'static str)
    ensures
        r == t.subcmd(),
{
    match t {
        SeqTest::RepeatRelay => "repeat-relay",
        SeqTest::RepeatShell => "repeat-shell",
        SeqTest::RepeatVolume => "repeat-volume",
        SeqTest::Focus => "focus-tracking",
        SeqTest::Raise => "raise",
        SeqTest::Hide => "hide",
        SeqTest::Place => "place",
        SeqTest::PlaceAsync => "place-async",
        SeqTest::PlaceAnimated => "place-animated",
        SeqTest::Fullscreen => "fullscreen",
        SeqTest::Ui => "ui",
        SeqTest::Minui => "minui",
        SeqTest::PlaceFake => "place-fake",
        SeqTest::WorldSpaces => "world-spaces",
    }
}

/// What is run for a test that was asked for.
pub open spec fn sequence_test(t: SeqTest, duration_ms: u64, timeout_ms: u64, min_volume_ms: u64) -> PlannedTest {
    plain_test(
        t.subcmd(),
        if t is RepeatVolume {
            most(duration_ms, min_volume_ms)
        } else {
            duration_ms
        },
        timeout_ms,
    )
}

/// What is run for tests that were asked for, one after the other until one fails; the
/// exit code is two when none was asked for.
pub fn run_sequence_tests(
    tests: &Vec<SeqTest>,
    duration_ms: u64,
    timeout_ms: u64,
    min_volume_ms: u64,
) -> (r: Result<Vec<PlannedTest>, i32>)
    ensures
        match r {
            Err(code) => tests@.len() == 0 && code == 2,
            Ok(plan) => tests@.len() > 0 && plan@ == tests@.map_values(
                |t: SeqTest| sequence_test(t, duration_ms, timeout_ms, min_volume_ms),
            ),
        },
{
    if tests.len() == 0 {
        return Err(2);
    }
    let ghost planned = |t: SeqTest| sequence_test(t, duration_ms, timeout_ms, min_volume_ms);
    let mut plan: Vec<PlannedTest> = Vec::new();
    let mut i: usize = 0;
    while i < tests.len()
        invariant
            i <= tests@.len(),
            planned == |t: SeqTest| sequence_test(t, duration_ms, timeout_ms, min_volume_ms),
            plan@ == tests@.take(i as int).map_values(planned),
        decreases tests@.len() - i,
    {
        let t = tests[i];
        let d: u64 = if matches!(t, SeqTest::RepeatVolume) && duration_ms < min_volume_ms {
            min_volume_ms
        } else {
            duration_ms
        };
        plan.push(plain(to_subcmd(t), d, timeout_ms));
        assert(plan@ =~= tests@.take(i + 1).map_values(planned));
        i = i + 1;
    }
    assert(tests@.take(i as int) =~= tests@);
    Ok(plan)
}

/// A child that runs on is ended once its time is up.
pub proof fn hung_children_are_ended(dog: Watchdog, now: u64, step: WatchStep)
    requires
        now >= dog.deadline,
        call_ensures(Watchdog::look, (&dog, ChildState::Running, now), step),
    ensures
        step is KillAndReap,
{
}

/// A failure of a test that only shows something does not fail a run.
pub proof fn shows_do_not_fail_a_run(
    plan: Seq<PlannedTest>,
    passed: Seq<bool>,
    i: int,
    value: bool,
)
    requires
        0 <= i < plan.len(),
        i < passed.len(),
        !plan[i].counts,
    ensures
        run_passed(plan, passed) == run_passed(plan, passed.update(i, value)),
{
    let other = passed.update(i, value);
    assert forall|j: int| 0 <= j < plan.len() && j < passed.len() && (#[trigger] plan[j]).counts
        && run_passed(plan, other) implies passed[j] by {
        assert(other[j] == passed[j]);
    }
    assert forall|j: int| 0 <= j < plan.len() && j < other.len() && (#[trigger] plan[j]).counts
        && run_passed(plan, passed) implies other[j] by {
        assert(other[j] == passed[j]);
    }
}

} // verus!
