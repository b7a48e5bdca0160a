//! Plans of the placement cases: how each helper window is set up and the steps
//! that a case goes through.

use vstd::prelude::*;

use crate::place::common::{
    FallbackRule, OptionsView, PlaceAttemptOptions, PlacementDecisionHooks, RetryLimits,
};
use crate::place::grid::MoveDir;
use crate::place::metrics::PlacementCountersSnapshot;
use crate::smoketest::frames::{GridCell, RectPx};

verus! {

/// How a helper window is brought to the front.
#[derive(Debug, Clone, Copy, PartialEq, Eq, Structural)]
pub enum RaiseStrategy {
    /// Raise it until a deadline.
    SmartRaise {
        /// Allowance in milliseconds.
        deadline_ms: u64,
    },
    /// Activate its application.
    AppActivate,
    /// Leave the front window alone.
    KeepFrontWindow,
}

/// What happens to a minimized helper window.
#[derive(Debug, Clone, Copy, PartialEq, Eq, Structural)]
pub enum MinimizedPolicy {
    /// It is restored.
    AutoUnminimize,
    /// Placement waits until it is restored.
    DeferUntilUnminimized,
}

/// How a helper window is configured; what is not set keeps its default.
#[derive(Debug, Clone, Copy, PartialEq, Eq)]
pub struct HelperConfig {
    /// Lifetime in milliseconds.
    pub time_ms: u64,
    /// Text shown in the window.
    pub label_text: Option<&'static str>,
    /// Start in the Dock.
    pub start_minimized: bool,
    /// Start zoomed.
    pub start_zoomed: bool,
    /// Duration of an animated move in milliseconds.
    pub tween_ms: u64,
    /// Delay before a frame is applied in milliseconds.
    pub delay_apply_ms: u64,
    /// Frame to apply after the delay.
    pub apply_target: Option<RectPx>,
    /// Cell to apply after the delay.
    pub apply_grid: Option<GridCell>,
    /// Cell to start in.
    pub grid: Option<GridCell>,
    /// Size to start with.
    pub size: Option<(i32, i32)>,
    /// Smallest size.
    pub min_size: Option<(i32, i32)>,
    /// Steps that sizes are rounded to.
    pub step_size: Option<(i32, i32)>,
    /// The window cannot be moved.
    pub panel_nonmovable: bool,
    /// The window cannot be resized.
    pub panel_nonresizable: bool,
    /// The window shows a sheet.
    pub attach_sheet: bool,
    /// How the window is raised.
    pub raise: Option<RaiseStrategy>,
    /// What happens when it is minimized.
    pub minimized: Option<MinimizedPolicy>,
    /// Whether moves are animated.
    pub animate: Option<bool>,
}

impl HelperConfig {
    /// A helper with a lifetime and nothing else set.
    pub open spec fn plain(time_ms: u64) -> HelperConfig {
        HelperConfig {
            time_ms,
            label_text: None,
            start_minimized: false,
            start_zoomed: false,
            tween_ms: 0,
            delay_apply_ms: 0,
            apply_target: None,
            apply_grid: None,
            grid: None,
            size: None,
            min_size: None,
            step_size: None,
            panel_nonmovable: false,
            panel_nonresizable: false,
            attach_sheet: false,
            raise: None,
            minimized: None,
            animate: None,
        }
    }

    /// A helper with a lifetime and nothing else set.
    pub fn lasting(time_ms: u64) -> (r: HelperConfig)
        ensures
            r == HelperConfig::plain(time_ms),
    {
        HelperConfig {
            time_ms,
            label_text: None,
            start_minimized: false,
            start_zoomed: false,
            tween_ms: 0,
            delay_apply_ms: 0,
            apply_target: None,
            apply_grid: None,
            grid: None,
            size: None,
            min_size: None,
            step_size: None,
            panel_nonmovable: false,
            panel_nonresizable: false,
            attach_sheet: false,
            raise: None,
            minimized: None,
            animate: None,
        }
    }
}

/// Settings that the cases share.
#[derive(Debug, Clone, Copy, PartialEq, Eq, Structural)]
pub struct CaseTuning {
    /// Delay after a UI action in milliseconds.
    pub ui_action_delay_ms: u64,
    /// Columns of the standard grid.
    pub grid_cols: u32,
    /// Rows of the standard grid.
    pub grid_rows: u32,
    /// Tolerance in pixels.
    pub eps: i32,
}

impl CaseTuning {
    /// Whether the standard grid has a cell.
    pub open spec fn usable(self) -> bool {
        self.grid_cols > 0 && self.grid_rows > 0
    }

    /// A cell of the standard grid.
    pub open spec fn cell(self, col: u32, row: u32) -> GridCell {
        GridCell { cols: self.grid_cols, rows: self.grid_rows, col, row }
    }
}

/// A multiple of a delay, with a lower bound.
pub open spec fn scaled_deadline(delay_ms: u64, factor: u64, least_ms: u64) -> u64 {
    let product = delay_ms * factor;
    if product > u64::MAX {
        u64::MAX
    } else if product < least_ms {
        least_ms
    } else {
        product as u64
    }
}

/// A multiple of a delay, with a lower bound.
pub fn deadline_for(delay_ms: u64, factor: u64, least_ms: u64) -> (r: u64)
    ensures
        r == scaled_deadline(delay_ms, factor, least_ms),
{
    assert(delay_ms * factor <= u64::MAX * u64::MAX) by (nonlinear_arith)
        requires
            delay_ms <= u64::MAX,
            factor <= u64::MAX,
    ;
    let product: u128 = delay_ms as u128 * factor as u128;
    if product > u64::MAX as u128 {
        u64::MAX
    } else if product < least_ms as u128 {
        least_ms
    } else {
        product as u64
    }
}

/// The three stages of a case.
#[derive(Debug, Clone, Copy, PartialEq, Eq, Structural)]
pub enum CaseStage {
    /// Helpers are started.
    Setup,
    /// The behaviour under test is triggered.
    Action,
    /// The outcome is checked.
    Settle,
}

/// Options of a placement request.
#[derive(Debug, Clone, Copy, PartialEq, Eq, Structural)]
pub enum RequestOptions {
    /// The defaults.
    Standard,
    /// Retry in the opposite order whatever the first attempt gave.
    ForceSecond,
    /// Shrink, move and grow whatever the other attempts gave.
    ForceFallback,
}

/// The attempt options of a request.
pub open spec fn options_for(kind: RequestOptions, base: OptionsView<PlacementDecisionHooks>) -> OptionsView<
    PlacementDecisionHooks,
> {
    match kind {
        RequestOptions::Standard => base,
        RequestOptions::ForceSecond => OptionsView {
            force_second_attempt: true,
            retry_limits: RetryLimits {
                max_axis_nudges: 0,
                max_opposite_order: 0,
                max_anchor_attempts: 0,
                max_fallback_runs: 1,
            },
            ..base
        },
        RequestOptions::ForceFallback => OptionsView {
            force_second_attempt: true,
            hooks: PlacementDecisionHooks {
                fallback: FallbackRule { forced: true, last: true },
                ..base.hooks
            },
            ..base
        },
    }
}

/// The attempt options of a request, made from the defaults.
pub fn attempt_options(
    kind: RequestOptions,
    base: PlaceAttemptOptions<PlacementDecisionHooks>,
) -> (r: PlaceAttemptOptions<PlacementDecisionHooks>)
    ensures
        r@ == options_for(kind, base@),
{
    match kind {
        RequestOptions::Standard => base,
        RequestOptions::ForceSecond => base.with_force_second_attempt(true).with_retry_limits(
            RetryLimits::new(0, 0, 0, 1),
        ),
        RequestOptions::ForceFallback => base.with_force_second_attempt(true).with_fallback_hook(
            FallbackRule { forced: true, last: true },
        ),
    }
}

/// What the final frame of a move has to satisfy besides its position.
#[derive(Debug, Clone, Copy, PartialEq, Eq, Structural)]
pub enum AnchorRule {
    /// The width fits and the height is no smaller.
    FixedWidth,
    /// Neither width nor height is smaller.
    AtLeast,
}

/// What the counters have to say after a placement.
#[derive(Debug, Clone, Copy, PartialEq, Eq, Structural)]
pub enum CounterRule {
    /// No retry in the opposite order and no fallback.
    FirstOrderOnly,
    /// A retry in the opposite order and no fallback.
    OppositeOrder,
    /// A fallback.
    Fallback,
}

/// One step of a placement case.
#[derive(Debug, Clone, Copy)]
pub enum Step {
    /// Enter a stage.
    Enter(CaseStage),
    /// Set the placement counters to zero.
    ResetCounters,
    /// Let helper windows run, a number of times.
    Pump {
        /// How often.
        rounds: u32,
        /// Pause after each time in milliseconds.
        pause_ms: u64,
    },
    /// Let helper windows run for a while.
    PumpFor {
        /// How long in milliseconds.
        total_ms: u64,
        /// Pause after each time in milliseconds.
        nap_ms: u64,
    },
    /// Start the helper window and find it.
    Spawn,
    /// Wait for the first frames of the window.
    AwaitFrames,
    /// Read the frames of the window now.
    ReadFrames {
        /// What to say when there are none.
        missing: &'static str,
    },
    /// Expect the window in a cell of its screen.
    ExpectCell(GridCell),
    /// Expect the window where it is.
    ExpectCurrent,
    /// Write the expected rectangle down.
    WriteExpected,
    /// Bring the helper to the front.
    Promote {
        /// Whether the time that this takes is noted.
        timed: bool,
    },
    /// Check that the helper is still in front.
    Reassert,
    /// Wait until the window is on the active space.
    AwaitActiveSpace {
        /// Allowance in milliseconds.
        timeout_ms: u64,
    },
    /// Ask for a placement in a cell.
    RequestGrid {
        /// The cell.
        cell: GridCell,
        /// Options of the request.
        options: RequestOptions,
    },
    /// Ask for a move by one cell.
    RequestMove {
        /// Columns of the grid.
        cols: u32,
        /// Rows of the grid.
        rows: u32,
        /// Where to.
        dir: MoveDir,
    },
    /// Run operations of the main thread, or hold them back.
    DrainMainOps(bool),
    /// Drop the operations that are held back.
    DropMainOps,
    /// Wait until the window is where it is expected.
    AwaitExpected,
    /// Wait until the window is anchored where it is expected.
    AwaitAnchored(AnchorRule),
    /// After a failed wait, read the frames once more.
    FallbackFrames,
    /// Watch that the window stays where it is expected.
    HoldStill {
        /// How long in milliseconds.
        watch_ms: u64,
    },
    /// Read the placement counters.
    ReadCounters,
    /// Write the placement counters down.
    WriteCounters,
    /// Judge the placement counters.
    JudgeCounters(CounterRule),
    /// Write the time that each phase took down.
    WriteBudget,
    /// Write what the helper has to say down.
    Diagnostics,
    /// Fail unless the last frame is the expected one.
    AssertFrame,
    /// Fail unless the window ended anchored.
    JudgeAnchored(AnchorRule),
    /// Note expected and observed frame of a cell.
    RecordCell(GridCell),
    /// Write the noted frames down.
    WriteCells {
        /// Ending of the file's name.
        suffix: &'static str,
    },
    /// End the helper.
    Shutdown,
}

/// The plan of a placement case.
#[derive(Debug)]
pub struct CasePlan {
    /// Name under which artifacts are filed.
    pub slug: &'static str,
    /// How the helper is configured.
    pub helper: HelperConfig,
    /// Where the window is expected at first.
    pub expected: RectPx,
    /// Tolerance in pixels.
    pub eps: i32,
    /// The steps.
    pub steps: Vec<Step>,
}

/// A rectangle that stands for one not known yet.
pub open spec fn placeholder() -> RectPx {
    RectPx { x: 0, y: 0, w: 0, h: 0 }
}

/// Setup that expects the window in a cell of its screen.
pub open spec fn setup_in_cell(cell: GridCell) -> Seq<Step> {
    seq![
        Step::Enter(CaseStage::Setup),
        Step::Spawn,
        Step::AwaitFrames,
        Step::ExpectCell(cell),
        Step::WriteExpected,
    ]
}

/// Settling by a wait for the expected frame.
pub open spec fn settle_waiting() -> Seq<Step> {
    seq![
        Step::Enter(CaseStage::Settle),
        Step::AwaitExpected,
        Step::Diagnostics,
        Step::AssertFrame,
        Step::Shutdown,
    ]
}

/// Settling by a look at the frame.
pub open spec fn settle_reading() -> Seq<Step> {
    seq![
        Step::Enter(CaseStage::Settle),
        Step::ReadFrames { missing: "authoritative frame unavailable" },
        Step::Diagnostics,
        Step::AssertFrame,
        Step::Shutdown,
    ]
}

/// A request in the standard way.
pub open spec fn ask(cell: GridCell) -> Step {
    Step::RequestGrid { cell, options: RequestOptions::Standard }
}

fn extend(steps: &mut Vec<Step>, more: Vec<Step>)
    ensures
        final(steps)@ == old(steps)@ + more@,
{
    let mut i: usize = 0;
    while i < more.len()
        invariant
            i <= more@.len(),
            steps@ == old(steps)@ + more@.take(i as int),
        decreases more@.len() - i,
    {
        steps.push(more[i]);
        assert(old(steps)@ + more@.take(i + 1) =~= (old(steps)@ + more@.take(i as int)).push(
            more@[i as int],
        ));
        i = i + 1;
    }
    assert(more@.take(more@.len() as int) =~= more@);
}

fn begin_in_cell(cell: GridCell) -> (r: Vec<Step>)
    ensures
        r@ == setup_in_cell(cell),
{
    let r = vec![
        Step::Enter(CaseStage::Setup),
        Step::Spawn,
        Step::AwaitFrames,
        Step::ExpectCell(cell),
        Step::WriteExpected,
    ];
    assert(r@ =~= setup_in_cell(cell));
    r
}

fn end_waiting() -> (r: Vec<Step>)
    ensures
        r@ == settle_waiting(),
{
    let r = vec![
        Step::Enter(CaseStage::Settle),
        Step::AwaitExpected,
        Step::Diagnostics,
        Step::AssertFrame,
        Step::Shutdown,
    ];
    assert(r@ =~= settle_waiting());
    r
}

fn end_reading() -> (r: Vec<Step>)
    ensures
        r@ == settle_reading(),
{
    let r = vec![
        Step::Enter(CaseStage::Settle),
        Step::ReadFrames { missing: "authoritative frame unavailable" },
        Step::Diagnostics,
        Step::AssertFrame,
        Step::Shutdown,
    ];
    assert(r@ =~= settle_reading());
    r
}

/// A helper that starts minimized is restored and placed.
pub fn place_minimized_defer() -> (r: CasePlan)
    ensures
        r.slug@ == "place.minimized.defer"@,
        r.expected == (RectPx { x: 160, y: 160, w: 540, h: 320 }),
        r.helper == (HelperConfig {
            start_minimized: true,
            apply_target: Some(r.expected),
            raise: Some(RaiseStrategy::AppActivate),
            minimized: Some(MinimizedPolicy::AutoUnminimize),
            animate: Some(false),
            ..HelperConfig::plain(25_000)
        }),
        r.eps == 2,
        r.steps@ == seq![
            Step::Enter(CaseStage::Setup),
            Step::Spawn,
            Step::Enter(CaseStage::Action),
            ask(GridCell { cols: 3, rows: 2, col: 1, row: 0 }),
        ] + settle_waiting(),
{
    let expected = RectPx { x: 160, y: 160, w: 540, h: 320 };
    let mut helper = HelperConfig::lasting(25_000);
    helper.start_minimized = true;
    helper.apply_target = Some(expected);
    helper.raise = Some(RaiseStrategy::AppActivate);
    helper.minimized = Some(MinimizedPolicy::AutoUnminimize);
    helper.animate = Some(false);
    let cell = GridCell { cols: 3, rows: 2, col: 1, row: 0 };
    let mut steps = vec![
        Step::Enter(CaseStage::Setup),
        Step::Spawn,
        Step::Enter(CaseStage::Action),
        Step::RequestGrid { cell, options: RequestOptions::Standard },
    ];
    extend(&mut steps, end_waiting());
    CasePlan { slug: "place.minimized.defer", helper, expected, eps: 2, steps }
}

/// A helper that starts zoomed ends in its cell.
pub fn place_zoomed_normalize(tuning: CaseTuning) -> (r: CasePlan)
    ensures
        r.slug@ == "place.zoomed.normalize"@,
        r.expected == placeholder(),
        r.helper == (HelperConfig {
            label_text: Some("ZOOM"),
            start_zoomed: true,
            grid: Some(tuning.cell(0, 0)),
            raise: Some(
                RaiseStrategy::SmartRaise {
                    deadline_ms: scaled_deadline(tuning.ui_action_delay_ms, 20, 2_000),
                },
            ),
            minimized: Some(MinimizedPolicy::DeferUntilUnminimized),
            animate: Some(false),
            ..HelperConfig::plain(10_000)
        }),
        r.eps == tuning.eps,
        r.steps@ == setup_in_cell(tuning.cell(0, 0)) + seq![
            Step::Enter(CaseStage::Action),
            Step::Promote { timed: false },
            Step::AwaitActiveSpace { timeout_ms: 1_600 },
            ask(tuning.cell(0, 0)),
            Step::Reassert,
        ] + settle_waiting(),
{
    let cell = GridCell { cols: tuning.grid_cols, rows: tuning.grid_rows, col: 0, row: 0 };
    let mut helper = HelperConfig::lasting(10_000);
    helper.label_text = Some("ZOOM");
    helper.start_zoomed = true;
    helper.grid = Some(cell);
    helper.raise = Some(
        RaiseStrategy::SmartRaise {
            deadline_ms: deadline_for(tuning.ui_action_delay_ms, 20, 2_000),
        },
    );
    helper.minimized = Some(MinimizedPolicy::DeferUntilUnminimized);
    helper.animate = Some(false);
    let mut steps = begin_in_cell(cell);
    extend(
        &mut steps,
        vec![
            Step::Enter(CaseStage::Action),
            Step::Promote { timed: false },
            Step::AwaitActiveSpace { timeout_ms: 1_600 },
            Step::RequestGrid { cell, options: RequestOptions::Standard },
            Step::Reassert,
        ],
    );
    extend(&mut steps, end_waiting());
    CasePlan {
        slug: "place.zoomed.normalize",
        helper,
        expected: RectPx { x: 0, y: 0, w: 0, h: 0 },
        eps: tuning.eps,
        steps,
    }
}

/// A helper that animates its moves ends in its cell.
pub fn place_animated_tween() -> (r: CasePlan)
    ensures
        r.slug@ == "place.animated.tween"@,
        r.expected == (RectPx { x: 120, y: 120, w: 600, h: 360 }),
        r.helper == (HelperConfig {
            tween_ms: 180,
            delay_apply_ms: 120,
            apply_target: Some(r.expected),
            raise: Some(RaiseStrategy::AppActivate),
            minimized: Some(MinimizedPolicy::AutoUnminimize),
            animate: Some(true),
            ..HelperConfig::plain(25_000)
        }),
        r.eps == 2,
        r.steps@ == seq![
            Step::Enter(CaseStage::Setup),
            Step::Spawn,
            Step::Enter(CaseStage::Action),
            ask(GridCell { cols: 3, rows: 2, col: 2, row: 0 }),
        ] + settle_waiting(),
{
    let expected = RectPx { x: 120, y: 120, w: 600, h: 360 };
    let mut helper = HelperConfig::lasting(25_000);
    helper.tween_ms = 180;
    helper.delay_apply_ms = 120;
    helper.apply_target = Some(expected);
    helper.raise = Some(RaiseStrategy::AppActivate);
    helper.minimized = Some(MinimizedPolicy::AutoUnminimize);
    helper.animate = Some(true);
    let cell = GridCell { cols: 3, rows: 2, col: 2, row: 0 };
    let mut steps = vec![
        Step::Enter(CaseStage::Setup),
        Step::Spawn,
        Step::Enter(CaseStage::Action),
        Step::RequestGrid { cell, options: RequestOptions::Standard },
    ];
    extend(&mut steps, end_waiting());
    CasePlan { slug: "place.animated.tween", helper, expected, eps: 2, steps }
}

/// A helper that applies frames late ends in its cell.
pub fn place_async_delay() -> (r: CasePlan)
    ensures
        r.slug@ == "place.async.delay"@,
        r.expected == placeholder(),
        r.helper == (HelperConfig {
            delay_apply_ms: 220,
            apply_grid: Some(GridCell { cols: 3, rows: 2, col: 0, row: 1 }),
            raise: Some(RaiseStrategy::AppActivate),
            minimized: Some(MinimizedPolicy::DeferUntilUnminimized),
            animate: Some(false),
            ..HelperConfig::plain(25_000)
        }),
        r.eps == 2,
        r.steps@ == seq![
            Step::Enter(CaseStage::Setup),
            Step::Spawn,
            Step::Promote { timed: false },
            Step::AwaitFrames,
            Step::ExpectCell(GridCell { cols: 3, rows: 2, col: 0, row: 1 }),
            Step::WriteExpected,
            Step::Reassert,
            Step::Enter(CaseStage::Action),
            Step::Promote { timed: false },
            ask(GridCell { cols: 3, rows: 2, col: 0, row: 1 }),
            Step::Reassert,
        ] + settle_waiting(),
{
    let cell = GridCell { cols: 3, rows: 2, col: 0, row: 1 };
    let mut helper = HelperConfig::lasting(25_000);
    helper.delay_apply_ms = 220;
    helper.apply_grid = Some(cell);
    helper.raise = Some(RaiseStrategy::AppActivate);
    helper.minimized = Some(MinimizedPolicy::DeferUntilUnminimized);
    helper.animate = Some(false);
    let mut steps = vec![
        Step::Enter(CaseStage::Setup),
        Step::Spawn,
        Step::Promote { timed: false },
        Step::AwaitFrames,
        Step::ExpectCell(cell),
        Step::WriteExpected,
        Step::Reassert,
        Step::Enter(CaseStage::Action),
        Step::Promote { timed: false },
        Step::RequestGrid { cell, options: RequestOptions::Standard },
        Step::Reassert,
    ];
    extend(&mut steps, end_waiting());
    CasePlan {
        slug: "place.async.delay",
        helper,
        expected: RectPx { x: 0, y: 0, w: 0, h: 0 },
        eps: 2,
        steps,
    }
}

/// A helper that rounds its size like a terminal stays anchored in its cell.
pub fn place_term_anchor(tuning: CaseTuning) -> (r: CasePlan)
    ensures
        r.slug@ == "place.term.anchor"@,
        r.expected == placeholder(),
        r.helper == (HelperConfig {
            label_text: Some("TM"),
            step_size: Some((9, 18)),
            ..HelperConfig::plain(25_000)
        }),
        r.eps == tuning.eps,
        r.steps@ == setup_in_cell(GridCell { cols: 3, rows: 1, col: 0, row: 0 }) + seq![
            Step::Enter(CaseStage::Action),
            ask(GridCell { cols: 3, rows: 1, col: 0, row: 0 }),
            Step::AwaitExpected,
            Step::HoldStill { watch_ms: 320 },
        ] + settle_reading(),
{
    let cell = GridCell { cols: 3, rows: 1, col: 0, row: 0 };
    let mut helper = HelperConfig::lasting(25_000);
    helper.label_text = Some("TM");
    helper.step_size = Some((9, 18));
    let mut steps = begin_in_cell(cell);
    extend(
        &mut steps,
        vec![
            Step::Enter(CaseStage::Action),
            Step::RequestGrid { cell, options: RequestOptions::Standard },
            Step::AwaitExpected,
            Step::HoldStill { watch_ms: 320 },
        ],
    );
    extend(&mut steps, end_reading());
    CasePlan {
        slug: "place.term.anchor",
        helper,
        expected: RectPx { x: 0, y: 0, w: 0, h: 0 },
        eps: tuning.eps,
        steps,
    }
}

/// One scenario of the increments case.
pub open spec fn increments_scenario(missing: &'static str, cell: GridCell) -> Seq<Step> {
    seq![
        Step::ReadFrames { missing },
        Step::ExpectCell(cell),
        Step::WriteExpected,
        ask(cell),
        Step::AwaitExpected,
        Step::HoldStill { watch_ms: 240 },
    ]
}

fn increments_steps(missing: &'static str, cell: GridCell) -> (r: Vec<Step>)
    ensures
        r@ == increments_scenario(missing, cell),
{
    let r = vec![
        Step::ReadFrames { missing },
        Step::ExpectCell(cell),
        Step::WriteExpected,
        Step::RequestGrid { cell, options: RequestOptions::Standard },
        Step::AwaitExpected,
        Step::HoldStill { watch_ms: 240 },
    ];
    assert(r@ =~= increments_scenario(missing, cell));
    r
}

/// A helper that rounds its size stays anchored in two grids, one after the
/// other.
pub fn place_increments_anchor(tuning: CaseTuning) -> (r: CasePlan)
    ensures
        r.slug@ == "place.increments.anchor"@,
        r.expected == placeholder(),
        r.helper == (HelperConfig {
            label_text: Some("INC"),
            step_size: Some((9, 18)),
            ..HelperConfig::plain(25_000)
        }),
        r.eps == tuning.eps,
        r.steps@ == seq![
            Step::Enter(CaseStage::Setup),
            Step::Spawn,
            Step::Enter(CaseStage::Action),
        ] + increments_scenario(
            "frames unavailable before scenario A",
            GridCell { cols: 2, rows: 2, col: 1, row: 1 },
        ) + increments_scenario(
            "frames unavailable before scenario B",
            GridCell { cols: 3, rows: 1, col: 1, row: 0 },
        ) + settle_reading(),
{
    let mut helper = HelperConfig::lasting(25_000);
    helper.label_text = Some("INC");
    helper.step_size = Some((9, 18));
    let mut steps = vec![
        Step::Enter(CaseStage::Setup),
        Step::Spawn,
        Step::Enter(CaseStage::Action),
    ];
    extend(
        &mut steps,
        increments_steps(
            "frames unavailable before scenario A",
            GridCell { cols: 2, rows: 2, col: 1, row: 1 },
        ),
    );
    extend(
        &mut steps,
        increments_steps(
            "frames unavailable before scenario B",
            GridCell { cols: 3, rows: 1, col: 1, row: 0 },
        ),
    );
    extend(&mut steps, end_reading());
    CasePlan {
        slug: "place.increments.anchor",
        helper,
        expected: RectPx { x: 0, y: 0, w: 0, h: 0 },
        eps: tuning.eps,
        steps,
    }
}

/// What the cycle does for one cell.
pub open spec fn cycle_cell(cell: GridCell) -> Seq<Step> {
    seq![
        Step::Promote { timed: false },
        Step::AwaitActiveSpace { timeout_ms: 1_400 },
        Step::ReadFrames { missing: "authoritative frame unavailable" },
        Step::ExpectCell(cell),
        Step::WriteExpected,
        ask(cell),
        Step::AwaitExpected,
        Step::Diagnostics,
        Step::AssertFrame,
        Step::Reassert,
        Step::RecordCell(cell),
    ]
}

/// What the cycle does for the first `n` cells of a row.
pub open spec fn cycle_row(tuning: CaseTuning, row: u32, n: u32) -> Seq<Step>
    decreases n,
{
    if n == 0 {
        Seq::empty()
    } else {
        cycle_row(tuning, row, (n - 1) as u32) + cycle_cell(tuning.cell((n - 1) as u32, row))
    }
}

/// What the cycle does for the first `n` rows.
pub open spec fn cycle_rows(tuning: CaseTuning, n: u32) -> Seq<Step>
    decreases n,
{
    if n == 0 {
        Seq::empty()
    } else {
        cycle_rows(tuning, (n - 1) as u32) + cycle_row(tuning, (n - 1) as u32, tuning.grid_cols)
    }
}

fn cycle_steps(cell: GridCell) -> (r: Vec<Step>)
    ensures
        r@ == cycle_cell(cell),
{
    let r = vec![
        Step::Promote { timed: false },
        Step::AwaitActiveSpace { timeout_ms: 1_400 },
        Step::ReadFrames { missing: "authoritative frame unavailable" },
        Step::ExpectCell(cell),
        Step::WriteExpected,
        Step::RequestGrid { cell, options: RequestOptions::Standard },
        Step::AwaitExpected,
        Step::Diagnostics,
        Step::AssertFrame,
        Step::Reassert,
        Step::RecordCell(cell),
    ];
    assert(r@ =~= cycle_cell(cell));
    r
}

fn append_row(steps: &mut Vec<Step>, tuning: CaseTuning, row: u32)
    ensures
        final(steps)@ == old(steps)@ + cycle_row(tuning, row, tuning.grid_cols),
{
    let ghost before = steps@;
    let mut col: u32 = 0;
    assert(steps@ =~= before + cycle_row(tuning, row, 0));
    while col < tuning.grid_cols
        invariant
            col <= tuning.grid_cols,
            steps@ == before + cycle_row(tuning, row, col),
        decreases tuning.grid_cols - col,
    {
        let cell = GridCell { cols: tuning.grid_cols, rows: tuning.grid_rows, col, row };
        extend(steps, cycle_steps(cell));
        col = col + 1;
        assert(steps@ =~= before + cycle_row(tuning, row, col));
    }
}

/// A helper is placed in every cell of the standard grid, row by row.
pub fn place_grid_cycle(tuning: CaseTuning) -> (r: CasePlan)
    ensures
        r.slug@ == "place.grid.cycle"@,
        r.expected == placeholder(),
        r.helper == (HelperConfig {
            grid: Some(tuning.cell(0, 0)),
            raise: Some(
                RaiseStrategy::SmartRaise {
                    deadline_ms: scaled_deadline(tuning.ui_action_delay_ms, 18, 1_800),
                },
            ),
            minimized: Some(MinimizedPolicy::AutoUnminimize),
            animate: Some(false),
            ..HelperConfig::plain(25_000)
        }),
        r.eps == tuning.eps,
        r.steps@ == seq![
            Step::Enter(CaseStage::Setup),
            Step::Spawn,
            Step::Enter(CaseStage::Action),
        ] + cycle_rows(tuning, tuning.grid_rows) + seq![Step::WriteCells { suffix: "_cells.json" }]
            + settle_reading(),
{
    let first = GridCell { cols: tuning.grid_cols, rows: tuning.grid_rows, col: 0, row: 0 };
    let mut helper = HelperConfig::lasting(25_000);
    helper.grid = Some(first);
    helper.raise = Some(
        RaiseStrategy::SmartRaise {
            deadline_ms: deadline_for(tuning.ui_action_delay_ms, 18, 1_800),
        },
    );
    helper.minimized = Some(MinimizedPolicy::AutoUnminimize);
    helper.animate = Some(false);
    let mut steps = vec![
        Step::Enter(CaseStage::Setup),
        Step::Spawn,
        Step::Enter(CaseStage::Action),
    ];
    let ghost before = steps@;
    let mut row: u32 = 0;
    assert(steps@ =~= before + cycle_rows(tuning, 0));
    while row < tuning.grid_rows
        invariant
            row <= tuning.grid_rows,
            steps@ == before + cycle_rows(tuning, row),
        decreases tuning.grid_rows - row,
    {
        append_row(&mut steps, tuning, row);
        row = row + 1;
        assert(steps@ =~= before + cycle_rows(tuning, row));
    }
    extend(&mut steps, vec![Step::WriteCells { suffix: "_cells.json" }]);
    extend(&mut steps, end_reading());
    CasePlan {
        slug: "place.grid.cycle",
        helper,
        expected: RectPx { x: 0, y: 0, w: 0, h: 0 },
        eps: tuning.eps,
        steps,
    }
}

/// The steps of a flexible placement case.
pub open spec fn flex_steps(cell: GridCell, options: RequestOptions, rule: CounterRule) -> Seq<
    Step,
> {
    seq![
        Step::Enter(CaseStage::Setup),
        Step::ResetCounters,
        Step::Spawn,
        Step::AwaitFrames,
        Step::ExpectCell(cell),
        Step::WriteExpected,
        Step::Enter(CaseStage::Action),
        Step::Promote { timed: false },
        Step::RequestGrid { cell, options },
        Step::Reassert,
        Step::Enter(CaseStage::Settle),
        Step::AwaitExpected,
        Step::ReadCounters,
        Step::WriteCounters,
        Step::JudgeCounters(rule),
        Step::Diagnostics,
        Step::AssertFrame,
        Step::Shutdown,
    ]
}

/// A flexible placement case.
pub fn run_flex_case(
    slug: &'static str,
    cell: GridCell,
    label: &'static str,
    options: RequestOptions,
    rule: CounterRule,
    eps: i32,
) -> (r: CasePlan)
    ensures
        r.slug@ == slug@,
        r.expected == placeholder(),
        r.helper == (HelperConfig { label_text: Some(label), ..HelperConfig::plain(25_000) }),
        r.eps == eps,
        r.steps@ == flex_steps(cell, options, rule),
{
    let mut helper = HelperConfig::lasting(25_000);
    helper.label_text = Some(label);
    let steps = vec![
        Step::Enter(CaseStage::Setup),
        Step::ResetCounters,
        Step::Spawn,
        Step::AwaitFrames,
        Step::ExpectCell(cell),
        Step::WriteExpected,
        Step::Enter(CaseStage::Action),
        Step::Promote { timed: false },
        Step::RequestGrid { cell, options },
        Step::Reassert,
        Step::Enter(CaseStage::Settle),
        Step::AwaitExpected,
        Step::ReadCounters,
        Step::WriteCounters,
        Step::JudgeCounters(rule),
        Step::Diagnostics,
        Step::AssertFrame,
        Step::Shutdown,
    ];
    assert(steps@ =~= flex_steps(cell, options, rule));
    CasePlan { slug, helper, expected: RectPx { x: 0, y: 0, w: 0, h: 0 }, eps, steps }
}

/// Placement with default attempts needs neither retry nor fallback.
pub fn place_flex_default(tuning: CaseTuning) -> (r: CasePlan)
    ensures
        r.slug@ == "place.flex.default"@,
        r.expected == placeholder(),
        r.helper == (HelperConfig { label_text: Some("FLEX"), ..HelperConfig::plain(25_000) }),
        r.eps == tuning.eps,
        r.steps@ == flex_steps(
            tuning.cell(0, 0),
            RequestOptions::Standard,
            CounterRule::FirstOrderOnly,
        ),
{
    let cell = GridCell { cols: tuning.grid_cols, rows: tuning.grid_rows, col: 0, row: 0 };
    run_flex_case(
        "place.flex.default",
        cell,
        "FLEX",
        RequestOptions::Standard,
        CounterRule::FirstOrderOnly,
        tuning.eps,
    )
}

/// A forced second attempt is made in the opposite order.
pub fn place_flex_force_size_pos(tuning: CaseTuning) -> (r: CasePlan)
    ensures
        r.slug@ == "place.flex.force_size_pos"@,
        r.expected == placeholder(),
        r.helper == (HelperConfig { label_text: Some("FSP"), ..HelperConfig::plain(25_000) }),
        r.eps == tuning.eps,
        r.steps@ == flex_steps(
            tuning.cell(0, 0),
            RequestOptions::ForceSecond,
            CounterRule::OppositeOrder,
        ),
{
    let cell = GridCell { cols: tuning.grid_cols, rows: tuning.grid_rows, col: 0, row: 0 };
    run_flex_case(
        "place.flex.force_size_pos",
        cell,
        "FSP",
        RequestOptions::ForceSecond,
        CounterRule::OppositeOrder,
        tuning.eps,
    )
}

/// A forced fallback shrinks, moves and grows.
pub fn place_flex_smg(tuning: CaseTuning) -> (r: CasePlan)
    ensures
        r.slug@ == "place.flex.smg"@,
        r.expected == placeholder(),
        r.helper == (HelperConfig { label_text: Some("SMG"), ..HelperConfig::plain(25_000) }),
        r.eps == tuning.eps,
        r.steps@ == flex_steps(
            tuning.cell(1, 1),
            RequestOptions::ForceFallback,
            CounterRule::Fallback,
        ),
{
    let cell = GridCell { cols: tuning.grid_cols, rows: tuning.grid_rows, col: 1, row: 1 };
    run_flex_case(
        "place.flex.smg",
        cell,
        "SMG",
        RequestOptions::ForceFallback,
        CounterRule::Fallback,
        tuning.eps,
    )
}

/// A helper that cannot be moved stays where it is.
pub fn place_skip_nonmovable(tuning: CaseTuning) -> (r: CasePlan)
    ensures
        r.slug@ == "place.skip.nonmovable"@,
        r.expected == placeholder(),
        r.helper == (HelperConfig {
            panel_nonmovable: true,
            attach_sheet: true,
            raise: Some(RaiseStrategy::AppActivate),
            minimized: Some(MinimizedPolicy::AutoUnminimize),
            animate: Some(false),
            ..HelperConfig::plain(20_000)
        }),
        r.eps == tuning.eps,
        r.steps@ == seq![
            Step::Enter(CaseStage::Setup),
            Step::Spawn,
            Step::Enter(CaseStage::Action),
            Step::AwaitFrames,
            Step::ExpectCurrent,
            Step::WriteExpected,
            Step::Promote { timed: false },
            Step::DrainMainOps(false),
            ask(GridCell { cols: 2, rows: 2, col: 0, row: 0 }),
            Step::DropMainOps,
            Step::AwaitExpected,
            Step::DropMainOps,
            Step::Diagnostics,
            Step::AssertFrame,
            Step::Reassert,
            Step::RecordCell(GridCell { cols: 2, rows: 2, col: 0, row: 0 }),
            Step::WriteCells { suffix: "_comparison.json" },
            Step::DrainMainOps(true),
        ] + settle_reading(),
{
    let cell = GridCell { cols: 2, rows: 2, col: 0, row: 0 };
    let mut helper = HelperConfig::lasting(20_000);
    helper.panel_nonmovable = true;
    helper.attach_sheet = true;
    helper.raise = Some(RaiseStrategy::AppActivate);
    helper.minimized = Some(MinimizedPolicy::AutoUnminimize);
    helper.animate = Some(false);
    let mut steps = vec![
        Step::Enter(CaseStage::Setup),
        Step::Spawn,
        Step::Enter(CaseStage::Action),
        Step::AwaitFrames,
        Step::ExpectCurrent,
        Step::WriteExpected,
        Step::Promote { timed: false },
        Step::DrainMainOps(false),
        Step::RequestGrid { cell, options: RequestOptions::Standard },
        Step::DropMainOps,
        Step::AwaitExpected,
        Step::DropMainOps,
        Step::Diagnostics,
        Step::AssertFrame,
        Step::Reassert,
        Step::RecordCell(cell),
        Step::WriteCells { suffix: "_comparison.json" },
        Step::DrainMainOps(true),
    ];
    extend(&mut steps, end_reading());
    CasePlan {
        slug: "place.skip.nonmovable",
        helper,
        expected: RectPx { x: 0, y: 0, w: 0, h: 0 },
        eps: tuning.eps,
        steps,
    }
}

/// The steps of a move case between its warm-up and its settling.
pub open spec fn move_steps(timed: bool) -> Seq<Step> {
    seq![
        Step::Spawn,
        Step::Promote { timed: false },
        Step::AwaitFrames,
        Step::ExpectCell(GridCell { cols: 4, rows: 4, col: 1, row: 0 }),
        Step::WriteExpected,
        Step::Reassert,
        Step::Promote { timed: false },
        Step::Reassert,
        Step::Enter(CaseStage::Action),
        Step::Promote { timed },
        Step::RequestMove { cols: 4, rows: 4, dir: MoveDir::Right },
        Step::Reassert,
        Step::Enter(CaseStage::Settle),
    ]
}

fn move_middle(timed: bool) -> (r: Vec<Step>)
    ensures
        r@ == move_steps(timed),
{
    let r = vec![
        Step::Spawn,
        Step::Promote { timed: false },
        Step::AwaitFrames,
        Step::ExpectCell(GridCell { cols: 4, rows: 4, col: 1, row: 0 }),
        Step::WriteExpected,
        Step::Reassert,
        Step::Promote { timed: false },
        Step::Reassert,
        Step::Enter(CaseStage::Action),
        Step::Promote { timed },
        Step::RequestMove { cols: 4, rows: 4, dir: MoveDir::Right },
        Step::Reassert,
        Step::Enter(CaseStage::Settle),
    ];
    assert(r@ =~= move_steps(timed));
    r
}

/// The steps of the case of a helper with a smallest height.
pub open spec fn move_min_steps() -> Seq<Step> {
    seq![
        Step::Enter(CaseStage::Setup),
        Step::Pump { rounds: 120, pause_ms: 5 },
    ] + move_steps(false) + seq![
        Step::AwaitAnchored(AnchorRule::FixedWidth),
        Step::Diagnostics,
        Step::FallbackFrames,
        Step::JudgeAnchored(AnchorRule::FixedWidth),
        Step::Shutdown,
    ]
}

/// The steps of the case of a helper that cannot be resized.
pub open spec fn move_nonresizable_steps() -> Seq<Step> {
    seq![
        Step::Enter(CaseStage::Setup),
        Step::PumpFor { total_ms: 300, nap_ms: 10 },
    ] + move_steps(true) + seq![
        Step::AwaitAnchored(AnchorRule::AtLeast),
        Step::WriteBudget,
        Step::Diagnostics,
        Step::FallbackFrames,
        Step::JudgeAnchored(AnchorRule::AtLeast),
        Step::Shutdown,
    ]
}

/// A helper with a smallest height moves by one cell and stays anchored.
pub fn place_move_min_anchor(tuning: CaseTuning) -> (r: CasePlan)
    ensures
        r.slug@ == "place.move.min"@,
        r.expected == placeholder(),
        r.helper == (HelperConfig {
            label_text: Some("MIN"),
            grid: Some(GridCell { cols: 4, rows: 4, col: 0, row: 0 }),
            min_size: Some((320, 380)),
            raise: Some(RaiseStrategy::KeepFrontWindow),
            ..HelperConfig::plain(25_000)
        }),
        r.eps == tuning.eps,
        r.steps@ == move_min_steps(),
{
    let mut helper = HelperConfig::lasting(25_000);
    helper.label_text = Some("MIN");
    helper.grid = Some(GridCell { cols: 4, rows: 4, col: 0, row: 0 });
    helper.min_size = Some((320, 380));
    helper.raise = Some(RaiseStrategy::KeepFrontWindow);
    let mut steps = vec![
        Step::Enter(CaseStage::Setup),
        Step::Pump { rounds: 120, pause_ms: 5 },
    ];
    extend(&mut steps, move_middle(false));
    extend(
        &mut steps,
        vec![
            Step::AwaitAnchored(AnchorRule::FixedWidth),
            Step::Diagnostics,
            Step::FallbackFrames,
            Step::JudgeAnchored(AnchorRule::FixedWidth),
            Step::Shutdown,
        ],
    );
    CasePlan {
        slug: "place.move.min",
        helper,
        expected: RectPx { x: 0, y: 0, w: 0, h: 0 },
        eps: tuning.eps,
        steps,
    }
}

/// A helper that cannot be resized moves by one cell and stays anchored.
pub fn place_move_nonresizable_anchor(tuning: CaseTuning) -> (r: CasePlan)
    ensures
        r.slug@ == "place.move.nonresizable"@,
        r.expected == placeholder(),
        r.helper == (HelperConfig {
            label_text: Some("NR"),
            grid: Some(GridCell { cols: 4, rows: 4, col: 0, row: 0 }),
            size: Some((1000, 700)),
            panel_nonresizable: true,
            raise: Some(RaiseStrategy::SmartRaise { deadline_ms: 600 }),
            ..HelperConfig::plain(25_000)
        }),
        r.eps == tuning.eps,
        r.steps@ == move_nonresizable_steps(),
{
    let mut helper = HelperConfig::lasting(25_000);
    helper.label_text = Some("NR");
    helper.grid = Some(GridCell { cols: 4, rows: 4, col: 0, row: 0 });
    helper.size = Some((1000, 700));
    helper.panel_nonresizable = true;
    helper.raise = Some(RaiseStrategy::SmartRaise { deadline_ms: 600 });
    let mut steps = vec![
        Step::Enter(CaseStage::Setup),
        Step::PumpFor { total_ms: 300, nap_ms: 10 },
    ];
    extend(&mut steps, move_middle(true));
    extend(
        &mut steps,
        vec![
            Step::AwaitAnchored(AnchorRule::AtLeast),
            Step::WriteBudget,
            Step::Diagnostics,
            Step::FallbackFrames,
            Step::JudgeAnchored(AnchorRule::AtLeast),
            Step::Shutdown,
        ],
    );
    CasePlan {
        slug: "place.move.nonresizable",
        helper,
        expected: RectPx { x: 0, y: 0, w: 0, h: 0 },
        eps: tuning.eps,
        steps,
    }
}

/// Whether every cell of a plan lies in its grid.
pub open spec fn cells_in_grid(steps: Seq<Step>) -> bool {
    forall|i: int|
        0 <= i < steps.len() ==> match #[trigger] steps[i] {
            Step::ExpectCell(cell) => cell.in_grid(),
            _ => true,
        }
}

proof fn row_cells_in_grid(tuning: CaseTuning, row: u32, n: u32)
    requires
        tuning.usable(),
        row < tuning.grid_rows,
        n <= tuning.grid_cols,
    ensures
        cells_in_grid(cycle_row(tuning, row, n)),
    decreases n,
{
    if n > 0 {
        row_cells_in_grid(tuning, row, (n - 1) as u32);
        let head = cycle_row(tuning, row, (n - 1) as u32);
        let tail = cycle_cell(tuning.cell((n - 1) as u32, row));
        assert(cells_in_grid(tail));
        concat_cells_in_grid(head, tail);
    }
}

proof fn concat_cells_in_grid(a: Seq<Step>, b: Seq<Step>)
    requires
        cells_in_grid(a),
        cells_in_grid(b),
    ensures
        cells_in_grid(a + b),
{
    assert forall|i: int| 0 <= i < (a + b).len() implies match #[trigger] (a + b)[i] {
        Step::ExpectCell(cell) => cell.in_grid(),
        _ => true,
    } by {
        if i < a.len() {
            assert((a + b)[i] == a[i]);
        } else {
            assert((a + b)[i] == b[i - a.len()]);
        }
    }
}

/// The cycle only ever expects cells of its grid.
pub proof fn cycle_stays_in_grid(tuning: CaseTuning, n: u32)
    requires
        tuning.usable(),
        n <= tuning.grid_rows,
    ensures
        cells_in_grid(cycle_rows(tuning, n)),
    decreases n,
{
    if n > 0 {
        cycle_stays_in_grid(tuning, (n - 1) as u32);
        row_cells_in_grid(tuning, (n - 1) as u32, tuning.grid_cols);
        concat_cells_in_grid(
            cycle_rows(tuning, (n - 1) as u32),
            cycle_row(tuning, (n - 1) as u32, tuning.grid_cols),
        );
    }
}

/// Whether the counters are what a rule asks for.
pub open spec fn counters_pass(rule: CounterRule, counters: PlacementCountersSnapshot) -> bool {
    match rule {
        CounterRule::FirstOrderOnly => counters.retry_opposite.attempts == 0
            && counters.fallback_smg.attempts == 0,
        CounterRule::OppositeOrder => counters.retry_opposite.attempts != 0
            && counters.fallback_smg.attempts == 0,
        CounterRule::Fallback => counters.fallback_smg.attempts != 0,
    }
}

} // verus!
