//! Placement flows against the scripted adapter, run as a smoketest of their own.

use vstd::prelude::*;
use vstd::string::*;

use crate::geom::{diffs_spec, one_axis_off_spec, Rect};
use crate::place::adapter::{
    answers_follow_the_script, calls_of, faithful, replayed, AxAdapter, AxEvent, FakeApplyResponse,
    FakeAxAdapter, FakeCall, FakeOp, FakeWindowConfig, FakeWindowView,
};
use crate::place::common::{
    PlaceAttemptOptions, PlacementContext, PlacementDecisionHooks, RetryLimits, VERIFY_EPS,
};
use crate::place::engine::{
    begun, exchanges, fell_short, follows_strategy, inputs_of, observed, progress_after, ran, reports, request,
    Inputs, PlacementEngine, PlacementEngineConfig, PlacementGrid, PlacementOutcome,
};
use crate::place::engine_laws::requests_follow_from_the_answers;
use crate::place::metrics::{PlacementCounters, PlacementCountersSnapshot};
use crate::screen::{Screen, ScreenLayout};
use crate::smoketest::dump::{
    call_dumps, dump_failure, dump_ops, dump_rect, failure_dump, list_dump, rect_dump,
};
use crate::smoketest::error::{fails_with, Error};

verus! {

/// A kind of request to the scripted adapter.
#[derive(Debug, Clone, Copy, PartialEq, Eq, Structural)]
pub enum FakeKind {
    /// Set position and size.
    Apply,
    /// Set the position along one axis.
    Nudge,
    /// Shrink, move and grow.
    Fallback,
}

impl FakeKind {
    /// The name of the kind.
    pub open spec fn label(self) -> Seq<char> {
        match self {
            FakeKind::Apply => "apply"@,
            FakeKind::Nudge => "nudge"@,
            FakeKind::Fallback => "fallback"@,
        }
    }

    /// Whether a request is of the kind.
    pub open spec fn covers(self, call: FakeCall) -> bool {
        match self {
            FakeKind::Apply => call is Apply,
            FakeKind::Nudge => call is Nudge,
            FakeKind::Fallback => call is Fallback,
        }
    }

    fn name(self) -> (s: &'static str)
        ensures
            s@ == self.label(),
    {
        match self {
            FakeKind::Apply => "apply",
            FakeKind::Nudge => "nudge",
            FakeKind::Fallback => "fallback",
        }
    }

    fn is_kind(self, op: &FakeOp) -> (r: bool)
        ensures
            r == self.covers(op@),
    {
        match (self, op) {
            (FakeKind::Apply, FakeOp::Apply { .. }) => true,
            (FakeKind::Nudge, FakeOp::Nudge { .. }) => true,
            (FakeKind::Fallback, FakeOp::Fallback { .. }) => true,
            _ => false,
        }
    }
}

/// Whether a request of a kind was made.
pub open spec fn made(calls: Seq<FakeCall>, kind: FakeKind) -> bool {
    exists|i: int| 0 <= i < calls.len() && kind.covers(#[trigger] calls[i])
}

/// The message when no request of a kind was made.
pub open spec fn unrecorded(calls: Seq<FakeCall>, kind: FakeKind) -> Seq<char> {
    "expected "@ + kind.label() + " operation to be recorded (got "@ + list_dump(call_dumps(calls))
        + ")"@
}

/// Fail unless a request of a kind was made.
pub fn ensure_fake_op(ops: &Vec<FakeOp>, kind: FakeKind) -> (r: Result<(), Error>)
    ensures
        r is Ok <==> made(calls_of(ops@), kind),
        r is Err ==> fails_with(
            r,
            unrecorded(calls_of(ops@), kind),
        ),
{
    let mut i: usize = 0;
    while i < ops.len()
        invariant
            i <= ops@.len(),
            forall|j: int| 0 <= j < i ==> !kind.covers(#[trigger] calls_of(ops@)[j]),
        decreases ops@.len() - i,
    {
        if kind.is_kind(&ops[i]) {
            assert(kind.covers(calls_of(ops@)[i as int]));
            return Ok(());
        }
        i = i + 1;
    }
    let mut s = "expected ".to_owned();
    s.append(kind.name());
    s.append(" operation to be recorded (got ");
    s.append(dump_ops(ops).as_str());
    s.append(")");
    Err(Error::InvalidState(s))
}

/// The rectangle that the flows place a window in: 640 by 480 points at (100, 200).
pub open spec fn fake_target() -> Rect {
    Rect { x: 102_400, y: 204_800, w: 655_360, h: 491_520 }
}

fn target() -> (r: Rect)
    ensures
        r == fake_target(),
{
    Rect { x: 102_400, y: 204_800, w: 655_360, h: 491_520 }
}

/// Whether a flow is judged as its outcome and its requests ask.
pub open spec fn flow_judged(
    label: Seq<char>,
    outcome: Result<PlacementOutcome, crate::error::Error>,
    calls: Seq<FakeCall>,
    kind: FakeKind,
    r: Result<(), Error>,
) -> bool {
    match outcome {
        Err(e) => fails_with(r, label + ": engine error "@ + e.words()),
        Ok(PlacementOutcome::Verified(success)) => if success.final_rect != fake_target() {
            fails_with(
                r,
                label + ": expected "@ + rect_dump(fake_target()) + " got "@ + rect_dump(
                    success.final_rect,
                ),
            )
        } else if made(calls, kind) {
            r is Ok
        } else {
            fails_with(r, unrecorded(calls, kind))
        },
        Ok(PlacementOutcome::PosFirstOnlyFailure(failure)) => fails_with(
            r,
            label + ": unexpected outcome PosFirstOnlyFailure("@ + failure_dump(failure) + ")"@,
        ),
        Ok(PlacementOutcome::VerificationFailure(failure)) => fails_with(
            r,
            label + ": unexpected outcome VerificationFailure("@ + failure_dump(failure) + ")"@,
        ),
    }
}

/// Judge a flow: the window has to be verified on target, by a request of a kind.
pub fn judge_flow(
    label: &str,
    outcome: &Result<PlacementOutcome, crate::error::Error>,
    ops: &Vec<FakeOp>,
    kind: FakeKind,
) -> (r: Result<(), Error>)
    ensures
        flow_judged(label@, *outcome, calls_of(ops@), kind, r),
{
    let mut s = label.to_owned();
    match outcome {
        Err(e) => {
            s.append(": engine error ");
            s.append(e.describe().as_str());
            Err(Error::InvalidState(s))
        },
        Ok(PlacementOutcome::Verified(success)) => {
            if success.final_rect != target() {
                s.append(": expected ");
                s.append(dump_rect(&target()).as_str());
                s.append(" got ");
                s.append(dump_rect(&success.final_rect).as_str());
                return Err(Error::InvalidState(s));
            }
            ensure_fake_op(ops, kind)
        },
        Ok(PlacementOutcome::PosFirstOnlyFailure(failure)) => {
            s.append(": unexpected outcome PosFirstOnlyFailure(");
            s.append(dump_failure(failure).as_str());
            s.append(")");
            Err(Error::InvalidState(s))
        },
        Ok(PlacementOutcome::VerificationFailure(failure)) => {
            s.append(": unexpected outcome VerificationFailure(");
            s.append(dump_failure(failure).as_str());
            s.append(")");
            Err(Error::InvalidState(s))
        },
    }
}

/// The screen of the flows: 1440 by 900 points.
pub open spec fn fake_screen() -> Rect {
    Rect { x: 0, y: 0, w: 1_474_560, h: 921_600 }
}

/// What a flow works on.
pub open spec fn flow_context(
    ctx: PlacementContext<PlacementDecisionHooks>,
    opts: PlaceAttemptOptions<PlacementDecisionHooks>,
) -> bool {
    let screen = Screen { visible: fake_screen(), scale_milli: 1000 };
    &&& ctx.win.id == 0
    &&& ctx.target == fake_target()
    &&& ctx.visible_frame == fake_screen()
    &&& ctx.options == opts
    &&& ctx.screens.screens@ == seq![screen]
    &&& ctx.screens.main == Some(screen)
}

/// The window of a flow.
pub open spec fn scripted(config: FakeWindowConfig) -> FakeWindowView {
    FakeWindowView {
        can_set_pos: config.can_set_pos,
        can_set_size: config.can_set_size,
        pid: config.pid,
        rect: config.initial_rect,
        apply: config.apply_script@,
        size_only: config.size_only_script@,
        nudge: config.nudge_script@,
        fallback: config.fallback_script@,
        preflight: config.preflight_script@,
        ops: Seq::empty(),
    }
}

/// The cell that the flows aim at.
pub open spec fn flow_config(label: &'static str) -> PlacementEngineConfig<'static> {
    PlacementEngineConfig { label, grid: PlacementGrid { cols: 3, rows: 2, col: 1, row: 1 } }
}

/// Whether the pipeline ended a flow with an outcome, after an exchange with the window
/// that its script allows.
pub open spec fn flow_went(
    label: &'static str,
    config: FakeWindowConfig,
    ctx: PlacementContext<PlacementDecisionHooks>,
    log: Seq<AxEvent>,
    outcome: Result<PlacementOutcome, crate::error::Error>,
    calls: Seq<FakeCall>,
) -> bool {
    &&& faithful(seq![scripted(config)], log)
    &&& calls == replayed(seq![scripted(config)], log)[0].ops
    &&& exists|counted: PlacementCountersSnapshot| #[trigger]
        ran(
            ctx,
            flow_config(label),
            Seq::empty(),
            log,
            PlacementCountersSnapshot::zero(),
            counted,
            outcome,
        )
}

/// Whether a flow ended with an outcome and these requests.
pub open spec fn flow_ran(
    label: &'static str,
    config: FakeWindowConfig,
    opts: PlaceAttemptOptions<PlacementDecisionHooks>,
    outcome: Result<PlacementOutcome, crate::error::Error>,
    calls: Seq<FakeCall>,
) -> bool {
    exists|ctx: PlacementContext<PlacementDecisionHooks>, log: Seq<AxEvent>|
        flow_context(ctx, opts) && #[trigger] flow_went(label, config, ctx, log, outcome, calls)
}

/// Whether a result is what the judgement of a flow comes to.
pub open spec fn flow_result(
    label: &'static str,
    config: FakeWindowConfig,
    opts: PlaceAttemptOptions<PlacementDecisionHooks>,
    kind: FakeKind,
    r: Result<Vec<FakeOp>, Error>,
) -> bool {
    exists|
        outcome: Result<PlacementOutcome, crate::error::Error>,
        ops: Vec<FakeOp>,
        judged: Result<(), Error>,
    |
        {
            &&& flow_ran(label, config, opts, outcome, calls_of(ops@))
            &&& #[trigger] flow_judged(label@, outcome, calls_of(ops@), kind, judged)
            &&& match judged {
                Ok(_) => r == Ok::<Vec<FakeOp>, Error>(ops),
                Err(e) => r == Err::<Vec<FakeOp>, Error>(e),
            }
        }
}

/// Drive one placement of a scripted window, and judge it. Returns the requests
/// that the window received.
pub fn run_fake_flow(
    label: &'static str,
    config: FakeWindowConfig,
    opts: PlaceAttemptOptions<PlacementDecisionHooks>,
    kind: FakeKind,
) -> (r: Result<Vec<FakeOp>, Error>)
    ensures
        flow_result(label, config, opts, kind, r),
{
    let ghost start = scripted(config);
    let mut fake = FakeAxAdapter::new();
    let win = fake.new_window(config);
    assert(fake@ =~= seq![start]);
    let visible = Rect { x: 0, y: 0, w: 1_474_560, h: 921_600 };
    let screen = Screen { visible, scale_milli: 1000 };
    let mut screens: Vec<Screen> = Vec::new();
    screens.push(screen);
    assert(screens@ =~= seq![screen]);
    let layout = ScreenLayout { screens, main: Some(screen) };
    let ctx = PlacementContext::new(win, target(), visible, opts, layout);
    let engine_config = PlacementEngineConfig {
        label,
        grid: PlacementGrid { cols: 3, rows: 2, col: 1, row: 1 },
    };
    let engine = PlacementEngine::new(&ctx, engine_config);
    let mut counters = PlacementCounters::new();
    let outcome = engine.execute(&mut fake, &mut counters);
    let ops = fake.operations(win);
    let judged = judge_flow(label, &outcome, &ops, kind);
    proof {
        let log = fake.log();
        assert(log.skip(0) =~= log);
        replaying_keeps_the_windows(seq![start], log);
        assert(ran(
            ctx,
            flow_config(label),
            Seq::empty(),
            log,
            PlacementCountersSnapshot::zero(),
            counters@,
            outcome,
        ));
        assert(flow_went(label, config, ctx, log, outcome, calls_of(ops@)));
        assert(flow_ran(label, config, opts, outcome, calls_of(ops@)));
        assert(flow_judged(label@, outcome, calls_of(ops@), kind, judged));
    }
    match judged {
        Ok(()) => Ok(ops),
        Err(e) => Err(e),
    }
}

proof fn replaying_keeps_the_windows(windows: Seq<FakeWindowView>, events: Seq<AxEvent>)
    ensures
        replayed(windows, events).len() == windows.len(),
    decreases events.len(),
{
    if events.len() > 0 {
        replaying_keeps_the_windows(windows, events.drop_last());
    }
}

/// Whether options are the usual ones, but for the limits.
pub open spec fn usual(opts: PlaceAttemptOptions<PlacementDecisionHooks>) -> bool {
    &&& !opts@.force_second_attempt
    &&& !opts@.pos_first_only
    &&& opts@.tuning.epsilon == VERIFY_EPS
    &&& !opts@.hooks.fallback.forced
    &&& opts@.hooks.fallback.last
}

/// Whether an outcome is a window verified on target.
pub open spec fn on_target(outcome: Result<PlacementOutcome, crate::error::Error>) -> bool {
    outcome matches Ok(PlacementOutcome::Verified(success)) && success.final_rect == fake_target()
}

/// The exchange at a place of a flow: the request that the answers so far call for, and
/// the scripted answer to it.
proof fn flow_step(
    inputs: Inputs<PlacementDecisionHooks>,
    window: FakeWindowView,
    log: Seq<AxEvent>,
    events: Seq<AxEvent>,
    i: int,
)
    requires
        inputs.win.id == 0,
        faithful(seq![window], log),
        within(events, log),
        follows_strategy(inputs, events),
        0 <= i < events.len(),
    ensures
        ({
            let before = progress_after(inputs, events.take(i));
            let now = replayed(seq![window], log.take(i + 1));
            let call = request(inputs, before);
            let answer = now[0].answer(call);
            &&& !(before.stage is Finished)
            &&& progress_after(inputs, events.take(i + 1)) == observed(
                inputs,
                before,
                answer.rect,
                answer.settle_ms,
            )
            &&& replayed(seq![window], log.take(i + 2)) == seq![now[0].after(call)]
        }),
{
    requests_follow_from_the_answers(inputs, events, i);
    answers_follow_the_script(seq![window], log, i + 1);
    replaying_keeps_the_windows(seq![window], log.take(i + 1));
    assert(events[i] == log[i + 1]);
    let now = replayed(seq![window], log.take(i + 1));
    let call = request(inputs, progress_after(inputs, events.take(i)));
    assert(replayed(seq![window], log.take(i + 2)) =~= seq![now[0].after(call)]);
}

/// Whether exchanges follow the first entry of a log.
spec fn within(events: Seq<AxEvent>, log: Seq<AxEvent>) -> bool {
    &&& events.len() < log.len()
    &&& forall|j: int| 0 <= j < events.len() ==> #[trigger] events[j] == log[j + 1]
}

/// The start of a flow: the window says what can be set.
proof fn flow_start(
    ctx: PlacementContext<PlacementDecisionHooks>,
    label: &'static str,
    window: FakeWindowView,
    log: Seq<AxEvent>,
    counted: PlacementCountersSnapshot,
    outcome: Result<PlacementOutcome, crate::error::Error>,
) -> (inputs: Inputs<PlacementDecisionHooks>)
    requires
        ctx.win.id == 0,
        faithful(seq![window], log),
        ran(
            ctx,
            flow_config(label),
            Seq::empty(),
            log,
            PlacementCountersSnapshot::zero(),
            counted,
            outcome,
        ),
    ensures
        inputs == inputs_of(ctx, flow_config(label), window.can_set_pos, window.can_set_size),
        ({
            let events = exchanges(Seq::empty(), log);
            let end = progress_after(inputs, events);
            &&& within(events, log)
            &&& !fell_short(end) ==> log.len() == events.len() + 1
            &&& follows_strategy(inputs, events)
            &&& reports(outcome, end, inputs.eps as int)
            &&& progress_after(inputs, events.take(0)) == begun(inputs)
        }),
        replayed(seq![window], log.take(1)) == seq![window],
{
    let events = exchanges(Seq::empty(), log);
    assert forall|j: int| 0 <= j < events.len() implies #[trigger] events[j] == log[j + 1] by {
        assert(log.skip(1)[j] == log[j + 1]);
    }
    answers_follow_the_script(seq![window], log, 0);
    assert(log.take(0) =~= Seq::empty());
    assert(events.take(0) =~= Seq::empty());
    inputs_of(ctx, flow_config(label), window.can_set_pos, window.can_set_size)
}

/// A window that goes where it is told is verified after one request.
pub proof fn willing_windows_need_one_request(
    label: &'static str,
    config: FakeWindowConfig,
    opts: PlaceAttemptOptions<PlacementDecisionHooks>,
    outcome: Result<PlacementOutcome, crate::error::Error>,
    calls: Seq<FakeCall>,
)
    requires
        flow_ran(label, config, opts, outcome, calls),
        usual(opts),
        config.apply_script@.len() == 0,
    ensures
        on_target(outcome),
        calls.len() == 1,
        calls[0] is Apply,
{
    let window = scripted(config);
    let (ctx, log) = choose|ctx: PlacementContext<PlacementDecisionHooks>, log: Seq<AxEvent>|
        flow_context(ctx, opts) && #[trigger] flow_went(label, config, ctx, log, outcome, calls);
    let counted = choose|counted: PlacementCountersSnapshot| #[trigger]
        ran(
            ctx,
            flow_config(label),
            Seq::empty(),
            log,
            PlacementCountersSnapshot::zero(),
            counted,
            outcome,
        );
    let inputs = flow_start(ctx, label, window, log, counted, outcome);
    let events = exchanges(Seq::empty(), log);
    if events.len() == 0 {
        assert(events.take(0) =~= events);
    } else {
        flow_step(inputs, window, log, events, 0);
        assert(progress_after(inputs, events.take(1)).stage is Finished);
        if events.len() > 1 {
            flow_step(inputs, window, log, events, 1);
        }
        assert(events.take(1) =~= events);
        assert(log.take(2) =~= log);
    }
}

/// A window that is off along one axis is verified after a nudge.
pub proof fn a_nudge_mends_one_axis(
    label: &'static str,
    config: FakeWindowConfig,
    opts: PlaceAttemptOptions<PlacementDecisionHooks>,
    outcome: Result<PlacementOutcome, crate::error::Error>,
    calls: Seq<FakeCall>,
)
    requires
        flow_ran(label, config, opts, outcome, calls),
        usual(opts),
        opts@.retry_limits.max_axis_nudges > 0,
        config.apply_script@.len() == 1,
        one_axis_off_spec(
            diffs_spec(config.apply_script@[0].rect, fake_target()),
            VERIFY_EPS as int,
        ) is Some,
        config.nudge_script@.len() == 1,
        config.nudge_script@[0].rect == fake_target(),
    ensures
        on_target(outcome),
        calls.len() == 2,
        calls[0] is Apply,
        calls[1] is Nudge,
{
    let window = scripted(config);
    let (ctx, log) = choose|ctx: PlacementContext<PlacementDecisionHooks>, log: Seq<AxEvent>|
        flow_context(ctx, opts) && #[trigger] flow_went(label, config, ctx, log, outcome, calls);
    let counted = choose|counted: PlacementCountersSnapshot| #[trigger]
        ran(
            ctx,
            flow_config(label),
            Seq::empty(),
            log,
            PlacementCountersSnapshot::zero(),
            counted,
            outcome,
        );
    let inputs = flow_start(ctx, label, window, log, counted, outcome);
    let events = exchanges(Seq::empty(), log);
    if events.len() == 0 {
        assert(events.take(0) =~= events);
    } else {
        flow_step(inputs, window, log, events, 0);
        assert(progress_after(inputs, events.take(1)).stage is Nudge);
        if events.len() == 1 {
            assert(events.take(1) =~= events);
        } else {
            flow_step(inputs, window, log, events, 1);
            assert(progress_after(inputs, events.take(2)).stage is Finished);
            if events.len() > 2 {
                flow_step(inputs, window, log, events, 2);
            }
            assert(events.take(2) =~= events);
            assert(log.take(3) =~= log);
        }
    }
}

/// A window that is off along both axes, where nothing but the fallback is allowed, is
/// verified after the fallback.
pub proof fn the_fallback_mends_both_axes(
    label: &'static str,
    config: FakeWindowConfig,
    opts: PlaceAttemptOptions<PlacementDecisionHooks>,
    outcome: Result<PlacementOutcome, crate::error::Error>,
    calls: Seq<FakeCall>,
)
    requires
        flow_ran(label, config, opts, outcome, calls),
        usual(opts),
        opts@.retry_limits.max_opposite_order == 0,
        opts@.retry_limits.max_anchor_attempts == 0,
        opts@.retry_limits.max_fallback_runs > 0,
        config.apply_script@.len() == 1,
        diffs_spec(config.apply_script@[0].rect, fake_target()).x > VERIFY_EPS,
        diffs_spec(config.apply_script@[0].rect, fake_target()).y > VERIFY_EPS,
        config.fallback_script@.len() == 1,
        config.fallback_script@[0].rect == fake_target(),
    ensures
        on_target(outcome),
        calls.len() == 2,
        calls[0] is Apply,
        calls[1] is Fallback,
{
    let window = scripted(config);
    let (ctx, log) = choose|ctx: PlacementContext<PlacementDecisionHooks>, log: Seq<AxEvent>|
        flow_context(ctx, opts) && #[trigger] flow_went(label, config, ctx, log, outcome, calls);
    let counted = choose|counted: PlacementCountersSnapshot| #[trigger]
        ran(
            ctx,
            flow_config(label),
            Seq::empty(),
            log,
            PlacementCountersSnapshot::zero(),
            counted,
            outcome,
        );
    let inputs = flow_start(ctx, label, window, log, counted, outcome);
    let events = exchanges(Seq::empty(), log);
    if events.len() == 0 {
        assert(events.take(0) =~= events);
    } else {
        flow_step(inputs, window, log, events, 0);
        assert(progress_after(inputs, events.take(1)).stage is LastFallback);
        if events.len() == 1 {
            assert(events.take(1) =~= events);
        } else {
            flow_step(inputs, window, log, events, 1);
            assert(progress_after(inputs, events.take(2)).stage is Finished);
            if events.len() > 2 {
                flow_step(inputs, window, log, events, 2);
            }
            assert(events.take(2) =~= events);
            assert(log.take(3) =~= log);
        }
    }
}

/// A flow and the requests that its window received.
#[derive(Debug)]
pub struct FlowSummary {
    /// Name of the flow.
    pub label: &'static str,
    /// The requests.
    pub ops: Vec<FakeOp>,
}

/// Whether the summaries are those of the three flows, each with the request that
/// it is meant to exercise.
pub open spec fn all_flows(summaries: Seq<FlowSummary>) -> bool {
    &&& summaries.len() == 3
    &&& summaries[0].label@ == "place_grid_focused"@
    &&& made(calls_of(summaries[0].ops@), FakeKind::Apply)
    &&& summaries[1].label@ == "place_grid"@
    &&& made(calls_of(summaries[1].ops@), FakeKind::Nudge)
    &&& summaries[2].label@ == "place_move_grid"@
    &&& made(calls_of(summaries[2].ops@), FakeKind::Fallback)
}

/// The outcome and the requests behind the result of a flow.
proof fn behind_the_result(
    label: &'static str,
    config: FakeWindowConfig,
    opts: PlaceAttemptOptions<PlacementDecisionHooks>,
    kind: FakeKind,
    r: Result<Vec<FakeOp>, Error>,
) -> (out: (Result<PlacementOutcome, crate::error::Error>, Vec<FakeOp>))
    requires
        flow_result(label, config, opts, kind, r),
    ensures
        flow_ran(label, config, opts, out.0, calls_of(out.1@)),
        on_target(out.0) && made(calls_of(out.1@), kind) ==> r == Ok::<Vec<FakeOp>, Error>(out.1),
{
    let (outcome, ops, judged) = choose|
        outcome: Result<PlacementOutcome, crate::error::Error>,
        ops: Vec<FakeOp>,
        judged: Result<(), Error>,
    |
        {
            &&& flow_ran(label, config, opts, outcome, calls_of(ops@))
            &&& #[trigger] flow_judged(label@, outcome, calls_of(ops@), kind, judged)
            &&& match judged {
                Ok(_) => r == Ok::<Vec<FakeOp>, Error>(ops),
                Err(e) => r == Err::<Vec<FakeOp>, Error>(e),
            }
        };
    (outcome, ops)
}

fn plain_flow() -> (r: Result<Vec<FakeOp>, Error>)
    ensures
        r matches Ok(ops) && made(calls_of(ops@), FakeKind::Apply),
{
    let label = "place_grid_focused";
    let config = FakeWindowConfig::default();
    let opts = PlaceAttemptOptions::default();
    let ghost (c, o) = (config, opts);
    let r = run_fake_flow(label, config, opts, FakeKind::Apply);
    proof {
        let (outcome, ops) = behind_the_result(label, c, o, FakeKind::Apply, r);
        willing_windows_need_one_request(label, c, o, outcome, calls_of(ops@));
        assert(FakeKind::Apply.covers(calls_of(ops@)[0]));
    }
    r
}

fn nudged_flow() -> (r: Result<Vec<FakeOp>, Error>)
    ensures
        r matches Ok(ops) && made(calls_of(ops@), FakeKind::Nudge),
{
    let label = "place_grid";
    let mut config = FakeWindowConfig::default();
    config.apply_script.push(
        FakeApplyResponse::new(Rect { x: 102_400, y: 215_040, w: 655_360, h: 491_520 }).with_persist(
            true,
        ),
    );
    config.nudge_script.push(FakeApplyResponse::new(target()));
    let opts = PlaceAttemptOptions::default();
    let ghost (c, o) = (config, opts);
    let r = run_fake_flow(label, config, opts, FakeKind::Nudge);
    proof {
        let (outcome, ops) = behind_the_result(label, c, o, FakeKind::Nudge, r);
        a_nudge_mends_one_axis(label, c, o, outcome, calls_of(ops@));
        assert(FakeKind::Nudge.covers(calls_of(ops@)[1]));
    }
    r
}

fn fallback_flow() -> (r: Result<Vec<FakeOp>, Error>)
    ensures
        r matches Ok(ops) && made(calls_of(ops@), FakeKind::Fallback),
{
    let label = "place_move_grid";
    let mut config = FakeWindowConfig::default();
    config.apply_script.push(
        FakeApplyResponse::new(Rect { x: 327_680, y: 430_080, w: 655_360, h: 491_520 }).with_persist(
            true,
        ),
    );
    config.fallback_script.push(FakeApplyResponse::new(target()));
    let opts = PlaceAttemptOptions::default().with_retry_limits(RetryLimits::new(0, 0, 0, 1));
    let ghost (c, o) = (config, opts);
    let r = run_fake_flow(label, config, opts, FakeKind::Fallback);
    proof {
        let (outcome, ops) = behind_the_result(label, c, o, FakeKind::Fallback, r);
        the_fallback_mends_both_axes(label, c, o, outcome, calls_of(ops@));
        assert(FakeKind::Fallback.covers(calls_of(ops@)[1]));
    }
    r
}

/// Exercise a plain placement, one that needs a nudge and one that needs the
/// fallback. All three succeed.
pub fn run_fake_adapter_scenarios() -> (r: Result<Vec<FlowSummary>, Error>)
    ensures
        r matches Ok(summaries) && all_flows(summaries@),
{
    let mut results: Vec<FlowSummary> = Vec::new();
    match plain_flow() {
        Ok(ops) => {
            results.push(FlowSummary { label: "place_grid_focused", ops });
        },
        Err(e) => {
            return Err(e);
        },
    }
    match nudged_flow() {
        Ok(ops) => {
            results.push(FlowSummary { label: "place_grid", ops });
        },
        Err(e) => {
            return Err(e);
        },
    }
    match fallback_flow() {
        Ok(ops) => {
            results.push(FlowSummary { label: "place_move_grid", ops });
        },
        Err(e) => {
            return Err(e);
        },
    }
    Ok(results)
}

} // verus!
