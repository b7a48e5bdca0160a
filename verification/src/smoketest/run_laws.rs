//! What a run of many tests promises.

use vstd::prelude::*;

use crate::smoketest::orchestrator::{
    exit_code, run_all_tests, run_sequence_tests, subtest_args, to_subcmd,
    ChildState, PlannedTest, SeqTest, SubtestIo, WatchStep, Watchdog,
};
use crate::text::{dec, texts};

verus! {

/// A test that counts and has failed, or has no result, fails the run, of whatever kind it
/// is; and a run in which every test that counts has passed does not fail.
pub proof fn a_failed_test_fails_the_run(plan: Vec<PlannedTest>, passed: Vec<bool>, code: i32)
    requires
        call_ensures(exit_code, (&plan, &passed), code),
    ensures
        forall|i: int|
            0 <= i < plan@.len() && (#[trigger] plan@[i]).counts && (i >= passed@.len()
                || !passed@[i]) ==> code == 1,
        (forall|i: int|
            0 <= i < plan@.len() && (#[trigger] plan@[i]).counts ==> i < passed@.len()
                && passed@[i]) ==> code == 0,
{
}

/// A child is left running until its allowance, the overhead and what was added are over,
/// and is ended from then on. One that has exited is taken at its word, and one that cannot
/// be asked has failed.
pub proof fn children_have_their_time(
    timeout_ms: u64,
    overhead_ms: u64,
    extra_ms: u64,
    start: u64,
    now: u64,
    state: ChildState,
    dog: Watchdog,
    step: WatchStep,
)
    requires
        call_ensures(Watchdog::start, (timeout_ms, overhead_ms, extra_ms, start), dog),
        call_ensures(Watchdog::look, (&dog, state, now), step),
    ensures
        step is KillAndReap <==> state is Running && now - start >= (timeout_ms + overhead_ms
            + extra_ms) * 1_000_000,
        step is Pause <==> state is Running && now - start < (timeout_ms + overhead_ms + extra_ms)
            * 1_000_000,
        state matches ChildState::Exited(ok) ==> step == WatchStep::Over(ok),
        state is Unknown ==> step == WatchStep::Over(false),
        step matches WatchStep::Pause(ms) ==> ms > 0,
{
}

/// Every test of a full run has at least the time that was asked for. Three of them only
/// show something and do not count, a run without a screen has one test, and placement tests
/// with settings aim at a cell of their own.
pub proof fn a_full_run_holds_every_test(
    d: u64,
    t: u64,
    fake: bool,
    min_volume_ms: u64,
    grid: (u32, u32),
    plan: Vec<PlannedTest>,
)
    requires
        call_ensures(run_all_tests, (d, t, fake, min_volume_ms, grid), plan),
    ensures
        plan@.len() == if fake {
            1int
        } else {
            26int
        },
        forall|i: int|
            0 <= i < plan@.len() ==> {
                &&& (#[trigger] plan@[i]).duration_ms >= d
                &&& plan@[i].timeout_ms >= t
                &&& plan@[i].duration_ms == d || plan@[i].duration_ms == min_volume_ms
                &&& plan@[i].timeout_ms == t || plan@[i].extra_watchdog_ms > 0
                &&& !plan@[i].counts <==> !fake && (i == 8 || i == 24 || i == 25)
                &&& plan@[i].flex is Some <==> !fake && 19 <= i <= 22
            },
        !fake ==> plan@[5].duration_ms >= min_volume_ms,
        !fake && grid.0 > 0 && grid.1 > 1 ==> forall|i: int|
            19 <= i <= 22 ==> {
                let cell = ((#[trigger] plan@[i]).flex->0).0;
                &&& cell.col < cell.cols
                &&& cell.row < cell.rows
                &&& !(cell.force_size_pos && cell.pos_first_only)
            },
{
}

/// A run of tests that were asked for runs each of them, in the order asked for, with the
/// time asked for; a change of the volume takes at least its least time. Asking for none is
/// an error of its own.
pub proof fn a_sequence_runs_what_was_asked_for(
    tests: Vec<SeqTest>,
    d: u64,
    t: u64,
    min_volume_ms: u64,
    r: Result<Vec<PlannedTest>, i32>,
    i: int,
    name: &'static str,
)
    requires
        call_ensures(run_sequence_tests, (&tests, d, t, min_volume_ms), r),
        0 <= i < tests@.len(),
        call_ensures(to_subcmd, (tests@[i],), name),
    ensures
        r is Ok,
        (r->Ok_0)@.len() == tests@.len(),
        (r->Ok_0)@[i].name == name,
        (r->Ok_0)@[i].counts,
        (r->Ok_0)@[i].timeout_ms == t,
        (r->Ok_0)@[i].flex is None,
        !(tests@[i] is RepeatVolume) ==> (r->Ok_0)@[i].duration_ms == d,
        tests@[i] is RepeatVolume ==> {
            let took = (r->Ok_0)@[i].duration_ms;
            &&& took >= d && took >= min_volume_ms
            &&& took == d || took == min_volume_ms
        },
{
}

/// Asking for no test at all is answered with an exit code of its own.
pub proof fn an_empty_sequence_is_an_error(
    tests: Vec<SeqTest>,
    d: u64,
    t: u64,
    min_volume_ms: u64,
    r: Result<Vec<PlannedTest>, i32>,
)
    requires
        call_ensures(run_sequence_tests, (&tests, d, t, min_volume_ms), r),
    ensures
        r is Err <==> tests@.len() == 0,
        r matches Err(code) ==> code != 0 && code != 1,
{
}

/// A child is told how long to run and how long it may take, then what to run, and last
/// whatever else there is. It is asked to be quiet exactly when its output is captured, and
/// for logs exactly when they were wanted.
pub proof fn a_child_is_told_what_to_run(
    subcmd: &str,
    duration_ms: u64,
    timeout_ms: u64,
    extra: Vec<String>,
    io: SubtestIo,
    args: Vec<String>,
)
    requires
        call_ensures(subtest_args, (subcmd, duration_ms, timeout_ms, &extra, io), args),
    ensures
        ({
            let quiet = if io is CaptureQuiet {
                2int
            } else {
                0int
            };
            let logs = if io == (SubtestIo::Inherit { logs: true }) {
                1int
            } else {
                0int
            };
            &&& args@.len() == quiet + 4 + logs + 1 + extra@.len()
            &&& quiet > 0 ==> args@[0]@ == "--quiet"@ && args@[1]@ == "--no-warn"@
            &&& args@[quiet]@ == "--duration"@
            &&& args@[quiet + 1]@ == dec(duration_ms as nat)
            &&& args@[quiet + 2]@ == "--timeout"@
            &&& args@[quiet + 3]@ == dec(timeout_ms as nat)
            &&& logs > 0 ==> args@[quiet + 4]@ == "--logs"@
            &&& args@[quiet + 4 + logs]@ == subcmd@
            &&& forall|i: int|
                0 <= i < extra@.len() ==> args@[quiet + 5 + logs + i]@ == (#[trigger] extra@[i])@
        }),
{
    let all = texts(args@);
    let quiet = if io is CaptureQuiet {
        2int
    } else {
        0int
    };
    let logs = if io == (SubtestIo::Inherit { logs: true }) {
        1int
    } else {
        0int
    };
    assert(all.len() == args@.len());
    assert forall|i: int| 0 <= i < all.len() implies all[i] == (#[trigger] args@[i])@ by {}
    assert(args@[quiet]@ == all[quiet]);
    assert(args@[quiet + 1]@ == all[quiet + 1]);
    assert(args@[quiet + 2]@ == all[quiet + 2]);
    assert(args@[quiet + 3]@ == all[quiet + 3]);
    assert(args@[quiet + 4 + logs]@ == all[quiet + 4 + logs]);
    if logs > 0 {
        assert(args@[quiet + 4]@ == all[quiet + 4]);
    }
    if quiet > 0 {
        assert(args@[0]@ == all[0]);
        assert(args@[1]@ == all[1]);
    }
    assert forall|i: int| 0 <= i < extra@.len() implies args@[quiet + 5 + logs + i]@ == (
    #[trigger] extra@[i])@ by {
        assert(args@[quiet + 5 + logs + i]@ == all[quiet + 5 + logs + i]);
        assert(texts(extra@)[i] == extra@[i]@);
    }
}

} // verus!
