//! What the parts of the harness promise to each other.

use vstd::prelude::*;

use crate::pick::{first_where_at, first_where_none};
use crate::smoketest::cli::{dispatch_command_once, standalone_overlay_args, Commands, Dispatch};
use crate::smoketest::config::{remaining_ms, RunBudget};
use crate::smoketest::error::{DriverError, Error};
use crate::smoketest::focus_guard::{is_guarded, FocusGuard, SnapshotWindow};
use crate::smoketest::process::{child_step, ChildEvent, ChildStep};
use crate::smoketest::repeat::{
    is_core, is_number, is_space, judge_restore, number, parse_volume, sh_single_quote,
    shell_reads, the_core_is_unique, unsigned, workload_of, RepeatWorkload,
};
use crate::smoketest::results::TestOutcome;
use crate::smoketest::timed_look::{HudNews, ListenStep, LookStep, TimedLook};
use crate::text::{dec, texts};
use crate::text_laws::{all_digits, value_of};

verus! {

/// Whether a text is made of spaces, tabs and line breaks alone.
pub open spec fn blank(s: Seq<char>) -> bool {
    forall|i: int|
        0 <= i < s.len() ==> #[trigger] s[i] == ' ' || s[i] == '\t' || s[i] == '\n' || s[i] == '\r'
}

proof fn numbers_have_their_value(s: Seq<char>)
    requires
        all_digits(s),
    ensures
        number(s) == value_of(s),
    decreases s.len(),
{
    if s.len() > 0 {
        assert(all_digits(s.drop_last())) by {
            assert forall|i: int| 0 <= i < s.drop_last().len() implies '0'
                <= #[trigger] s.drop_last()[i] <= '9' by {
                assert(s[i] == s.drop_last()[i]);
            }
        }
        numbers_have_their_value(s.drop_last());
        assert('0' <= s[s.len() - 1] <= '9');
    }
}

/// A volume that was printed as a number, with white space around it, is read back as that
/// number.
pub proof fn printed_volumes_are_read_back(
    before: Seq<char>,
    digits: Seq<char>,
    after: Seq<char>,
    out: &str,
    r: Option<u64>,
)
    requires
        call_ensures(parse_volume, (out,), r),
        out@ == before + digits + after,
        blank(before),
        blank(after),
        digits.len() > 0,
        all_digits(digits),
        value_of(digits) <= u64::MAX,
    ensures
        r is Some,
        r->0 == value_of(digits),
{
    let s = out@;
    let a = before.len() as int;
    let b = a + digits.len();
    assert(is_core(s, a, b)) by {
        assert forall|i: int| 0 <= i < a implies is_space(#[trigger] s[i]) by {
            assert(s[i] == before[i]);
        }
        assert forall|i: int| b <= i < s.len() implies is_space(#[trigger] s[i]) by {
            assert(s[i] == after[i - b]);
        }
        assert(s[a] == digits[0]);
        assert(s[b - 1] == digits[digits.len() - 1]);
    }
    let (from, to) = choose|from: int, to: int| #[trigger]
        is_core(s, from, to) && ({
            let word = unsigned(s.subrange(from, to));
            match r {
                Some(n) => is_number(word) && number(word) == n,
                None => !is_number(word) || number(word) > u64::MAX,
            }
        });
    the_core_is_unique(s, a, b, from, to);
    assert(s.subrange(a, b) =~= digits);
    assert(digits[0] != '+');
    numbers_have_their_value(digits);
}

/// A text with a letter in it is no volume.
pub proof fn words_are_no_volume(out: &str, r: Option<u64>, k: int)
    requires
        call_ensures(parse_volume, (out,), r),
        0 <= k < out@.len(),
        'a' <= out@[k] <= 'z' || 'A' <= out@[k] <= 'Z',
    ensures
        r is None,
{
    let s = out@;
    let (from, to) = choose|from: int, to: int| #[trigger]
        is_core(s, from, to) && ({
            let word = unsigned(s.subrange(from, to));
            match r {
                Some(n) => is_number(word) && number(word) == n,
                None => !is_number(word) || number(word) > u64::MAX,
            }
        });
    assert(!is_space(s[k]));
    assert(from <= k < to);
    let core = s.subrange(from, to);
    assert(core[k - from] == s[k]);
    let word = unsigned(core);
    if r is Some {
        if core[0] == '+' {
            assert(word[k - from - 1] == s[k]);
        } else {
            assert(word[k - from] == s[k]);
        }
    }
}

/// A shell reads a quoted word back as the text that was quoted.
pub proof fn quoted_words_are_read_back(s: &str, q: String)
    requires
        call_ensures(sh_single_quote, (s,), q),
    ensures
        shell_reads(q@, false) == Some(s@),
{
    crate::smoketest::repeat::quoting_is_undone_by_the_shell(s@);
}

/// The name of a workload leads back to it.
pub proof fn workloads_are_found_by_their_name(
    w: RepeatWorkload,
    slug: &'static str,
    r: Result<RepeatWorkload, Error>,
)
    requires
        call_ensures(RepeatWorkload::slug, (w,), slug),
        call_ensures(workload_of, (slug,), r),
    ensures
        r == Ok::<RepeatWorkload, Error>(w),
{
    reveal_strlit("repeat-relay");
    reveal_strlit("repeat-shell");
    reveal_strlit("repeat-volume");
    assert("repeat-relay"@[7] == 'r');
    assert("repeat-shell"@[7] == 's');
    assert("repeat-volume"@[7] == 'v');
    assert(w.slug_spec() == slug@);
    if let Ok(found) = r {
        assert(found.slug_spec()[7] == w.slug_spec()[7]);
    }
}

/// A volume counts as restored exactly when setting it worked and it reads as it did before.
pub proof fn restored_means_as_before(
    original: u64,
    set: Result<(), String>,
    reading: Option<u64>,
    r: Result<(), Error>,
)
    requires
        call_ensures(judge_restore, (original, set, reading), r),
    ensures
        r is Ok <==> set is Ok && reading == Some(original),
{
}

/// What is left of a budget is what was allowed, less the time since it was started.
pub proof fn budgets_run_down_with_the_clock(
    total_ms: u64,
    started: u64,
    now: u64,
    budget: RunBudget,
    left: Option<u128>,
    elapsed: u64,
    expired: bool,
)
    requires
        call_ensures(RunBudget::new, (total_ms, started), budget),
        call_ensures(RunBudget::remaining, (budget, now), left),
        call_ensures(RunBudget::elapsed, (budget, now), elapsed),
        call_ensures(RunBudget::is_expired, (budget, now), expired),
        started <= now,
    ensures
        elapsed == now - started,
        expired <==> elapsed >= total_ms * 1_000_000,
        left matches Some(n) ==> n + elapsed == total_ms * 1_000_000 && n > 0,
        left is None <==> elapsed >= total_ms * 1_000_000,
{
}

/// The whole milliseconds before a deadline; with less than one there are none.
pub proof fn whole_milliseconds_are_left(deadline: u128, now: u64, r: Option<u64>)
    requires
        call_ensures(remaining_ms, (deadline, now), r),
        deadline <= now + u64::MAX,
    ensures
        r is None <==> deadline - now < 1_000_000,
        r matches Some(n) ==> n > 0 && n * 1_000_000 <= deadline - now < (n + 1) * 1_000_000,
{
}

/// A wait looks as long as its time is not up, and listens no longer than that; it ends well
/// exactly when what was awaited is there.
pub proof fn waits_look_until_their_time_is_up(
    timeout_ms: u64,
    pause_ms: u64,
    start: u64,
    now: u64,
    begun: (TimedLook, LookStep),
    there: bool,
    seen: LookStep,
    rested: LookStep,
    listened: ListenStep,
)
    requires
        call_ensures(TimedLook::start, (timeout_ms, pause_ms, start), begun),
        call_ensures(TimedLook::seen, (&begun.0, there), seen),
        call_ensures(TimedLook::rested, (&begun.0, now), rested),
        call_ensures(TimedLook::listen, (&begun.0, now), listened),
    ensures
        begun.1 is Look <==> timeout_ms > 0,
        there ==> seen == LookStep::Over(true),
        !there ==> seen == LookStep::Pause(pause_ms),
        rested is Look <==> now - start < timeout_ms * 1_000_000,
        !(rested is Look) ==> rested == LookStep::Over(false),
        listened is Listen <==> now - start < timeout_ms * 1_000_000,
        listened matches ListenStep::Listen(ns) ==> {
            &&& 0 < ns <= 300_000_000
            &&& now + ns <= start + timeout_ms * 1_000_000
            &&& ns == 300_000_000 || now + ns == start + timeout_ms * 1_000_000
        },
{
}

/// Listening ends well exactly on news that the window in focus has the expected title, and
/// ends at once when the connection is lost.
pub proof fn only_the_expected_focus_ends_well(
    wait: TimedLook,
    news: HudNews,
    expected: &str,
    now: u64,
    step: ListenStep,
)
    requires
        call_ensures(TimedLook::heard, (&wait, &news, expected, now), step),
    ensures
        step == ListenStep::Over(true) <==> news is Focus && news->Focus_0 is Some
            && news->Focus_0->0@ == expected@,
        news is Lost ==> step == ListenStep::Over(false),
        step is Listen ==> now < wait.deadline,
{
}

/// The status line of a test starts with its name, says whether it passed, and ends with the
/// time that it took.
pub proof fn the_status_tells_success_from_failure(
    outcome: TestOutcome,
    name: &str,
    line: String,
)
    requires
        call_ensures(TestOutcome::format_status, (&outcome, name), line),
    ensures
        ({
            let n = name@.len() as int;
            let end = "elapsed="@ + dec(outcome.elapsed_ms as nat) + "ms)"@;
            &&& line@.len() >= n + 6 + end.len()
            &&& line@.take(n) == name@
            &&& line@[n] == ':' && line@[n + 1] == ' '
            &&& line@[n + 2] == 'O' <==> outcome.success
            &&& line@[n + 2] == 'F' <==> !outcome.success
            &&& line@.skip(line@.len() - end.len()) == end
        }),
{
    reveal_strlit(": OK (");
    reveal_strlit(": FAIL (");
    let n = name@.len() as int;
    let end = "elapsed="@ + dec(outcome.elapsed_ms as nat) + "ms)"@;
    let mark = if outcome.success {
        ": OK ("@
    } else {
        ": FAIL ("@
    };
    let body = crate::smoketest::results::status_body(outcome);
    assert(line@ =~= name@ + mark + body + end);
    assert(line@.take(n) =~= name@);
    assert(line@.skip(line@.len() - end.len()) =~= end);
    assert(line@[n] == mark[0] && line@[n + 1] == mark[1] && line@[n + 2] == mark[2]);
}

/// The time that a test took is given in whole milliseconds, rounded down.
pub proof fn times_are_given_in_whole_milliseconds(
    outcome: TestOutcome,
    elapsed: u64,
    r: TestOutcome,
)
    requires
        call_ensures(TestOutcome::with_elapsed, (outcome, elapsed), r),
    ensures
        r.elapsed_ms * 1_000_000 <= elapsed < (r.elapsed_ms + 1) * 1_000_000,
        r.success == outcome.success && r.details == outcome.details && r.message
            == outcome.message,
{
}

/// A child is killed exactly when its time is up. Its own status is reported exactly when it
/// has ended, with whether it had to be killed. It is reaped directly where nobody waits for
/// it any more.
pub proof fn children_are_reported_as_they_ended(
    pid: i32,
    forced: bool,
    event: ChildEvent,
    step: ChildStep,
)
    requires
        child_step(pid, forced, event, step),
    ensures
        step is Kill <==> event is TimedOut,
        step matches ChildStep::Finish { reap, unregister, result } ==> {
            &&& result is Ok <==> event is Exited
            &&& result matches Ok((status, by_force)) ==> event == ChildEvent::Exited(status)
                && by_force == forced
            &&& reap <==> event is WaiterFailed || event is WaiterLost
            &&& unregister <==> !(event is NotOwned)
        },
{
}

/// A command that names one case runs that case alone; a sequence runs the cases named, in
/// their order.
pub proof fn commands_run_what_they_name(command: Commands, d: Dispatch)
    requires
        call_ensures(dispatch_command_once, (&command,), d),
    ensures
        command is All <==> d is Everything,
        command is List <==> d is Catalog,
        command matches Commands::Sequence { tests } ==> {
            &&& d is Cases
            &&& (d->Cases_0)@.len() == tests@.len()
            &&& forall|i: int|
                0 <= i < tests@.len() ==> (#[trigger] (d->Cases_0)@[i])@ == tests@[i]@
        },
        !(command is All) && !(command is List) && !(command is Sequence) ==> d is Cases && (
        d->Cases_0)@.len() == 1,
        command is Hud ==> (d->Cases_0)@[0]@ == "hud"@,
        command is Mini ==> (d->Cases_0)@[0]@ == "mini"@,
        command is Displays ==> (d->Cases_0)@[0]@ == "displays"@,
        command is Notifications ==> (d->Cases_0)@[0]@ == "notifications"@,
        command is ConfigActivation ==> (d->Cases_0)@[0]@ == "config-activation"@,
        command is Reconnect ==> (d->Cases_0)@[0]@ == "reconnect"@,
{
    if let Dispatch::Cases(names) = d {
        let all = texts(names@);
        assert(all.len() == names@.len());
        if let Commands::Sequence { tests } = command {
            assert(texts(tests@).len() == tests@.len());
            assert forall|i: int| 0 <= i < tests@.len() implies (#[trigger] names@[i])@
                == tests@[i]@ by {
                assert(all[i] == names@[i]@);
                assert(texts(tests@)[i] == tests@[i]@);
            }
        } else {
            assert(all[0] == names@[0]@);
        }
    }
}

/// The runner acts as the overlay helper exactly when its first argument is the flag; the
/// arguments behind the flag are then passed on in order, behind the helper's name.
pub proof fn helper_arguments_are_passed_on(
    args: Vec<String>,
    flag: &str,
    r: Option<Vec<String>>,
)
    requires
        call_ensures(standalone_overlay_args, (&args, flag), r),
    ensures
        r is Some <==> args@.len() >= 2 && args@[1]@ == flag@,
        r matches Some(rest) ==> {
            &&& rest@.len() == args@.len() - 1
            &&& rest@[0]@ == "warn-overlay"@
            &&& forall|i: int| 1 <= i < rest@.len() ==> (#[trigger] rest@[i])@ == args@[i + 1]@
        },
{
    if let Some(rest) = r {
        let all = texts(rest@);
        assert(all.len() == rest@.len());
        assert(all[0] == rest@[0]@);
        assert forall|i: int| 1 <= i < rest@.len() implies (#[trigger] rest@[i])@ == args@[i + 1]@ by {
            assert(all[i] == rest@[i]@);
            assert(texts(args@.skip(2))[i - 1] == args@.skip(2)[i - 1]@);
        }
    }
}

/// Whether a window is the guarded one.
pub open spec fn guarded(g: FocusGuard, w: SnapshotWindow) -> bool {
    w.pid == g.pid && w.title@ == g.title@
}

/// A guard is satisfied exactly when the first window of its process with its title is
/// focused on the active space, and Accessibility reports the process in front with that
/// title, or with none. A world service that is not connected is not asked.
pub proof fn guards_are_satisfied_in_front(
    g: FocusGuard,
    windows: Vec<SnapshotWindow>,
    ax: Option<(String, i32)>,
    r: Result<bool, Error>,
    i: int,
)
    requires
        call_ensures(FocusGuard::verify_alignment, (&g, Ok(windows), ax), r),
        0 <= i < windows@.len(),
        guarded(g, windows@[i]),
        forall|j: int| 0 <= j < i ==> !guarded(g, #[trigger] windows@[j]),
    ensures
        r == Ok::<bool, Error>(
            windows@[i].focused && windows@[i].on_active_space && ax is Some && (ax->0).1 == g.pid
                && ((ax->0).0@.len() == 0 || (ax->0).0@ == g.title@),
        ),
{
    first_where_at(windows@, is_guarded(g.pid, g.title@), i);
}

/// A guard whose window is nowhere to be seen is not satisfied, and an error of the world
/// service is passed on unless there is no connection at all.
pub proof fn unseen_windows_satisfy_no_guard(
    g: FocusGuard,
    world: Result<Vec<SnapshotWindow>, DriverError>,
    ax: Option<(String, i32)>,
    r: Result<bool, Error>,
)
    requires
        call_ensures(FocusGuard::verify_alignment, (&g, world, ax), r),
    ensures
        world matches Ok(windows) ==> ((forall|j: int|
            0 <= j < windows@.len() ==> !guarded(g, #[trigger] windows@[j])) ==> r == Ok::<
            bool,
            Error,
        >(false)),
        world matches Err(e) ==> if e is NotInitialized {
            r is Ok
        } else {
            r == Err::<bool, Error>(Error::RpcDriver(e))
        },
{
    if let Ok(windows) = world {
        if forall|j: int| 0 <= j < windows@.len() ==> !guarded(g, #[trigger] windows@[j]) {
            first_where_none(windows@, is_guarded(g.pid, g.title@));
        }
    }
}

} // verus!
