//! Waiting for a child process, and ending it when its time is up.

use vstd::prelude::*;
use vstd::string::*;

use crate::smoketest::error::{fails_with, Error};
use crate::text::{dec_int, decimal_signed, texts};

verus! {

/// What was learned of a child process.
#[derive(Debug)]
pub enum ChildEvent {
    /// The child is not owned any more.
    NotOwned,
    /// The thread that waits for the child could not be started.
    WaiterFailed(String),
    /// The child has ended with a status.
    Exited(i32),
    /// Waiting for the child failed.
    WaitFailed(String),
    /// The time is up.
    TimedOut,
    /// The thread that waits for the child is gone.
    WaiterLost(String),
}

/// What to do about a child process.
#[derive(Debug)]
pub enum ChildStep {
    /// Kill the child and wait on, without a limit.
    Kill,
    /// Stop waiting.
    Finish {
        /// Whether the child has to be killed and reaped directly.
        reap: bool,
        /// Whether the child leaves the registry.
        unregister: bool,
        /// Exit status and whether the end was forced.
        result: Result<(i32, bool), Error>,
    },
}

/// A wait for a child process with a limited time.
#[derive(Debug)]
pub struct ChildWait {
    /// The child.
    pub pid: i32,
    /// Whether the child has been killed.
    pub forced: bool,
}

/// The message about a child.
pub open spec fn about_child(pid: i32, what: Seq<char>) -> Seq<char> {
    "child process "@ + dec_int(pid as int) + what
}

fn child_message(pid: i32, what: &str) -> (s: String)
    ensures
        s@ == about_child(pid, what@),
{
    let mut s = "child process ".to_owned();
    s.append(decimal_signed(pid as i64).as_str());
    s.append(what);
    s
}

/// Whether a step is the answer to an event.
pub open spec fn child_step(pid: i32, forced: bool, event: ChildEvent, step: ChildStep) -> bool {
    match event {
        ChildEvent::TimedOut => step is Kill,
        ChildEvent::NotOwned => step matches ChildStep::Finish { reap, unregister, result } && !reap
            && !unregister && fails_with(result, about_child(pid, " is no longer owned"@)),
        ChildEvent::WaiterFailed(e) => step matches ChildStep::Finish { reap, unregister, result }
            && reap && unregister && result == Err::<(i32, bool), Error>(Error::Io(e)),
        ChildEvent::Exited(status) => step matches ChildStep::Finish { reap, unregister, result }
            && !reap && unregister && result == Ok::<(i32, bool), Error>((status, forced)),
        ChildEvent::WaitFailed(e) => step matches ChildStep::Finish { reap, unregister, result }
            && !reap && unregister && result == Err::<(i32, bool), Error>(Error::Io(e)),
        ChildEvent::WaiterLost(e) => step matches ChildStep::Finish { reap, unregister, result }
            && reap && unregister && fails_with(
            result,
            about_child(
                pid,
                if forced {
                    " waiter disconnected after forced termination: "@ + e@
                } else {
                    " waiter disconnected"@
                },
            ),
        ),
    }
}

impl ChildWait {
    /// A wait that has just begun.
    pub fn wait_with_budget(pid: i32) -> (r: Self)
        ensures
            r == (ChildWait { pid, forced: false }),
    {
        ChildWait { pid, forced: false }
    }

    /// Take in what was learned, and say what to do. The time is up only once.
    pub fn next(&mut self, event: ChildEvent) -> (r: ChildStep)
        requires
            event is TimedOut ==> !old(self).forced,
        ensures
            child_step(old(self).pid, old(self).forced, event, r),
            final(self).pid == old(self).pid,
            final(self).forced == (old(self).forced || event is TimedOut),
    {
        match event {
            ChildEvent::TimedOut => {
                self.forced = true;
                ChildStep::Kill
            },
            ChildEvent::NotOwned => ChildStep::Finish {
                reap: false,
                unregister: false,
                result: Err(Error::InvalidState(child_message(self.pid, " is no longer owned"))),
            },
            ChildEvent::WaiterFailed(e) => ChildStep::Finish {
                reap: true,
                unregister: true,
                result: Err(Error::Io(e)),
            },
            ChildEvent::Exited(status) => ChildStep::Finish {
                reap: false,
                unregister: true,
                result: Ok((status, self.forced)),
            },
            ChildEvent::WaitFailed(e) => ChildStep::Finish {
                reap: false,
                unregister: true,
                result: Err(Error::Io(e)),
            },
            ChildEvent::WaiterLost(e) => {
                let message = if self.forced {
                    let mut what = " waiter disconnected after forced termination: ".to_owned();
                    what.append(e.as_str());
                    child_message(self.pid, what.as_str())
                } else {
                    child_message(self.pid, " waiter disconnected")
                };
                ChildStep::Finish {
                    reap: true,
                    unregister: true,
                    result: Err(Error::InvalidState(message)),
                }
            },
        }
    }
}

/// The result of killing a child and waiting for it: the first failure counts,
/// and a child that is gone already is fine.
pub fn kill_and_wait(outcome: Option<(Result<(), String>, Result<(), String>)>) -> (r: Result<
    (),
    Error,
>)
    ensures
        match outcome {
            None => r is Ok,
            Some((Err(e), _)) => r == Err::<(), Error>(Error::Io(e)),
            Some((Ok(_), Err(e))) => r == Err::<(), Error>(Error::Io(e)),
            Some((Ok(_), Ok(_))) => r is Ok,
        },
{
    match outcome {
        None => Ok(()),
        Some((Err(e), _)) => Err(Error::Io(e)),
        Some((Ok(_), Err(e))) => Err(Error::Io(e)),
        Some((Ok(_), Ok(_))) => Ok(()),
    }
}

/// The arguments with which the app is built.
pub open spec fn build_arguments(release: bool) -> Seq<Seq<char>> {
    let base = seq!["build"@, "-p"@, "hotki-app"@, "--bin"@, "hotki-app"@];
    if release {
        base.push("--release"@)
    } else {
        base
    }
}

/// The arguments with which the app is built.
pub fn build_hotki_app(release: bool) -> (r: Vec<String>)
    ensures
        texts(r@) == build_arguments(release),
{
    let mut args: Vec<String> = Vec::new();
    args.push("build".to_owned());
    args.push("-p".to_owned());
    args.push("hotki-app".to_owned());
    args.push("--bin".to_owned());
    args.push("hotki-app".to_owned());
    if release {
        args.push("--release".to_owned());
    }
    assert(texts(args@) =~= build_arguments(release));
    args
}

/// A child that is killed because its time is up, and then ends, is reported as
/// ended by force.
pub proof fn killed_children_are_reported_as_forced(
    pid: i32,
    status: i32,
    first: ChildStep,
    second: ChildStep,
)
    requires
        child_step(pid, false, ChildEvent::TimedOut, first),
        child_step(pid, true, ChildEvent::Exited(status), second),
    ensures
        first is Kill,
        second == (ChildStep::Finish {
            reap: false,
            unregister: true,
            result: Ok::<(i32, bool), Error>((status, true)),
        }),
{
}

/// Every wait for an owned child ends with the child out of the registry.
pub proof fn owned_children_leave_the_registry(
    pid: i32,
    forced: bool,
    event: ChildEvent,
    step: ChildStep,
)
    requires
        child_step(pid, forced, event, step),
        !(event is NotOwned),
    ensures
        step matches ChildStep::Finish { unregister, .. } ==> unregister,
{
}

} // verus!
