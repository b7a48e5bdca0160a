//! The raise test: two windows are raised in turn by keys.

use vstd::prelude::*;
use vstd::string::*;

use crate::smoketest::error::Error;
use crate::smoketest::hide_test::Stroke;
use crate::text::text_eq;
use crate::window::WindowInfo;

verus! {

/// The config of the test, which raises two windows by their titles.
pub open spec fn raise_config_text(first: Seq<char>, second: Seq<char>) -> Seq<char> {
    "(\n    keys: [\n        (\"shift+cmd+0\", \"activate\", keys([\n            (\"r\", \"raise\", keys([\n                (\"1\", \"one\", raise(title: \""@
        + first + "\")),\n                (\"2\", \"two\", raise(title: \""@ + second
        + "\")),\n            ])),\n            (\"shift+cmd+0\", \"exit\", exit, (global: true, hide: true)),\n        ])),\n        (\"esc\", \"Back\", pop, (global: true, hide: true, hud_only: true)),\n    ]\n)\n"@
}

/// The config of the test, which raises two windows by their titles.
pub fn raise_config(first: &str, second: &str) -> (r: String)
    ensures
        r@ == raise_config_text(first@, second@),
{
    let mut s = "(\n    keys: [\n        (\"shift+cmd+0\", \"activate\", keys([\n            (\"r\", \"raise\", keys([\n                (\"1\", \"one\", raise(title: \"".to_owned();
    s.append(first);
    s.append("\")),\n                (\"2\", \"two\", raise(title: \"");
    s.append(second);
    s.append(
        "\")),\n            ])),\n            (\"shift+cmd+0\", \"exit\", exit, (global: true, hide: true)),\n        ])),\n        (\"esc\", \"Back\", pop, (global: true, hide: true, hud_only: true)),\n    ]\n)\n",
    );
    s
}

/// A window that is awaited, and whether its application reports it.
#[derive(Debug)]
pub struct AwaitedWindow {
    /// Its process.
    pub pid: i32,
    /// Its title.
    pub title: String,
    /// Whether its application reports it.
    pub reported: bool,
}

/// Whether a window is there: some window has its process or its title, or its
/// application reports it.
pub open spec fn is_present(windows: Seq<WindowInfo>, w: AwaitedWindow) -> bool {
    w.reported || exists|i: int|
        0 <= i < windows.len() && ((#[trigger] windows[i]).pid == w.pid || windows[i].title@
            == w.title@)
}

fn present(windows: &Vec<WindowInfo>, w: &AwaitedWindow) -> (r: bool)
    ensures
        r == is_present(windows@, *w),
{
    if w.reported {
        return true;
    }
    let mut i: usize = 0;
    while i < windows.len()
        invariant
            i <= windows@.len(),
            forall|j: int|
                0 <= j < i ==> !((#[trigger] windows@[j]).pid == w.pid || windows@[j].title@
                    == w.title@),
        decreases windows@.len() - i,
    {
        if windows[i].pid == w.pid || text_eq(windows[i].title.as_str(), w.title.as_str()) {
            return true;
        }
        i = i + 1;
    }
    false
}

/// Whether all awaited windows are there.
pub open spec fn everyone_present(windows: Seq<WindowInfo>, expected: Seq<AwaitedWindow>) -> bool {
    forall|i: int| 0 <= i < expected.len() ==> is_present(windows, #[trigger] expected[i])
}

/// Whether all awaited windows are there.
pub fn all_present(windows: &Vec<WindowInfo>, expected: &Vec<AwaitedWindow>) -> (r: bool)
    ensures
        r <==> forall|i: int|
            0 <= i < expected@.len() ==> is_present(windows@, #[trigger] expected@[i]),
        r == everyone_present(windows@, expected@),
{
    let mut i: usize = 0;
    while i < expected.len()
        invariant
            i <= expected@.len(),
            forall|j: int| 0 <= j < i ==> is_present(windows@, #[trigger] expected@[j]),
        decreases expected@.len() - i,
    {
        if !present(windows, &expected[i]) {
            return false;
        }
        i = i + 1;
    }
    true
}

/// What the test came to.
#[derive(Debug, Clone, Copy, PartialEq, Eq, Structural)]
pub enum RaiseResult {
    /// Both windows were raised.
    Passed,
    /// The windows did not appear.
    HelpersUnseen,
    /// The HUD did not appear.
    HudUnseen,
    /// A window was gone before it was to be raised.
    WindowGone(bool),
    /// A window was not raised.
    NotRaised(bool),
}

/// How far the test has come. A flag tells the second window from the first.
#[derive(Debug, Clone, Copy, PartialEq, Eq, Structural)]
pub enum RaiseStage {
    /// Both windows are awaited.
    Appearing,
    /// The session is started.
    Starting,
    /// The HUD is awaited.
    Activating,
    /// The menu is opened.
    Opening(bool),
    /// The window is awaited.
    Finding(bool),
    /// The raise is typed.
    Raising(bool),
    /// The window has to come to the front, in this round.
    Fronting(bool, u8),
    /// The HUD has to report the window, in this round.
    Reporting(bool, u8),
    /// The raise is typed again.
    Repeating(bool),
    /// The menu is opened again.
    Reopening(bool),
    /// The window is awaited again.
    Refinding(bool),
    /// The raise is typed once more.
    Retrying(bool),
    /// Everything is ended, after this result.
    Cleaning(RaiseResult),
    /// The test is over.
    Over,
}

/// What was learned in the test.
#[derive(Debug)]
pub enum RaiseEvent {
    /// The step is done.
    Done,
    /// The step has failed.
    Failed(Error),
    /// What a wait came to.
    Answer(bool),
}

/// Which windows are awaited.
#[derive(Debug, Clone, Copy, PartialEq, Eq, Structural)]
pub enum RaiseWindows {
    /// Both.
    Both,
    /// The first.
    First,
    /// The second.
    Second,
}

/// What to do in the test.
#[derive(Debug)]
pub enum RaiseAction {
    /// Wait for windows, in milliseconds.
    AwaitWindows(RaiseWindows, u64),
    /// Write the config and start the session.
    StartSession,
    /// Wait for the HUD, in milliseconds.
    AwaitHud(u64),
    /// Type.
    Type(Vec<Stroke>),
    /// Wait until the window is in front, in milliseconds.
    AwaitFront(bool, u64),
    /// Wait until the HUD reports the window, in milliseconds.
    AwaitReport(bool, u64),
    /// End the session, where there is one, and the helpers; remove the config when
    /// the test has come to its end.
    Cleanup {
        /// Whether there is a session.
        session: bool,
        /// Whether the config is removed.
        remove_config: bool,
    },
    /// The test is over.
    Finish(Result<(), Error>),
}

/// A run of the test.
#[derive(Debug)]
pub struct RaiseTest {
    /// Title of the first window.
    pub first: String,
    /// Title of the second window.
    pub second: String,
    /// Allowance in milliseconds.
    pub timeout_ms: u64,
    /// How far the test has come.
    pub stage: RaiseStage,
}

/// The key that raises a window.
pub open spec fn raise_key(second: bool) -> &'static str {
    if second {
        "2"
    } else {
        "1"
    }
}

/// What is typed in a stage.
pub open spec fn stage_strokes(stage: RaiseStage) -> Seq<Stroke> {
    match stage {
        RaiseStage::Opening(second) => if second {
            seq![Stroke::Pause(250), Stroke::Key("shift+cmd+0")]
        } else {
            seq![Stroke::Key("r")]
        },
        RaiseStage::Raising(second) => if second {
            seq![Stroke::Key("r"), Stroke::Pause(120), Stroke::Key("2")]
        } else {
            seq![Stroke::Key("1")]
        },
        RaiseStage::Repeating(second) => seq![Stroke::Pause(300), Stroke::Key(raise_key(second))],
        RaiseStage::Reopening(_) => seq![
            Stroke::Key("shift+cmd+0"),
            Stroke::Pause(150),
            Stroke::Key("r"),
        ],
        RaiseStage::Retrying(second) => seq![Stroke::Key(raise_key(second))],
        _ => Seq::empty(),
    }
}

/// The window of a flag.
pub open spec fn which(second: bool) -> RaiseWindows {
    if second {
        RaiseWindows::Second
    } else {
        RaiseWindows::First
    }
}

fn which_of(second: bool) -> (r: RaiseWindows)
    ensures
        r == which(second),
{
    if second {
        RaiseWindows::Second
    } else {
        RaiseWindows::First
    }
}

/// The stage after a window was raised.
pub open spec fn after_raised(second: bool) -> RaiseStage {
    if second {
        RaiseStage::Cleaning(RaiseResult::Passed)
    } else {
        RaiseStage::Opening(true)
    }
}

/// The stage that follows when a step is done, or a wait has come to `yes`.
///
/// A window is looked for at the front, then in the reports of the HUD; when neither
/// shows it, its key is typed again, and at last the menu is opened again.
pub open spec fn next_stage(stage: RaiseStage, yes: bool) -> RaiseStage {
    match stage {
        RaiseStage::Appearing => if yes {
            RaiseStage::Starting
        } else {
            RaiseStage::Cleaning(RaiseResult::HelpersUnseen)
        },
        RaiseStage::Starting => RaiseStage::Activating,
        RaiseStage::Activating => if yes {
            RaiseStage::Opening(false)
        } else {
            RaiseStage::Cleaning(RaiseResult::HudUnseen)
        },
        RaiseStage::Opening(second) => RaiseStage::Finding(second),
        RaiseStage::Finding(second) => if yes {
            RaiseStage::Raising(second)
        } else {
            RaiseStage::Cleaning(RaiseResult::WindowGone(second))
        },
        RaiseStage::Raising(second) => RaiseStage::Fronting(second, 0),
        RaiseStage::Fronting(second, round) => if yes {
            after_raised(second)
        } else {
            RaiseStage::Reporting(second, round)
        },
        RaiseStage::Reporting(second, round) => if yes {
            after_raised(second)
        } else if round == 0 {
            RaiseStage::Repeating(second)
        } else if round == 1 {
            RaiseStage::Reopening(second)
        } else {
            RaiseStage::Cleaning(RaiseResult::NotRaised(second))
        },
        RaiseStage::Repeating(second) => RaiseStage::Fronting(second, 1),
        RaiseStage::Reopening(second) => RaiseStage::Refinding(second),
        RaiseStage::Refinding(second) => RaiseStage::Retrying(second),
        RaiseStage::Retrying(second) => RaiseStage::Fronting(second, 2),
        RaiseStage::Cleaning(_) => RaiseStage::Over,
        RaiseStage::Over => RaiseStage::Over,
    }
}

fn advance(stage: RaiseStage, yes: bool) -> (r: RaiseStage)
    ensures
        r == next_stage(stage, yes),
{
    match stage {
        RaiseStage::Appearing => {
            if yes {
                RaiseStage::Starting
            } else {
                RaiseStage::Cleaning(RaiseResult::HelpersUnseen)
            }
        },
        RaiseStage::Starting => RaiseStage::Activating,
        RaiseStage::Activating => {
            if yes {
                RaiseStage::Opening(false)
            } else {
                RaiseStage::Cleaning(RaiseResult::HudUnseen)
            }
        },
        RaiseStage::Opening(second) => RaiseStage::Finding(second),
        RaiseStage::Finding(second) => {
            if yes {
                RaiseStage::Raising(second)
            } else {
                RaiseStage::Cleaning(RaiseResult::WindowGone(second))
            }
        },
        RaiseStage::Raising(second) => RaiseStage::Fronting(second, 0),
        RaiseStage::Fronting(second, round) => {
            if !yes {
                RaiseStage::Reporting(second, round)
            } else if second {
                RaiseStage::Cleaning(RaiseResult::Passed)
            } else {
                RaiseStage::Opening(true)
            }
        },
        RaiseStage::Reporting(second, round) => {
            if yes {
                if second {
                    RaiseStage::Cleaning(RaiseResult::Passed)
                } else {
                    RaiseStage::Opening(true)
                }
            } else if round == 0 {
                RaiseStage::Repeating(second)
            } else if round == 1 {
                RaiseStage::Reopening(second)
            } else {
                RaiseStage::Cleaning(RaiseResult::NotRaised(second))
            }
        },
        RaiseStage::Repeating(second) => RaiseStage::Fronting(second, 1),
        RaiseStage::Reopening(second) => RaiseStage::Refinding(second),
        RaiseStage::Refinding(second) => RaiseStage::Retrying(second),
        RaiseStage::Retrying(second) => RaiseStage::Fronting(second, 2),
        RaiseStage::Cleaning(_) => RaiseStage::Over,
        RaiseStage::Over => RaiseStage::Over,
    }
}

/// Whether a stage waits for an answer.
pub open spec fn asks(stage: RaiseStage) -> bool {
    stage is Appearing || stage is Activating || stage is Finding || stage is Fronting
        || stage is Reporting || stage is Refinding
}

/// Whether an action is that of a stage.
pub open spec fn stage_action(run: RaiseTest, stage: RaiseStage, action: RaiseAction) -> bool {
    match stage {
        RaiseStage::Appearing => action == RaiseAction::AwaitWindows(RaiseWindows::Both, 8_000),
        RaiseStage::Starting => action is StartSession,
        RaiseStage::Activating => action == RaiseAction::AwaitHud(run.timeout_ms),
        RaiseStage::Finding(second) => action == RaiseAction::AwaitWindows(which(second), 6_000),
        RaiseStage::Refinding(second) => action == RaiseAction::AwaitWindows(which(second), 1_500),
        RaiseStage::Fronting(second, _) => action == RaiseAction::AwaitFront(
            second,
            run.timeout_ms / 2,
        ),
        RaiseStage::Reporting(second, _) => action == RaiseAction::AwaitReport(
            second,
            run.timeout_ms / 2,
        ),
        RaiseStage::Cleaning(result) => action == (RaiseAction::Cleanup {
            session: result !is HelpersUnseen,
            remove_config: result is Passed || result == RaiseResult::NotRaised(true),
        }),
        RaiseStage::Over => action is Finish,
        _ => action matches RaiseAction::Type(strokes) && strokes@ == stage_strokes(stage),
    }
}

/// Whether a test ends with the error that a result stands for.
pub open spec fn result_error(run: RaiseTest, result: RaiseResult, r: Result<(), Error>) -> bool {
    match result {
        RaiseResult::Passed => r is Ok,
        RaiseResult::HelpersUnseen => not_seen(r, 8_000, "helpers not visible in CG/AX"@),
        RaiseResult::HudUnseen => r == Err::<(), Error>(
            Error::HudNotVisible { timeout_ms: run.timeout_ms },
        ),
        RaiseResult::WindowGone(second) => not_seen(
            r,
            6_000,
            (if second {
                "second window not visible before menu: '"@ + run.second@
            } else {
                "first window not visible before menu: '"@ + run.first@
            }) + "'"@,
        ),
        RaiseResult::NotRaised(second) => not_seen(
            r,
            run.timeout_ms,
            if second {
                run.second@
            } else {
                run.first@
            },
        ),
    }
}

/// Whether a result says that something was not observed in time.
pub open spec fn not_seen(r: Result<(), Error>, allowed: u64, what: Seq<char>) -> bool {
    r matches Err(Error::FocusNotObserved { timeout_ms, expected }) && timeout_ms == allowed
        && expected@ == what
}

impl RaiseTest {
    fn act(&self, stage: RaiseStage) -> (r: RaiseAction)
        ensures
            stage_action(*self, stage, r),
    {
        match stage {
            RaiseStage::Appearing => RaiseAction::AwaitWindows(RaiseWindows::Both, 8_000),
            RaiseStage::Starting => RaiseAction::StartSession,
            RaiseStage::Activating => RaiseAction::AwaitHud(self.timeout_ms),
            RaiseStage::Finding(second) => RaiseAction::AwaitWindows(which_of(second), 6_000),
            RaiseStage::Refinding(second) => RaiseAction::AwaitWindows(which_of(second), 1_500),
            RaiseStage::Fronting(second, _) => RaiseAction::AwaitFront(second, self.timeout_ms / 2),
            RaiseStage::Reporting(second, _) => RaiseAction::AwaitReport(
                second,
                self.timeout_ms / 2,
            ),
            RaiseStage::Cleaning(result) => RaiseAction::Cleanup {
                session: !matches!(result, RaiseResult::HelpersUnseen),
                remove_config: matches!(result, RaiseResult::Passed | RaiseResult::NotRaised(true)),
            },
            RaiseStage::Over => RaiseAction::Finish(Ok(())),
            _ => RaiseAction::Type(RaiseTest::strokes(stage)),
        }
    }

    fn strokes(stage: RaiseStage) -> (r: Vec<Stroke>)
        ensures
            r@ == stage_strokes(stage),
    {
        let r = match stage {
            RaiseStage::Opening(second) => {
                if second {
                    vec![Stroke::Pause(250), Stroke::Key("shift+cmd+0")]
                } else {
                    vec![Stroke::Key("r")]
                }
            },
            RaiseStage::Raising(second) => {
                if second {
                    vec![Stroke::Key("r"), Stroke::Pause(120), Stroke::Key("2")]
                } else {
                    vec![Stroke::Key("1")]
                }
            },
            RaiseStage::Repeating(second) => {
                if second {
                    vec![Stroke::Pause(300), Stroke::Key("2")]
                } else {
                    vec![Stroke::Pause(300), Stroke::Key("1")]
                }
            },
            RaiseStage::Reopening(_) => {
                vec![Stroke::Key("shift+cmd+0"), Stroke::Pause(150), Stroke::Key("r")]
            },
            RaiseStage::Retrying(second) => {
                if second {
                    vec![Stroke::Key("2")]
                } else {
                    vec![Stroke::Key("1")]
                }
            },
            _ => Vec::new(),
        };
        assert(r@ =~= stage_strokes(stage));
        r
    }

    fn unseen(timeout_ms: u64, expected: String) -> (r: Result<(), Error>)
        ensures
            not_seen(r, timeout_ms, expected@),
    {
        Err(Error::FocusNotObserved { timeout_ms, expected })
    }

    fn conclude(&self, result: RaiseResult) -> (r: Result<(), Error>)
        ensures
            result_error(*self, result, r),
    {
        match result {
            RaiseResult::Passed => Ok(()),
            RaiseResult::HelpersUnseen => RaiseTest::unseen(
                8_000,
                "helpers not visible in CG/AX".to_owned(),
            ),
            RaiseResult::HudUnseen => Err(Error::HudNotVisible { timeout_ms: self.timeout_ms }),
            RaiseResult::WindowGone(second) => {
                let mut s = if second {
                    "second window not visible before menu: '".to_owned()
                } else {
                    "first window not visible before menu: '".to_owned()
                };
                if second {
                    s.append(self.second.as_str());
                } else {
                    s.append(self.first.as_str());
                }
                s.append("'");
                RaiseTest::unseen(6_000, s)
            },
            RaiseResult::NotRaised(second) => {
                if second {
                    RaiseTest::unseen(self.timeout_ms, self.second.clone())
                } else {
                    RaiseTest::unseen(self.timeout_ms, self.first.clone())
                }
            },
        }
    }

    /// Begin the test, once both helpers are started.
    pub fn run_raise_test(first: String, second: String, timeout_ms: u64) -> (r: (
        Self,
        RaiseAction,
    ))
        ensures
            r.0 == (RaiseTest { first, second, timeout_ms, stage: RaiseStage::Appearing }),
            r.1 == RaiseAction::AwaitWindows(RaiseWindows::Both, 8_000),
    {
        (
            RaiseTest { first, second, timeout_ms, stage: RaiseStage::Appearing },
            RaiseAction::AwaitWindows(RaiseWindows::Both, 8_000),
        )
    }

    /// Take in what came of a step.
    pub fn next(&mut self, event: RaiseEvent) -> (r: RaiseAction)
        ensures
            final(self).first == old(self).first,
            final(self).second == old(self).second,
            final(self).timeout_ms == old(self).timeout_ms,
            raise_answer(*old(self), event, final(self).stage, r),
    {
        match self.stage {
            RaiseStage::Over => RaiseAction::Finish(Ok(())),
            RaiseStage::Cleaning(result) => {
                self.stage = RaiseStage::Over;
                RaiseAction::Finish(self.conclude(result))
            },
            stage => {
                let waiting = matches!(
                    stage,
                    RaiseStage::Appearing
                    | RaiseStage::Activating
                    | RaiseStage::Finding(_)
                    | RaiseStage::Fronting(_, _)
                    | RaiseStage::Reporting(_, _)
                    | RaiseStage::Refinding(_)
                );
                match event {
                    RaiseEvent::Failed(e) => {
                        self.stage = RaiseStage::Over;
                        RaiseAction::Finish(Err(e))
                    },
                    RaiseEvent::Answer(yes) => {
                        if !waiting {
                            return self.act(stage);
                        }
                        self.stage = advance(stage, yes);
                        self.act(self.stage)
                    },
                    RaiseEvent::Done => {
                        if waiting {
                            return self.act(stage);
                        }
                        self.stage = advance(stage, true);
                        self.act(self.stage)
                    },
                }
            },
        }
    }
}

/// Whether an event is answered as it has to be.
pub open spec fn raise_answer(
    before: RaiseTest,
    event: RaiseEvent,
    after: RaiseStage,
    action: RaiseAction,
) -> bool {
    match before.stage {
        RaiseStage::Over => after is Over && action is Finish,
        RaiseStage::Cleaning(result) => after is Over && (action matches RaiseAction::Finish(r)
            && result_error(before, result, r)),
        stage => match event {
            RaiseEvent::Failed(e) => after is Over && action == RaiseAction::Finish(Err(e)),
            RaiseEvent::Answer(yes) => if asks(stage) {
                after == next_stage(stage, yes) && stage_action(before, after, action)
            } else {
                after == stage && stage_action(before, stage, action)
            },
            RaiseEvent::Done => if asks(stage) {
                after == stage && stage_action(before, stage, action)
            } else {
                after == next_stage(stage, true) && stage_action(before, after, action)
            },
        },
    }
}

/// How many steps a stage is from the end at most.
pub open spec fn raise_measure(stage: RaiseStage) -> int {
    let window = |second: bool|
        if second {
            0int
        } else {
            20
        };
    match stage {
        RaiseStage::Appearing => 43,
        RaiseStage::Starting => 42,
        RaiseStage::Activating => 41,
        RaiseStage::Opening(second) => 18 + window(second),
        RaiseStage::Finding(second) => 17 + window(second),
        RaiseStage::Raising(second) => 16 + window(second),
        RaiseStage::Fronting(second, round) => window(second) + (if round == 0 {
            15
        } else if round == 1 {
            12
        } else {
            6int
        }),
        RaiseStage::Reporting(second, round) => window(second) + (if round == 0 {
            14
        } else if round == 1 {
            11
        } else {
            5int
        }),
        RaiseStage::Repeating(second) => 13 + window(second),
        RaiseStage::Reopening(second) => 10 + window(second),
        RaiseStage::Refinding(second) => 9 + window(second),
        RaiseStage::Retrying(second) => 8 + window(second),
        RaiseStage::Cleaning(_) => 1,
        RaiseStage::Over => 0,
    }
}

/// The test ends: every answer brings it nearer to its end.
pub proof fn the_raise_test_ends(stage: RaiseStage, yes: bool)
    requires
        stage !is Over,
    ensures
        0 <= raise_measure(next_stage(stage, yes)) < raise_measure(stage),
{
}

/// A window counts as raised only when it was at the front or the HUD has reported it,
/// and the second comes only after the first.
pub proof fn raised_means_seen(stage: RaiseStage, yes: bool)
    requires
        next_stage(stage, yes) == RaiseStage::Cleaning(RaiseResult::Passed) || next_stage(stage, yes)
            == RaiseStage::Opening(true),
    ensures
        yes,
        stage is Fronting || stage is Reporting,
        next_stage(stage, yes) is Cleaning <==> (stage matches RaiseStage::Fronting(second, _)
            && second) || (stage matches RaiseStage::Reporting(second, _) && second),
{
}

} // verus!
