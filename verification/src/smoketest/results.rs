//! Outcomes of tests and the status line of each.

use vstd::prelude::*;
use vstd::string::*;

use crate::smoketest::config::NANOS_PER_MS;
use crate::text::{bool_text, bool_word, dec, dec_int, decimal, decimal_signed, option_dump, option_text};

verus! {

/// Which repeat was tested.
#[derive(Debug, Clone, Copy, PartialEq, Eq, Structural)]
pub enum RepeatType {
    /// Relayed keys.
    Relay,
    /// Shell commands.
    Shell,
    /// Volume changes.
    Volume,
}

impl RepeatType {
    /// The name of the repeat.
    pub open spec fn label(self) -> Seq<char> {
        match self {
            RepeatType::Relay => "relay"@,
            RepeatType::Shell => "shell"@,
            RepeatType::Volume => "volume"@,
        }
    }

    /// The name of the repeat.
    pub fn name(self) -> (s: &'static str)
        ensures
            s@ == self.label(),
    {
        match self {
            RepeatType::Relay => "relay",
            RepeatType::Shell => "shell",
            RepeatType::Volume => "volume",
        }
    }
}

/// Which window operation was tested.
#[derive(Debug, Clone, Copy, PartialEq, Eq, Structural)]
pub enum WindowOperation {
    /// A window was raised.
    Raise,
    /// A window was focused.
    Focus,
    /// A window was hidden or shown.
    Hide,
}

impl WindowOperation {
    /// The name of the operation.
    pub open spec fn label(self) -> Seq<char> {
        match self {
            WindowOperation::Raise => "raise"@,
            WindowOperation::Focus => "focus"@,
            WindowOperation::Hide => "hide"@,
        }
    }

    /// The name of the operation.
    pub fn name(self) -> (s: &'static str)
        ensures
            s@ == self.label(),
    {
        match self {
            WindowOperation::Raise => "raise",
            WindowOperation::Focus => "focus",
            WindowOperation::Hide => "hide",
        }
    }
}

/// What a test has to say about itself.
#[derive(Debug)]
pub enum TestDetails {
    /// A HUD test.
    Ui {
        /// Whether the HUD was seen.
        hud_seen: bool,
        /// Milliseconds until the HUD was visible.
        time_to_hud_ms: Option<u64>,
    },
    /// A focus test.
    Focus {
        /// Title of the focused window.
        title: String,
        /// Process of the focused window.
        pid: i32,
    },
    /// A repeat test.
    Repeat {
        /// How often the action repeated.
        count: usize,
        /// Which action it was.
        test_type: RepeatType,
    },
    /// A window operation.
    Window {
        /// The operation.
        operation: WindowOperation,
    },
    /// Nothing in particular.
    Generic,
}

/// Outcome of a test.
#[derive(Debug)]
pub struct TestOutcome {
    /// Whether the test passed.
    pub success: bool,
    /// Whole milliseconds that the test took.
    pub elapsed_ms: u64,
    /// What the test has to say about itself.
    pub details: TestDetails,
    /// An optional message.
    pub message: Option<String>,
}

/// What stands between the parentheses of a status line.
pub open spec fn status_body(outcome: TestOutcome) -> Seq<char> {
    match outcome.details {
        TestDetails::Ui { hud_seen, time_to_hud_ms } => "hud_seen="@ + bool_word(hud_seen)
            + ", time_to_hud_ms="@ + option_dump(time_to_hud_ms) + ", "@,
        TestDetails::Focus { title, pid } => "title='"@ + title@ + "', pid="@ + dec_int(pid as int)
            + ", "@,
        TestDetails::Repeat { count, test_type } => dec(count as nat) + " "@ + test_type.label()
            + " repeats, "@,
        TestDetails::Window { operation } => operation.label() + " operation completed, "@,
        TestDetails::Generic => match outcome.message {
            Some(message) => message@ + ", "@,
            None => Seq::empty(),
        },
    }
}

/// The status line of a test.
pub open spec fn status_line(outcome: TestOutcome, test_name: Seq<char>) -> Seq<char> {
    test_name + (if outcome.success {
        ": OK ("@
    } else {
        ": FAIL ("@
    }) + status_body(outcome) + "elapsed="@ + dec(outcome.elapsed_ms as nat) + "ms)"@
}

impl TestOutcome {
    /// A passed test.
    pub fn success(details: TestDetails) -> (r: Self)
        ensures
            r == (TestOutcome { success: true, elapsed_ms: 0, details, message: None }),
    {
        TestOutcome { success: true, elapsed_ms: 0, details, message: None }
    }

    /// A failed test, with the reason.
    pub fn failure(details: TestDetails, message: String) -> (r: Self)
        ensures
            r == (TestOutcome { success: false, elapsed_ms: 0, details, message: Some(message) }),
    {
        TestOutcome { success: false, elapsed_ms: 0, details, message: Some(message) }
    }

    /// The outcome with the time that the test took, in nanoseconds.
    pub fn with_elapsed(self, elapsed: u64) -> (r: Self)
        ensures
            r == (TestOutcome { elapsed_ms: elapsed / NANOS_PER_MS, ..self }),
    {
        TestOutcome { elapsed_ms: elapsed / NANOS_PER_MS, ..self }
    }

    /// The outcome with the time that the test took, in milliseconds.
    pub fn with_elapsed_ms(self, ms: u64) -> (r: Self)
        ensures
            r == (TestOutcome { elapsed_ms: ms, ..self }),
    {
        TestOutcome { elapsed_ms: ms, ..self }
    }

    /// The outcome with a message.
    pub fn with_message(self, message: String) -> (r: Self)
        ensures
            r == (TestOutcome { message: Some(message), ..self }),
    {
        TestOutcome { message: Some(message), ..self }
    }

    fn body(&self) -> (s: String)
        ensures
            s@ == status_body(*self),
    {
        match &self.details {
            TestDetails::Ui { hud_seen, time_to_hud_ms } => {
                let mut s = "hud_seen=".to_owned();
                s.append(bool_text(*hud_seen));
                s.append(", time_to_hud_ms=");
                s.append(option_text(*time_to_hud_ms).as_str());
                s.append(", ");
                s
            },
            TestDetails::Focus { title, pid } => {
                let mut s = "title='".to_owned();
                s.append(title.as_str());
                s.append("', pid=");
                s.append(decimal_signed(*pid as i64).as_str());
                s.append(", ");
                s
            },
            TestDetails::Repeat { count, test_type } => {
                let mut s = decimal(*count as u64);
                s.append(" ");
                s.append(test_type.name());
                s.append(" repeats, ");
                s
            },
            TestDetails::Window { operation } => {
                let mut s = operation.name().to_owned();
                s.append(" operation completed, ");
                s
            },
            TestDetails::Generic => match &self.message {
                Some(message) => {
                    let mut s = message.clone();
                    s.append(", ");
                    s
                },
                None => String::new(),
            },
        }
    }

    /// The status line of the test.
    pub fn format_status(&self, test_name: &str) -> (s: String)
        ensures
            s@ == status_line(*self, test_name@),
    {
        let mut s = test_name.to_owned();
        if self.success {
            s.append(": OK (");
        } else {
            s.append(": FAIL (");
        }
        s.append(self.body().as_str());
        s.append("elapsed=");
        s.append(decimal(self.elapsed_ms).as_str());
        s.append("ms)");
        s
    }
}

impl Default for TestOutcome {
    fn default() -> (r: Self)
        ensures
            r == (TestOutcome {
                success: false,
                elapsed_ms: 0,
                details: TestDetails::Generic,
                message: None,
            }),
    {
        TestOutcome { success: false, elapsed_ms: 0, details: TestDetails::Generic, message: None }
    }
}

} // verus!
