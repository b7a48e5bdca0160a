//! Commands of the smoketest runner and how they are dispatched.

use vstd::prelude::*;
use vstd::string::*;

use crate::text::{dec, decimal, join, joined, text_eq, texts};

verus! {

/// Commands of the runner.
#[derive(Debug)]
pub enum Commands {
    /// Run every case.
    All,
    /// List the cases.
    List,
    /// Run the named cases in order.
    Sequence {
        /// Names of the cases.
        tests: Vec<String>,
    },
    /// Verify the full HUD.
    Hud,
    /// Verify the mini HUD.
    Mini,
    /// Verify HUD placement on several displays.
    Displays,
    /// Verify notification windows.
    Notifications,
    /// Verify that a corrected config activates.
    ConfigActivation,
    /// Verify that the app reconnects.
    Reconnect,
}

impl Commands {
    /// The case that a command names by itself.
    pub open spec fn slug(&self) -> Option<Seq<char>> {
        match self {
            Commands::Hud => Some("hud"@),
            Commands::Mini => Some("mini"@),
            Commands::Displays => Some("displays"@),
            Commands::Notifications => Some("notifications"@),
            Commands::ConfigActivation => Some("config-activation"@),
            Commands::Reconnect => Some("reconnect"@),
            Commands::All | Commands::List | Commands::Sequence { .. } => None,
        }
    }

    /// The case that a command names by itself.
    pub fn case_slug(&self) -> (r: Option<&'static str>)
        ensures
            match r {
                Some(s) => self.slug() == Some(s@),
                None => self.slug() is None,
            },
    {
        match self {
            Commands::Hud => Some("hud"),
            Commands::Mini => Some("mini"),
            Commands::Displays => Some("displays"),
            Commands::Notifications => Some("notifications"),
            Commands::ConfigActivation => Some("config-activation"),
            Commands::Reconnect => Some("reconnect"),
            Commands::All | Commands::List | Commands::Sequence { .. } => None,
        }
    }
}

/// Arguments of the runner.
#[derive(Debug)]
pub struct Cli {
    /// Suppress headings.
    pub quiet: bool,
    /// Do not show the hands-off overlay.
    pub no_warn: bool,
    /// Go on after a failed case.
    pub no_fail_fast: bool,
    /// Text to show in the overlay.
    pub info: Option<String>,
    /// Budget for each case in milliseconds.
    pub run_budget_ms: u64,
    /// How often to run the selected cases.
    pub repeat: u32,
    /// What to run.
    pub command: Commands,
}

/// How cases are run.
#[derive(Debug)]
pub struct RunnerConfig {
    /// Suppress headings.
    pub quiet: bool,
    /// Show the hands-off overlay.
    pub warn_overlay: bool,
    /// Budget for each case in milliseconds.
    pub run_budget_ms: u64,
    /// Stop at the first failed case.
    pub fail_fast: bool,
    /// Text to show in the overlay.
    pub overlay_info: Option<String>,
}

/// How cases are run under these arguments.
pub fn runner_config(cli: &Cli) -> (r: RunnerConfig)
    ensures
        r == (RunnerConfig {
            quiet: cli.quiet,
            warn_overlay: !cli.no_warn,
            run_budget_ms: cli.run_budget_ms,
            fail_fast: !cli.no_fail_fast,
            overlay_info: cli.info,
        }),
{
    let overlay_info = match &cli.info {
        Some(text) => Some(text.clone()),
        None => None,
    };
    RunnerConfig {
        quiet: cli.quiet,
        warn_overlay: !cli.no_warn,
        run_budget_ms: cli.run_budget_ms,
        fail_fast: !cli.no_fail_fast,
        overlay_info,
    }
}

/// What one iteration of a command runs.
#[derive(Debug)]
pub enum Dispatch {
    /// The named cases in order.
    Cases(Vec<String>),
    /// Every registered case.
    Everything,
    /// Nothing; the cases are listed.
    Catalog,
}

/// Whether a dispatch is what a command asks for.
pub open spec fn dispatches(command: &Commands, d: Dispatch) -> bool {
    match command {
        Commands::All => d is Everything,
        Commands::List => d is Catalog,
        Commands::Sequence { tests } => d matches Dispatch::Cases(names) && texts(names@) == texts(
            tests@,
        ),
        _ => d matches Dispatch::Cases(names) && texts(names@) == seq![command.slug()->0],
    }
}

/// What one iteration of a command runs.
pub fn dispatch_command_once(command: &Commands) -> (r: Dispatch)
    ensures
        dispatches(command, r),
{
    if let Some(slug) = command.case_slug() {
        let mut names: Vec<String> = Vec::new();
        names.push(slug.to_owned());
        assert(texts(names@) =~= seq![slug@]);
        return Dispatch::Cases(names);
    }
    match command {
        Commands::All => Dispatch::Everything,
        Commands::Sequence { tests } => {
            let mut names: Vec<String> = Vec::new();
            let mut i: usize = 0;
            while i < tests.len()
                invariant
                    i <= tests@.len(),
                    texts(names@) == texts(tests@.take(i as int)),
                decreases tests@.len() - i,
            {
                let ghost before = names@;
                names.push(tests[i].clone());
                proof {
                    assert(texts(names@) =~= texts(before).push(tests@[i as int]@));
                    assert(texts(tests@.take(i + 1)) =~= texts(tests@.take(i as int)).push(
                        tests@[i as int]@,
                    ));
                }
                i = i + 1;
            }
            assert(tests@.take(tests@.len() as int) =~= tests@);
            Dispatch::Cases(names)
        },
        _ => Dispatch::Catalog,
    }
}

/// The heading of an iteration.
pub open spec fn run_heading(iteration: u32, total: u32) -> Seq<char> {
    "Run "@ + dec(iteration as nat) + "/"@ + dec(total as nat)
}

/// The heading of an iteration, when there are several and headings are shown.
pub fn iteration_heading(cli: &Cli, iteration: u32) -> (r: Option<String>)
    ensures
        match r {
            Some(s) => cli.repeat > 1 && !cli.quiet && s@ == run_heading(iteration, cli.repeat),
            None => cli.repeat <= 1 || cli.quiet,
        },
{
    if cli.repeat > 1 && !cli.quiet {
        let mut s = "Run ".to_owned();
        s.append(decimal(iteration as u64).as_str());
        s.append("/");
        s.append(decimal(cli.repeat as u64).as_str());
        Some(s)
    } else {
        None
    }
}

/// The message about failed cases.
pub fn cases_failed(slugs: &Vec<String>, err: &str) -> (s: String)
    ensures
        s@ == "smoketest "@ + joined(texts(slugs@), ", "@) + ": ERROR: "@ + err@,
{
    let mut s = "smoketest ".to_owned();
    s.append(join(slugs, ", ").as_str());
    s.append(": ERROR: ");
    s.append(err);
    s
}

/// The arguments of the overlay helper, when the runner was started as one: the
/// arguments behind the flag, under the helper's own name.
pub fn standalone_overlay_args(args: &Vec<String>, flag: &str) -> (r: Option<Vec<String>>)
    ensures
        match r {
            Some(rest) => {
                &&& args@.len() >= 2
                &&& args@[1]@ == flag@
                &&& texts(rest@) == seq!["warn-overlay"@] + texts(args@.skip(2))
            },
            None => args@.len() < 2 || args@[1]@ != flag@,
        },
{
    if args.len() < 2 || !text_eq(args[1].as_str(), flag) {
        return None;
    }
    let mut rest: Vec<String> = Vec::new();
    rest.push("warn-overlay".to_owned());
    let mut i: usize = 2;
    assert(texts(rest@) =~= seq!["warn-overlay"@] + texts(args@.subrange(2, 2)));
    while i < args.len()
        invariant
            2 <= i <= args@.len(),
            texts(rest@) == seq!["warn-overlay"@] + texts(args@.subrange(2, i as int)),
        decreases args@.len() - i,
    {
        let ghost before = rest@;
        rest.push(args[i].clone());
        proof {
            assert(texts(rest@) =~= texts(before).push(args@[i as int]@));
            assert(texts(args@.subrange(2, i + 1)) =~= texts(args@.subrange(2, i as int)).push(
                args@[i as int]@,
            ));
            assert(texts(rest@) =~= seq!["warn-overlay"@] + texts(args@.subrange(2, i + 1)));
        }
        i = i + 1;
    }
    assert(args@.subrange(2, args@.len() as int) =~= args@.skip(2));
    Some(rest)
}

} // verus!
