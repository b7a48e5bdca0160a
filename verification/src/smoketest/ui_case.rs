//! Cases that drive a session: the HUD, notifications, and recovery.

use vstd::prelude::*;
use vstd::string::*;

use crate::smoketest::activation::{earliest, ActivationOutcome};
use crate::smoketest::config::{ms, NANOS_PER_MS, RETRY_DELAY_MS};
use crate::smoketest::error::{is_invalid, Error};
use crate::smoketest::windows::{
    alignment_complaint, describe_windows, lowest_first, notification_complaint, sort_lowest_first,
    verify_display_alignment, verify_notification_window, windows_text, DisplayFrame, HudDisplay,
    WindowSnapshot,
};
use crate::text::{bool_text, bool_word, option_dump, option_text, text_eq};

verus! {

/// How the HUD is shown.
#[derive(Debug, Clone, Copy, PartialEq, Eq, Structural)]
pub enum DemoHudMode {
    /// The full HUD.
    Hud,
    /// The compact HUD.
    Mini,
}

impl DemoHudMode {
    /// The mode in a style file.
    pub open spec fn token(self) -> Seq<char> {
        match self {
            DemoHudMode::Hud => "\"hud\""@,
            DemoHudMode::Mini => "\"mini\""@,
        }
    }

    /// The mode in a style file.
    pub fn luau_value(self) -> (r: &'static str)
        ensures
            r@ == self.token(),
    {
        match self {
            DemoHudMode::Hud => "\"hud\"",
            DemoHudMode::Mini => "\"mini\"",
        }
    }
}

/// The config of the HUD cases.
pub open spec fn demo_config_text() -> Seq<char> {
    "\nreturn function(menu, ctx)\n  menu:submenu(\"shift+cmd+0\", \"activate\", function(activate, inner)\n    activate:submenu(\"t\", \"Tools\", function(sub, subctx)\n      sub:bind(\"n\", \"Notify\", function(actx)\n        actx:shell(\"echo notify\", { ok_notify = \"info\", err_notify = \"warn\" })\n      end, { stay = true })\n      sub:bind(\"d\", \"Details\", function(actx)\n        actx:show_details(\"on\")\n      end, { stay = true })\n      sub:bind(\"s\", \"Selector\", function(actx)\n        actx:select({\n          title = \"Pick Demo\",\n          placeholder = \"Search...\",\n          items = { \"Alpha\", \"Beta\" },\n          on_select = function(select_ctx, item, query)\n            select_ctx:notify(\"info\", \"Selector\", item.label .. \":\" .. query)\n          end,\n          on_cancel = function(cancel_ctx)\n            cancel_ctx:notify(\"warn\", \"Selector\", \"cancel\")\n          end,\n        })\n      end, { stay = true })\n      sub:bind(\"esc\", \"Exit\", function(actx)\n        actx:exit()\n      end, { hidden = true })\n    end)\n  end)\nend\n"@
}

/// The config of the HUD cases.
pub fn demo_config() -> (r: String)
    ensures
        r@ == demo_config_text(),
{
    "\nreturn function(menu, ctx)\n  menu:submenu(\"shift+cmd+0\", \"activate\", function(activate, inner)\n    activate:submenu(\"t\", \"Tools\", function(sub, subctx)\n      sub:bind(\"n\", \"Notify\", function(actx)\n        actx:shell(\"echo notify\", { ok_notify = \"info\", err_notify = \"warn\" })\n      end, { stay = true })\n      sub:bind(\"d\", \"Details\", function(actx)\n        actx:show_details(\"on\")\n      end, { stay = true })\n      sub:bind(\"s\", \"Selector\", function(actx)\n        actx:select({\n          title = \"Pick Demo\",\n          placeholder = \"Search...\",\n          items = { \"Alpha\", \"Beta\" },\n          on_select = function(select_ctx, item, query)\n            select_ctx:notify(\"info\", \"Selector\", item.label .. \":\" .. query)\n          end,\n          on_cancel = function(cancel_ctx)\n            cancel_ctx:notify(\"warn\", \"Selector\", \"cancel\")\n          end,\n        })\n      end, { stay = true })\n      sub:bind(\"esc\", \"Exit\", function(actx)\n        actx:exit()\n      end, { hidden = true })\n    end)\n  end)\nend\n".to_owned()
}

/// The style file of the HUD cases.
pub open spec fn demo_style_text(mode: DemoHudMode) -> Seq<char> {
    "\nreturn {\n  hud = {\n      mode = "@ + mode.token()
        + ",\n      pos = \"se\",\n  },\n  notify = {\n      pos = \"left\",\n  },\n}\n"@
}

/// The style file of the HUD cases.
pub fn demo_style(mode: DemoHudMode) -> (r: String)
    ensures
        r@ == demo_style_text(mode),
{
    let mut s = "\nreturn {\n  hud = {\n      mode = ".to_owned();
    s.append(mode.luau_value());
    s.append(",\n      pos = \"se\",\n  },\n  notify = {\n      pos = \"left\",\n  },\n}\n");
    s
}

/// The config of the notification case.
pub open spec fn notification_config_text() -> Seq<char> {
    "\nreturn function(menu, ctx)\n  menu:bind(\"shift+cmd+n\", \"Native Notification\", function(actx)\n    actx:shell(\"echo native notification\", {\n      ok_notify = \"info\",\n      err_notify = \"warn\",\n    })\n  end)\nend\n"@
}

/// The config of the notification case.
pub fn notification_config() -> (r: String)
    ensures
        r@ == notification_config_text(),
{
    "\nreturn function(menu, ctx)\n  menu:bind(\"shift+cmd+n\", \"Native Notification\", function(actx)\n    actx:shell(\"echo native notification\", {\n      ok_notify = \"info\",\n      err_notify = \"warn\",\n    })\n  end)\nend\n".to_owned()
}

/// A config with one binding.
pub open spec fn binding_config_text(ident: Seq<char>) -> Seq<char> {
    "\nreturn function(menu, ctx)\n  menu:bind(\""@ + ident
        + "\", \"Runtime smoke\", function(actx)\n    actx:notify(\"info\", \"Runtime smoke\", \"ready\")\n  end)\nend\n"@
}

/// A config with one binding.
pub fn config_with_binding(ident: &str) -> (r: String)
    ensures
        r@ == binding_config_text(ident@),
{
    let mut s = "\nreturn function(menu, ctx)\n  menu:bind(\"".to_owned();
    s.append(ident);
    s.append(
        "\", \"Runtime smoke\", function(actx)\n    actx:notify(\"info\", \"Runtime smoke\", \"ready\")\n  end)\nend\n",
    );
    s
}

/// A message that the server sends to the UI.
#[derive(Debug)]
pub enum UiMessage {
    /// A notification.
    Notify {
        /// Its title.
        title: String,
        /// Its text.
        text: String,
    },
    /// The details window is turned on or off.
    ShowDetails(bool),
    /// The selector has changed.
    SelectorUpdate {
        /// What the selector is headed with.
        heading: String,
        /// What was typed into it.
        query: String,
    },
    /// The selector is hidden.
    SelectorHide,
    /// Anything else.
    Unrelated,
}

/// Which message is awaited.
#[derive(Debug, Clone, Copy, PartialEq, Eq)]
pub enum MessageRule {
    /// A notification with this title.
    NotifyTitled(&'static str),
    /// The details window is turned on.
    DetailsOn,
    /// The selector has this heading.
    SelectorTitled(&'static str),
    /// The selector has this query.
    SelectorQuery(&'static str),
    /// The selector is hidden.
    SelectorHidden,
    /// A notification with this title and text.
    NotifySaying(&'static str, &'static str),
}

impl MessageRule {
    /// Whether a message is the awaited one.
    pub open spec fn accepts(self, msg: UiMessage) -> bool {
        match (self, msg) {
            (MessageRule::NotifyTitled(t), UiMessage::Notify { title, .. }) => title@ == t@,
            (MessageRule::DetailsOn, UiMessage::ShowDetails(on)) => on,
            (MessageRule::SelectorTitled(t), UiMessage::SelectorUpdate { heading, .. }) => heading@
                == t@,
            (MessageRule::SelectorQuery(q), UiMessage::SelectorUpdate { query, .. }) => query@
                == q@,
            (MessageRule::SelectorHidden, UiMessage::SelectorHide) => true,
            (MessageRule::NotifySaying(t, x), UiMessage::Notify { title, text }) => title@ == t@
                && text@ == x@,
            _ => false,
        }
    }

    /// Whether a message is the awaited one.
    pub fn is_met_by(&self, msg: &UiMessage) -> (r: bool)
        ensures
            r == self.accepts(*msg),
    {
        match (self, msg) {
            (MessageRule::NotifyTitled(t), UiMessage::Notify { title, text: _ }) => text_eq(
                title.as_str(),
                t,
            ),
            (MessageRule::DetailsOn, UiMessage::ShowDetails(on)) => *on,
            (MessageRule::SelectorTitled(t), UiMessage::SelectorUpdate { heading, query: _ }) =>
                text_eq(heading.as_str(), t),
            (MessageRule::SelectorQuery(q), UiMessage::SelectorUpdate { heading: _, query }) =>
                text_eq(query.as_str(), q),
            (MessageRule::SelectorHidden, UiMessage::SelectorHide) => true,
            (MessageRule::NotifySaying(t, x), UiMessage::Notify { title, text }) => text_eq(
                title.as_str(),
                t,
            ) && text_eq(text.as_str(), x),
            _ => false,
        }
    }

    /// Whether the awaited message is among those from a place on.
    pub open spec fn met_since(self, messages: Seq<UiMessage>, cursor: int) -> bool {
        exists|i: int| cursor <= i < messages.len() && self.accepts(#[trigger] messages[i])
    }

    /// Whether the awaited message is among those from a place on.
    pub fn is_met_since(&self, messages: &Vec<UiMessage>, cursor: usize) -> (r: bool)
        ensures
            r <==> exists|i: int|
                cursor <= i < messages@.len() && self.accepts(#[trigger] messages@[i]),
            r == self.met_since(messages@, cursor as int),
    {
        let mut i: usize = cursor;
        while i < messages.len()
            invariant
                cursor <= i,
                forall|j: int| cursor <= j < i && j < messages@.len() ==> !self.accepts(
                    #[trigger] messages@[j],
                ),
            decreases messages@.len() - i,
        {
            if self.is_met_by(&messages[i]) {
                return true;
            }
            i = i + 1;
        }
        false
    }
}

/// A step of a session case. Each step has to be done in the time that is left.
#[derive(Debug, Clone, Copy, PartialEq, Eq)]
pub enum SessionStep {
    /// Wait until the driver is ready.
    EnsureReady,
    /// Wait for a binding.
    AwaitIdent(&'static str),
    /// Wait for the bindings of the demo menu.
    AwaitDemoMenu,
    /// Bring the HUD up and wait for a binding in it.
    Activate(&'static str),
    /// Remember how many messages there are, then press a key.
    MarkAndPress(&'static str),
    /// Press a key.
    Press(&'static str),
    /// Wait for a message after the remembered place.
    AwaitMessage(MessageRule),
    /// List the windows of the session.
    ListWindows,
    /// Check that the HUD is on the focused display.
    CheckDisplays,
    /// Wait for a notification on screen and list the notifications.
    AwaitNotification,
    /// Check where the notification is.
    CheckNotification,
    /// Replace the config by one with a binding.
    RewriteConfig(&'static str),
    /// Have the config loaded.
    ActivateConfig,
    /// Shut the server down.
    ShutdownServer,
}

/// The bindings of the demo menu.
pub fn demo_menu_idents() -> (r: Vec<&'static str>)
    ensures
        r@ == seq!["n", "d", "s"],
{
    vec!["n", "d", "s"]
}

/// What is logged at the end of a session case.
#[derive(Debug, Clone, Copy, PartialEq, Eq, Structural)]
pub enum SessionLog {
    /// When the HUD came up, and what was on screen.
    UiOutcome,
    /// The notifications on screen.
    Notifications,
    /// Nothing.
    Nothing,
}

/// A session case.
#[derive(Debug)]
pub struct SessionPlan {
    /// Name of the case.
    pub slug: &'static str,
    /// Name of the config file.
    pub config_name: &'static str,
    /// What the config file holds at first.
    pub config: String,
    /// What the style file beside it holds, where there is one.
    pub style: Option<String>,
    /// The steps.
    pub steps: Vec<SessionStep>,
    /// What is logged at the end.
    pub log: SessionLog,
}

/// The steps of a HUD case before the check of the displays.
pub open spec fn demo_steps() -> Seq<SessionStep> {
    seq![
        SessionStep::EnsureReady,
        SessionStep::Activate("t"),
        SessionStep::Press("t"),
        SessionStep::AwaitDemoMenu,
        SessionStep::MarkAndPress("n"),
        SessionStep::AwaitMessage(MessageRule::NotifyTitled("Shell command")),
        SessionStep::MarkAndPress("d"),
        SessionStep::AwaitMessage(MessageRule::DetailsOn),
        SessionStep::MarkAndPress("s"),
        SessionStep::AwaitMessage(MessageRule::SelectorTitled("Pick Demo")),
        SessionStep::MarkAndPress("a"),
        SessionStep::AwaitMessage(MessageRule::SelectorQuery("a")),
        SessionStep::MarkAndPress("return"),
        SessionStep::AwaitMessage(MessageRule::SelectorHidden),
        SessionStep::AwaitMessage(MessageRule::NotifySaying("Selector", "Alpha:a")),
        SessionStep::ListWindows,
    ]
}

/// Whether a plan is that of a HUD case.
pub open spec fn is_ui_plan(
    plan: SessionPlan,
    slug: Seq<char>,
    file: Seq<char>,
    mode: DemoHudMode,
    check: bool,
) -> bool {
    &&& plan.slug@ == slug
    &&& plan.config_name@ == file
    &&& plan.config@ == demo_config_text()
    &&& plan.style matches Some(style)
    &&& style@ == demo_style_text(mode)
    &&& plan.log is UiOutcome
    &&& plan.steps@ == if check {
        demo_steps().push(SessionStep::CheckDisplays).push(SessionStep::Press("esc"))
    } else {
        demo_steps().push(SessionStep::Press("esc"))
    }
}

fn run_ui_case_with(slug: &'static str, config_name: &'static str, mode: DemoHudMode, check: bool) -> (r:
    SessionPlan)
    ensures
        is_ui_plan(r, slug@, config_name@, mode, check),
{
    let mut steps = vec![
        SessionStep::EnsureReady,
        SessionStep::Activate("t"),
        SessionStep::Press("t"),
        SessionStep::AwaitDemoMenu,
        SessionStep::MarkAndPress("n"),
        SessionStep::AwaitMessage(MessageRule::NotifyTitled("Shell command")),
        SessionStep::MarkAndPress("d"),
        SessionStep::AwaitMessage(MessageRule::DetailsOn),
        SessionStep::MarkAndPress("s"),
        SessionStep::AwaitMessage(MessageRule::SelectorTitled("Pick Demo")),
        SessionStep::MarkAndPress("a"),
        SessionStep::AwaitMessage(MessageRule::SelectorQuery("a")),
        SessionStep::MarkAndPress("return"),
        SessionStep::AwaitMessage(MessageRule::SelectorHidden),
        SessionStep::AwaitMessage(MessageRule::NotifySaying("Selector", "Alpha:a")),
        SessionStep::ListWindows,
    ];
    assert(steps@ =~= demo_steps());
    if check {
        steps.push(SessionStep::CheckDisplays);
    }
    steps.push(SessionStep::Press("esc"));
    SessionPlan {
        slug,
        config_name,
        config: demo_config(),
        style: Some(demo_style(mode)),
        steps,
        log: SessionLog::UiOutcome,
    }
}

/// The case of the full HUD.
pub fn hud() -> (r: SessionPlan)
    ensures
        is_ui_plan(r, "hud"@, "hud_config.luau"@, DemoHudMode::Hud, false),
{
    run_ui_case_with("hud", "hud_config.luau", DemoHudMode::Hud, false)
}

/// The case of the compact HUD.
pub fn mini() -> (r: SessionPlan)
    ensures
        is_ui_plan(r, "mini"@, "mini_config.luau"@, DemoHudMode::Mini, false),
{
    run_ui_case_with("mini", "mini_config.luau", DemoHudMode::Mini, false)
}

/// The case of the HUD on several displays.
pub fn displays() -> (r: SessionPlan)
    ensures
        is_ui_plan(r, "displays"@, "displays_config.luau"@, DemoHudMode::Hud, true),
{
    run_ui_case_with("displays", "displays_config.luau", DemoHudMode::Hud, true)
}

/// The case of a notification.
pub fn notifications() -> (r: SessionPlan)
    ensures
        r.slug@ == "notifications"@,
        r.config_name@ == "notifications_config.luau"@,
        r.config@ == notification_config_text(),
        r.style is None,
        r.log is Notifications,
        r.steps@ == seq![
            SessionStep::EnsureReady,
            SessionStep::AwaitIdent("shift+cmd+n"),
            SessionStep::MarkAndPress("shift+cmd+n"),
            SessionStep::AwaitMessage(MessageRule::NotifyTitled("Shell command")),
            SessionStep::AwaitNotification,
            SessionStep::CheckNotification,
        ],
{
    SessionPlan {
        slug: "notifications",
        config_name: "notifications_config.luau",
        config: notification_config(),
        style: None,
        steps: vec![
            SessionStep::EnsureReady,
            SessionStep::AwaitIdent("shift+cmd+n"),
            SessionStep::MarkAndPress("shift+cmd+n"),
            SessionStep::AwaitMessage(MessageRule::NotifyTitled("Shell command")),
            SessionStep::AwaitNotification,
            SessionStep::CheckNotification,
        ],
        log: SessionLog::Notifications,
    }
}

/// The case of a config that is refused at first and accepted once it is mended.
pub fn config_activation() -> (r: SessionPlan)
    ensures
        r.slug@ == "config-activation"@,
        r.config_name@ == "invalid_initial_config.luau"@,
        r.config@ == "return function("@,
        r.style is None,
        r.log is Nothing,
        r.steps@ == seq![
            SessionStep::AwaitNotification,
            SessionStep::RewriteConfig("shift+cmd+r"),
            SessionStep::ActivateConfig,
            SessionStep::AwaitIdent("shift+cmd+r"),
        ],
{
    SessionPlan {
        slug: "config-activation",
        config_name: "invalid_initial_config.luau",
        config: "return function(".to_owned(),
        style: None,
        steps: vec![
            SessionStep::AwaitNotification,
            SessionStep::RewriteConfig("shift+cmd+r"),
            SessionStep::ActivateConfig,
            SessionStep::AwaitIdent("shift+cmd+r"),
        ],
        log: SessionLog::Nothing,
    }
}

/// The case of a server that exits and is replaced.
pub fn reconnect() -> (r: SessionPlan)
    ensures
        r.slug@ == "reconnect"@,
        r.config_name@ == "reconnect_config.luau"@,
        r.config@ == binding_config_text("shift+cmd+c"@),
        r.style is None,
        r.log is Nothing,
        r.steps@ == seq![
            SessionStep::AwaitIdent("shift+cmd+c"),
            SessionStep::ShutdownServer,
            SessionStep::EnsureReady,
            SessionStep::AwaitIdent("shift+cmd+c"),
        ],
{
    SessionPlan {
        slug: "reconnect",
        config_name: "reconnect_config.luau",
        config: config_with_binding("shift+cmd+c"),
        style: None,
        steps: vec![
            SessionStep::AwaitIdent("shift+cmd+c"),
            SessionStep::ShutdownServer,
            SessionStep::EnsureReady,
            SessionStep::AwaitIdent("shift+cmd+c"),
        ],
        log: SessionLog::Nothing,
    }
}

/// What to do while a notification is awaited.
#[derive(Debug)]
pub enum NoticeStep {
    /// List the notifications again after a pause of nanoseconds.
    Pause(u64),
    /// There are notifications.
    Done,
    /// List all windows, for the message of the failure.
    ListAll,
}

/// A wait for a notification.
#[derive(Debug, Clone, Copy, PartialEq, Eq, Structural)]
pub struct NoticeWait {
    /// When the wait began.
    pub start: u64,
    /// Allowance in milliseconds.
    pub timeout_ms: u64,
}

/// The shorter of a pause and what is left.
pub open spec fn pause_within(left: int) -> int {
    if left < RETRY_DELAY_MS * NANOS_PER_MS {
        left
    } else {
        RETRY_DELAY_MS * NANOS_PER_MS
    }
}

impl NoticeWait {
    /// Nanoseconds that have passed.
    pub open spec fn passed(self, now: u64) -> int {
        if now >= self.start {
            now - self.start
        } else {
            0
        }
    }

    /// Begin to wait for a notification.
    pub fn wait_for_notification_window(timeout_ms: u64, now: u64) -> (r: Self)
        ensures
            r == (NoticeWait { start: now, timeout_ms }),
    {
        NoticeWait { start: now, timeout_ms }
    }

    /// Take in whether there are notifications. `now` is the time of the check, and
    /// `later` is the time after it.
    pub fn look(&self, found: bool, now: u64, later: u64) -> (r: NoticeStep)
        requires
            now <= later,
        ensures
            if found {
                r is Done
            } else if self.passed(now) >= self.timeout_ms * NANOS_PER_MS {
                r is ListAll
            } else if self.passed(later) > self.timeout_ms * NANOS_PER_MS {
                r == NoticeStep::Pause(0)
            } else {
                r == NoticeStep::Pause(
                    pause_within(self.timeout_ms * NANOS_PER_MS - self.passed(later)) as u64,
                )
            },
    {
        if found {
            return NoticeStep::Done;
        }
        let span: u128 = ms(self.timeout_ms);
        let passed: u128 = if now >= self.start {
            (now - self.start) as u128
        } else {
            0
        };
        if passed >= span {
            return NoticeStep::ListAll;
        }
        let passed: u128 = if later >= self.start {
            (later - self.start) as u128
        } else {
            0
        };
        if passed > span {
            return NoticeStep::Pause(0);
        }
        let left: u128 = span - passed;
        let pause: u128 = ms(RETRY_DELAY_MS);
        if left < pause {
            NoticeStep::Pause(left as u64)
        } else {
            NoticeStep::Pause(pause as u64)
        }
    }

    /// The failure of the wait, given all windows.
    pub fn failure(windows: &Vec<WindowSnapshot>) -> (r: Error)
        ensures
            is_invalid(
                r,
                "no notification window candidates; hotki windows: "@ + windows_text(windows@),
            ),
    {
        let mut s = "no notification window candidates; hotki windows: ".to_owned();
        s.append(describe_windows(windows).as_str());
        Error::InvalidState(s)
    }
}

/// What was learned in a session case.
#[derive(Debug)]
pub enum SessionEvent {
    /// The step is done.
    Done,
    /// The step has failed.
    Failed(Error),
    /// The HUD is up.
    Activated(ActivationOutcome),
    /// The windows.
    Windows(Vec<WindowSnapshot>),
    /// How many displays there are, which one has the focus, and where the HUD says it
    /// is.
    Displays {
        /// How many displays there are.
        count: usize,
        /// The display that has the focus.
        focused: Option<u32>,
        /// Where the HUD says it is.
        hud: HudDisplay,
    },
    /// The displays.
    Frames(Vec<DisplayFrame>),
}

/// What to do in a session case.
#[derive(Debug)]
pub enum SessionAction {
    /// Perform a step.
    Perform(SessionStep),
    /// Log a text, where there is one, then shut the session down, whatever comes of
    /// that, and end it.
    Settle(Option<String>),
    /// The case is over.
    Finish(Result<(), Error>),
}

/// A run of a session case.
#[derive(Debug)]
pub struct SessionRun {
    /// The case.
    pub plan: SessionPlan,
    /// How many steps are done.
    pub at: usize,
    /// What the activation came to.
    pub activation: Option<ActivationOutcome>,
    /// The windows that were seen.
    pub windows: Option<Vec<WindowSnapshot>>,
    /// Whether a step has failed.
    pub failed: bool,
}

/// Optional windows in messages.
pub open spec fn seen_text(windows: Option<Vec<WindowSnapshot>>) -> Seq<char> {
    match windows {
        Some(w) => windows_text(w@),
        None => "<none>"@,
    }
}

/// When the HUD was first known to be visible.
pub open spec fn time_to_hud(activation: Option<ActivationOutcome>) -> Option<u64> {
    match activation {
        Some(a) => earliest(a.hud_update_ms, a.frontmost_ms),
        None => None,
    }
}

impl SessionRun {
    /// Whether the run can be carried on.
    pub open spec fn valid(&self) -> bool {
        self.at <= self.plan.steps@.len()
    }

    /// The text that is logged at the end.
    pub open spec fn log_text(&self) -> Option<Seq<char>> {
        match self.plan.log {
            SessionLog::UiOutcome => Some(
                "slug="@ + self.plan.slug@ + " hud_seen="@ + bool_word(
                    time_to_hud(self.activation) is Some,
                ) + " time_to_hud_ms="@ + option_dump(time_to_hud(self.activation))
                    + " hud_windows="@ + seen_text(self.windows) + " hud_activation="@ + (
                match self.activation {
                    Some(a) => a.summary(),
                    None => "<none>"@,
                }),
            ),
            SessionLog::Notifications => Some(seen_text(self.windows)),
            SessionLog::Nothing => None,
        }
    }

    fn log(&self) -> (r: Option<String>)
        ensures
            match self.log_text() {
                Some(t) => r matches Some(s) && s@ == t,
                None => r is None,
            },
    {
        let seen = match &self.windows {
            Some(w) => describe_windows(w),
            None => "<none>".to_owned(),
        };
        match self.plan.log {
            SessionLog::UiOutcome => {
                let time = match &self.activation {
                    Some(a) => a.hud_visible_ms(),
                    None => None,
                };
                let mut s = "slug=".to_owned();
                s.append(self.plan.slug);
                s.append(" hud_seen=");
                s.append(bool_text(time.is_some()));
                s.append(" time_to_hud_ms=");
                s.append(option_text(time).as_str());
                s.append(" hud_windows=");
                s.append(seen.as_str());
                s.append(" hud_activation=");
                match &self.activation {
                    Some(a) => {
                        s.append(a.summary_string().as_str());
                    },
                    None => {
                        s.append("<none>");
                    },
                }
                Some(s)
            },
            SessionLog::Notifications => Some(seen),
            SessionLog::Nothing => None,
        }
    }

    /// Whether an action is what the run is due for.
    pub open spec fn due(&self, action: SessionAction) -> bool {
        if self.at < self.plan.steps@.len() {
            action == SessionAction::Perform(self.plan.steps@[self.at as int])
        } else {
            action matches SessionAction::Settle(log) && (match self.log_text() {
                Some(t) => log matches Some(s) && s@ == t,
                None => log is None,
            })
        }
    }

    fn go_on(&self) -> (r: SessionAction)
        requires
            self.valid(),
        ensures
            self.due(r),
    {
        if self.at < self.plan.steps.len() {
            SessionAction::Perform(self.plan.steps[self.at])
        } else {
            SessionAction::Settle(self.log())
        }
    }

    /// Begin a session case, once its files are written and the session is started.
    pub fn start(plan: SessionPlan) -> (r: (Self, SessionAction))
        ensures
            r.0.valid(),
            r.0.plan == plan,
            r.0.at == 0,
            r.0.activation is None,
            r.0.windows is None,
            !r.0.failed,
            r.0.due(r.1),
    {
        let run = SessionRun { plan, at: 0, activation: None, windows: None, failed: false };
        let action = run.go_on();
        (run, action)
    }

    /// The windows that were seen.
    pub open spec fn seen(&self) -> Seq<WindowSnapshot> {
        match self.windows {
            Some(w) => w@,
            None => Seq::empty(),
        }
    }

    /// What is wrong once an event has come for a step, where something is.
    pub open spec fn complaint(&self, step: SessionStep, event: SessionEvent) -> Option<Seq<char>> {
        match (step, event) {
            (
                SessionStep::CheckDisplays,
                SessionEvent::Displays { count, focused, hud },
            ) => alignment_complaint(count as nat, focused, hud, self.seen()),
            (SessionStep::CheckNotification, SessionEvent::Frames(displays)) => if self.seen().len()
                == 0 {
                Some("no notification window candidates were visible"@)
            } else {
                notification_complaint(lowest_first(self.seen())[0], displays@)
            },
            _ => None,
        }
    }

    /// Whether an event is the answer to a step.
    pub open spec fn fits(step: SessionStep, event: SessionEvent) -> bool {
        match step {
            SessionStep::Activate(_) => event is Activated,
            SessionStep::ListWindows => event is Windows,
            SessionStep::AwaitNotification => event is Windows,
            SessionStep::CheckDisplays => event is Displays,
            SessionStep::CheckNotification => event is Frames,
            _ => event is Done,
        }
    }

    /// Whether an event was taken in as it has to be.
    pub open spec fn answered(&self, event: SessionEvent, after: SessionRun, action: SessionAction) -> bool {
        if self.failed || self.at >= self.plan.steps@.len() {
            after == *self && (action matches SessionAction::Finish(r) && (r is Ok
                <==> !self.failed))
        } else {
            let step = self.plan.steps@[self.at as int];
            match event {
                SessionEvent::Failed(e) => after.failed && after.at == self.at && action
                    == SessionAction::Finish(Err(e)),
                _ => if !SessionRun::fits(step, event) {
                    after == *self && self.due(action)
                } else {
                    match self.complaint(step, event) {
                        Some(why) => after.failed && after.at == self.at && (
                        action matches SessionAction::Finish(Err(e)) && is_invalid(e, why)),
                        None => {
                            &&& !after.failed
                            &&& after.at == self.at + 1
                            &&& after.due(action)
                            &&& after.activation == (match event {
                                SessionEvent::Activated(a) => Some(a),
                                _ => self.activation,
                            })
                            &&& match event {
                                SessionEvent::Windows(w) => after.seen() == w@ && after.windows is Some,
                                SessionEvent::Frames(_) => after.seen() == lowest_first(self.seen())
                                    && after.windows is Some,
                                _ => after.windows == self.windows,
                            }
                        },
                    }
                },
            }
        }
    }

    fn advance(&mut self) -> (r: SessionAction)
        requires
            old(self).at < old(self).plan.steps@.len(),
        ensures
            final(self).plan == old(self).plan,
            final(self).at == old(self).at + 1,
            final(self).activation == old(self).activation,
            final(self).windows == old(self).windows,
            final(self).failed == old(self).failed,
            final(self).due(r),
    {
        let n: usize = self.plan.steps.len();
        assert(self.at < n);
        self.at = self.at + 1;
        self.go_on()
    }

    fn fail(&mut self, e: Error) -> (r: SessionAction)
        ensures
            final(self).plan == old(self).plan,
            final(self).at == old(self).at,
            final(self).failed,
            r == SessionAction::Finish(Err(e)),
    {
        self.failed = true;
        SessionAction::Finish(Err(e))
    }

    fn check_displays(&mut self, count: usize, focused: Option<u32>, hud: HudDisplay) -> (r:
        SessionAction)
        requires
            old(self).valid(),
            !old(self).failed,
            old(self).at < old(self).plan.steps@.len(),
            old(self).plan.steps@[old(self).at as int] is CheckDisplays,
        ensures
            final(self).valid(),
            final(self).plan == old(self).plan,
            old(self).answered(SessionEvent::Displays { count, focused, hud }, *final(self), r),
    {
        let none: Vec<WindowSnapshot> = Vec::new();
        assert(none@ =~= Seq::<WindowSnapshot>::empty());
        let verdict = match &self.windows {
            Some(w) => verify_display_alignment(count, focused, hud, w),
            None => verify_display_alignment(count, focused, hud, &none),
        };
        match verdict {
            Ok(()) => self.advance(),
            Err(e) => self.fail(e),
        }
    }

    fn check_notification(&mut self, displays: &Vec<DisplayFrame>) -> (r: SessionAction)
        requires
            old(self).valid(),
            !old(self).failed,
            old(self).at < old(self).plan.steps@.len(),
            old(self).plan.steps@[old(self).at as int] is CheckNotification,
        ensures
            final(self).valid(),
            final(self).plan == old(self).plan,
            old(self).answered(SessionEvent::Frames(*displays), *final(self), r),
    {
        let sorted = match &self.windows {
            Some(w) => sort_lowest_first(w),
            None => Vec::new(),
        };
        proof {
            crate::smoketest::windows::the_lowest_window_comes_first(self.seen());
            if self.windows is None {
                assert(sorted@ =~= lowest_first(self.seen()));
            }
        }
        if sorted.len() == 0 {
            return self.fail(Error::invalid("no notification window candidates were visible"));
        }
        match verify_notification_window(&sorted[0], displays) {
            Ok(()) => {
                self.windows = Some(sorted);
                self.advance()
            },
            Err(e) => self.fail(e),
        }
    }

    /// Take in what came of a step. The steps come one after the other; the first that
    /// fails ends the case.
    pub fn next(&mut self, event: SessionEvent) -> (r: SessionAction)
        requires
            old(self).valid(),
        ensures
            final(self).valid(),
            final(self).plan == old(self).plan,
            old(self).answered(event, *final(self), r),
    {
        if self.failed {
            return SessionAction::Finish(Err(Error::invalid("the case is over")));
        }
        if self.at >= self.plan.steps.len() {
            return SessionAction::Finish(Ok(()));
        }
        let step = self.plan.steps[self.at];
        match event {
            SessionEvent::Failed(e) => self.fail(e),
            SessionEvent::Activated(a) => match step {
                SessionStep::Activate(_) => {
                    self.activation = Some(a);
                    self.advance()
                },
                _ => self.go_on(),
            },
            SessionEvent::Windows(w) => match step {
                SessionStep::ListWindows | SessionStep::AwaitNotification => {
                    self.windows = Some(w);
                    self.advance()
                },
                _ => self.go_on(),
            },
            SessionEvent::Displays { count, focused, hud } => match step {
                SessionStep::CheckDisplays => self.check_displays(count, focused, hud),
                _ => self.go_on(),
            },
            SessionEvent::Frames(displays) => match step {
                SessionStep::CheckNotification => self.check_notification(&displays),
                _ => self.go_on(),
            },
            SessionEvent::Done => match step {
                SessionStep::Activate(_)
                | SessionStep::ListWindows
                | SessionStep::AwaitNotification
                | SessionStep::CheckDisplays
                | SessionStep::CheckNotification => self.go_on(),
                _ => self.advance(),
            },
        }
    }
}

/// A case succeeds only when every step was done, the last one included.
pub proof fn success_means_every_step_was_done(
    run: SessionRun,
    event: SessionEvent,
    after: SessionRun,
    action: SessionAction,
)
    requires
        run.answered(event, after, action),
        action matches SessionAction::Finish(Ok(_)),
    ensures
        !run.failed,
        run.at >= run.plan.steps@.len(),
{
}

/// No step is skipped: the run goes on by one step at a time, and only while none has
/// failed.
pub proof fn steps_come_one_at_a_time(
    run: SessionRun,
    event: SessionEvent,
    after: SessionRun,
    action: SessionAction,
)
    requires
        run.answered(event, after, action),
        after.at != run.at,
    ensures
        after.at == run.at + 1,
        !run.failed,
        !after.failed,
{
}

/// Whatever the notification case says of the lowest window, it has found no fault
/// with it when it settles.
pub proof fn a_checked_notification_is_in_its_corner(
    run: SessionRun,
    displays: Vec<DisplayFrame>,
    after: SessionRun,
    action: SessionAction,
)
    requires
        !run.failed,
        run.at < run.plan.steps@.len(),
        run.plan.steps@[run.at as int] is CheckNotification,
        run.answered(SessionEvent::Frames(displays), after, action),
        !after.failed,
    ensures
        run.seen().len() > 0,
        notification_complaint(lowest_first(run.seen())[0], displays@) is None,
{
}

} // verus!
