//! Bringing a window to the front.

use vstd::prelude::*;

use crate::error::Error;
use crate::pick::{first_where, first_where_at, first_where_none, pick_where};
use crate::place::ops::ax_check;
use crate::status::{policy, Level, StatusKind};
use crate::window::WindowInfo;

verus! {

/// Whether the desktop shows a window.
pub open spec fn shows(windows: Seq<WindowInfo>, pid: i32, id: u32) -> bool {
    exists|i: int|
        0 <= i < windows.len() && (#[trigger] windows[i]).pid == pid && windows[i].id == id
}

/// Whether the desktop shows a window.
pub fn is_listed(windows: &Vec<WindowInfo>, pid: i32, id: u32) -> (r: bool)
    ensures
        r == shows(windows@, pid, id),
{
    let mut i: usize = 0;
    while i < windows.len()
        invariant
            i <= windows@.len(),
            forall|j: int|
                0 <= j < i ==> !((#[trigger] windows@[j]).pid == pid && windows@[j].id == id),
        decreases windows@.len() - i,
    {
        if windows[i].pid == pid && windows[i].id == id {
            assert(windows@[i as int].pid == pid);
            return true;
        }
        i = i + 1;
    }
    false
}

/// Whether raising crosses from one application to another: the frontmost
/// window belongs to someone else, or there is none.
pub fn crosses_app_boundary(frontmost: &Option<WindowInfo>, pid: i32) -> (r: bool)
    ensures
        r == (match *frontmost {
            Some(w) => w.pid != pid,
            None => true,
        }),
{
    match frontmost {
        Some(w) => w.pid != pid,
        None => true,
    }
}

/// The identifier of an accessibility window: the one that the window server
/// knows it by, or else the number that its element holds. A number that is no
/// integer counts as zero.
pub fn ax_window_id(known: Option<u32>, number: Option<Option<i64>>) -> (r: Option<u32>)
    ensures
        r == match (known, number) {
            (Some(id), _) => Some(id),
            (None, Some(Some(n))) => Some(n as u32),
            (None, Some(None)) => Some(0u32),
            (None, None) => None,
        },
{
    match (known, number) {
        (Some(id), _) => Some(id),
        (None, Some(Some(n))) => Some(
            #[verifier::truncate]
            (n as u32),
        ),
        (None, Some(None)) => Some(0),
        (None, None) => None,
    }
}

/// Whether an identifier is known and is the wanted one.
pub open spec fn has_id(id: u32) -> spec_fn(Option<u32>) -> bool {
    |x: Option<u32>| x == Some(id)
}

/// Position of the accessibility window with an identifier, among those whose
/// identifier is known.
pub fn find_ax_window(ids: &Vec<Option<u32>>, id: u32) -> (r: Option<usize>)
    ensures
        match r {
            Some(i) => first_where(ids@, has_id(id)) == Some(i as int),
            None => first_where(ids@, has_id(id)) is None,
        },
{
    let ghost wanted = has_id(id);
    let mut i: usize = 0;
    while i < ids.len()
        invariant
            i <= ids@.len(),
            wanted == has_id(id),
            forall|j: int| 0 <= j < i ==> !wanted(#[trigger] ids@[j]),
        decreases ids@.len() - i,
    {
        if ids[i] == Some(id) {
            proof {
                first_where_at(ids@, wanted, i as int);
            }
            return Some(i);
        }
        i = i + 1;
    }
    proof {
        first_where_none(ids@, wanted);
    }
    None
}

/// The title by which a window can be found again.
pub open spec fn title_of(windows: Seq<WindowInfo>, pid: i32, id: u32) -> Option<WindowInfo> {
    pick_where(windows, |w: WindowInfo| w.pid == pid && w.id == id && w.title@.len() > 0)
}

/// The title by which a window can be found again, unless it has none.
pub fn match_window_by_title(pid: i32, id: u32, windows: &Vec<WindowInfo>) -> (r: Option<String>)
    ensures
        match r {
            Some(title) => title_of(windows@, pid, id) matches Some(w) && w.title == title,
            None => title_of(windows@, pid, id) is None,
        },
{
    let ghost wanted = |w: WindowInfo| w.pid == pid && w.id == id && w.title@.len() > 0;
    let mut i: usize = 0;
    while i < windows.len()
        invariant
            i <= windows@.len(),
            wanted == |w: WindowInfo| w.pid == pid && w.id == id && w.title@.len() > 0,
            forall|j: int| 0 <= j < i ==> !wanted(#[trigger] windows@[j]),
        decreases windows@.len() - i,
    {
        let w = &windows[i];
        if w.pid == pid && w.id == id && crate::text::chars_of(w.title.as_str()).len() > 0 {
            proof {
                first_where_at(windows@, wanted, i as int);
            }
            return Some(w.title.clone());
        }
        i = i + 1;
    }
    proof {
        first_where_none(windows@, wanted);
    }
    None
}

/// Whether raising the element is possible and worked: it must offer the action.
pub fn element_raise_worked(actions_read: bool, offers_raise: bool, performed: bool) -> (r: bool)
    ensures
        r == (actions_read && offers_raise && performed),
{
    actions_read && offers_raise && performed
}

/// How loudly a failure to order a window is logged: expected ones as their
/// policy says, others as warnings.
pub fn order_failure_level(code: i32) -> (r: Level)
    ensures
        code == crate::status::K_CG_ERROR_FAILURE ==> r is TRACE,
        code != crate::status::K_CG_ERROR_FAILURE ==> r is WARN,
{
    match policy(StatusKind::CgsOrderWindow, code) {
        Some(known) => known.level,
        None => Level::WARN,
    }
}

/// The elements of an application's windows, given the status of asking.
pub fn ax_windows_result<T>(status: i32, list: Option<T>) -> (r: Result<T, Error>)
    ensures
        status == 0 && list is Some ==> r == Ok::<T, Error>(list->0),
        !(status == 0 && list is Some) ==> r == Err::<T, Error>(Error::AxCode(status)),
{
    match list {
        Some(windows) => if status == 0 {
            Ok(windows)
        } else {
            Err(Error::AxCode(status))
        },
        None => Err(Error::AxCode(status)),
    }
}

/// How far raising a window has come: the answer that is waited for.
#[derive(Debug, Clone, Copy, PartialEq, Eq, Structural)]
pub enum RaiseStage {
    /// Whether windows can be raised at all.
    Access,
    /// The windows of the desktop.
    Desktop,
    /// The element of the application.
    App,
    /// The elements of its windows.
    Elements,
    /// The element with the window's title.
    Title,
    /// Raising the element.
    Element,
    /// Ordering the window above all others.
    Order,
    /// Activating the application.
    Activate,
    /// None: the end.
    Over,
}

/// The next thing to do to raise a window.
#[derive(Debug)]
pub enum RaiseStep {
    /// List the windows of the desktop.
    LookAtDesktop,
    /// Create the element of the application.
    CreateApp,
    /// Read the elements of its windows.
    CopyWindows,
    /// Find the element of its window with this title.
    FindByTitle(String),
    /// Raise the element: the one at this position of the list, or the one that
    /// was found by its title.
    RaiseElement(Option<usize>),
    /// Order the window above all others.
    OrderAbove,
    /// Activate the application.
    ActivateApp,
    /// Nothing: this is the result.
    Finish(Result<(), Error>),
}

/// What a step found out.
#[derive(Debug)]
pub enum RaiseEvent {
    /// Whether access was granted, and whether this is the main thread.
    Access {
        /// Whether access was granted.
        trusted: bool,
        /// Whether this is the main thread.
        on_main_thread: bool,
    },
    /// The windows of the desktop.
    Desktop(Vec<WindowInfo>),
    /// Whether there is an element for the application.
    App(bool),
    /// The status of asking for the windows, and the identifiers of those that
    /// came, as far as they are known.
    Elements {
        /// The status.
        status: i32,
        /// The identifiers.
        ids: Option<Vec<Option<u32>>>,
    },
    /// Whether there is an element with the title.
    Title(bool),
    /// Whether raising the element worked.
    Element(bool),
    /// The status of ordering the window.
    Order(i32),
    /// The application was activated.
    Activated,
}

/// A window that is being raised.
#[derive(Debug)]
pub struct RaiseWindow {
    /// The process that owns the window.
    pub pid: i32,
    /// The window.
    pub id: u32,
    /// How far it has come.
    pub stage: RaiseStage,
    /// The title by which the window can be found again, once the desktop is
    /// known.
    pub title: Option<String>,
    /// Whether something brought the window to the front.
    pub raised: bool,
}

/// Whether an event answers what is waited for.
pub open spec fn raise_fits(stage: RaiseStage, event: RaiseEvent) -> bool {
    match event {
        RaiseEvent::Access { .. } => stage is Access,
        RaiseEvent::Desktop(_) => stage is Desktop,
        RaiseEvent::App(_) => stage is App,
        RaiseEvent::Elements { .. } => stage is Elements,
        RaiseEvent::Title(_) => stage is Title,
        RaiseEvent::Element(_) => stage is Element,
        RaiseEvent::Order(_) => stage is Order,
        RaiseEvent::Activated => stage is Activate,
    }
}

/// Whether a step ends the raising with a result.
pub open spec fn finishes(step: RaiseStep, result: Result<(), Error>) -> bool {
    step == RaiseStep::Finish(result)
}

/// Whether `after` and `step` answer an event.
pub open spec fn raise_answer(
    w: RaiseWindow,
    event: RaiseEvent,
    after: RaiseWindow,
    step: RaiseStep,
) -> bool {
    &&& after.pid == w.pid
    &&& after.id == w.id
    &&& event !is Desktop ==> after.title == w.title
    &&& match event {
        RaiseEvent::Access { trusted, on_main_thread } => {
            &&& after.raised == w.raised
            &&& if !trusted {
                after.stage is Over && finishes(step, Err(Error::Permission))
            } else if !on_main_thread {
                after.stage is Over && finishes(step, Err(Error::MainThread))
            } else {
                after.stage is Desktop && step is LookAtDesktop
            }
        },
        RaiseEvent::Desktop(windows) => {
            &&& after.raised == w.raised
            &&& if shows(windows@, w.pid, w.id) {
                &&& after.stage is App
                &&& step is CreateApp
                &&& match title_of(windows@, w.pid, w.id) {
                    Some(found) => after.title == Some(found.title),
                    None => after.title is None,
                }
            } else {
                after.title == w.title && after.stage is Over && finishes(step, Ok(()))
            }
        },
        RaiseEvent::App(made) => {
            &&& after.raised == w.raised
            &&& if made {
                after.stage is Elements && step is CopyWindows
            } else {
                after.stage is Over && finishes(step, Err(Error::AppElement))
            }
        },
        RaiseEvent::Elements { status, ids } => {
            &&& after.raised == w.raised
            &&& if status != 0 || ids is None {
                after.stage is Over && finishes(step, Err(Error::AxCode(status)))
            } else {
                match (first_where(ids->0@, has_id(w.id)), w.title) {
                    (Some(i), _) => after.stage is Element && (step matches RaiseStep::RaiseElement(
                        Some(at),
                    ) && at == i),
                    (None, Some(title)) => after.stage is Title
                        && step == RaiseStep::FindByTitle(title),
                    (None, None) => after.stage is Activate && step is ActivateApp,
                }
            }
        },
        RaiseEvent::Title(found) => {
            &&& after.raised == w.raised
            &&& if found {
                after.stage is Element && step == RaiseStep::RaiseElement(None)
            } else {
                after.stage is Activate && step is ActivateApp
            }
        },
        RaiseEvent::Element(worked) => {
            &&& after.raised == (w.raised || worked)
            &&& if worked {
                after.stage is Over && finishes(step, Ok(()))
            } else {
                after.stage is Order && step is OrderAbove
            }
        },
        RaiseEvent::Order(status) => {
            &&& after.raised == (w.raised || status == 0)
            &&& if status == 0 {
                after.stage is Over && finishes(step, Ok(()))
            } else {
                after.stage is Activate && step is ActivateApp
            }
        },
        RaiseEvent::Activated => {
            &&& after.raised
            &&& after.stage is Over
            &&& finishes(step, Ok(()))
        },
    }
}

impl RaiseWindow {
    /// Begin to raise a window. The first thing to find out is whether windows
    /// can be raised at all.
    pub fn raise_window(pid: i32, id: u32) -> (r: Self)
        ensures
            r == (RaiseWindow { pid, id, stage: RaiseStage::Access, title: None, raised: false }),
    {
        RaiseWindow { pid, id, stage: RaiseStage::Access, title: None, raised: false }
    }

    fn go(&mut self, stage: RaiseStage, step: RaiseStep) -> (r: RaiseStep)
        ensures
            *final(self) == (RaiseWindow { stage, ..*old(self) }),
            r == step,
    {
        self.stage = stage;
        step
    }

    fn elements(&mut self, ids: &Vec<Option<u32>>) -> (r: RaiseStep)
        ensures
            raise_answer(
                *old(self),
                RaiseEvent::Elements { status: 0, ids: Some(*ids) },
                *final(self),
                r,
            ),
    {
        match find_ax_window(ids, self.id) {
            Some(i) => self.go(RaiseStage::Element, RaiseStep::RaiseElement(Some(i))),
            None => match &self.title {
                Some(title) => {
                    let title = title.clone();
                    self.go(RaiseStage::Title, RaiseStep::FindByTitle(title))
                },
                None => self.go(RaiseStage::Activate, RaiseStep::ActivateApp),
            },
        }
    }

    /// Take in what a step found out, and say what to do next.
    pub fn next(&mut self, event: RaiseEvent) -> (r: RaiseStep)
        requires
            raise_fits(old(self).stage, event),
        ensures
            raise_answer(*old(self), event, *final(self), r),
    {
        match event {
            RaiseEvent::Access { trusted, on_main_thread } => match ax_check(
                trusted,
                on_main_thread,
            ) {
                Ok(()) => self.go(RaiseStage::Desktop, RaiseStep::LookAtDesktop),
                Err(e) => self.go(RaiseStage::Over, RaiseStep::Finish(Err(e))),
            },
            RaiseEvent::Desktop(windows) => {
                if is_listed(&windows, self.pid, self.id) {
                    self.title = match_window_by_title(self.pid, self.id, &windows);
                    self.go(RaiseStage::App, RaiseStep::CreateApp)
                } else {
                    self.go(RaiseStage::Over, RaiseStep::Finish(Ok(())))
                }
            },
            RaiseEvent::App(made) => {
                if made {
                    self.go(RaiseStage::Elements, RaiseStep::CopyWindows)
                } else {
                    self.go(RaiseStage::Over, RaiseStep::Finish(Err(Error::AppElement)))
                }
            },
            RaiseEvent::Elements { status, ids } => match ax_windows_result(status, ids) {
                Ok(ids) => self.elements(&ids),
                Err(e) => self.go(RaiseStage::Over, RaiseStep::Finish(Err(e))),
            },
            RaiseEvent::Title(found) => {
                if found {
                    self.go(RaiseStage::Element, RaiseStep::RaiseElement(None))
                } else {
                    self.go(RaiseStage::Activate, RaiseStep::ActivateApp)
                }
            },
            RaiseEvent::Element(worked) => {
                if worked {
                    self.raised = true;
                    self.go(RaiseStage::Over, RaiseStep::Finish(Ok(())))
                } else {
                    self.go(RaiseStage::Order, RaiseStep::OrderAbove)
                }
            },
            RaiseEvent::Order(status) => {
                if status == 0 {
                    self.raised = true;
                    self.go(RaiseStage::Over, RaiseStep::Finish(Ok(())))
                } else {
                    self.go(RaiseStage::Activate, RaiseStep::ActivateApp)
                }
            },
            RaiseEvent::Activated => {
                self.raised = true;
                self.go(RaiseStage::Over, RaiseStep::Finish(Ok(())))
            },
        }
    }
}

/// The order in which the answers come.
pub open spec fn raise_rank(stage: RaiseStage) -> int {
    match stage {
        RaiseStage::Access => 0,
        RaiseStage::Desktop => 1,
        RaiseStage::App => 2,
        RaiseStage::Elements => 3,
        RaiseStage::Title => 4,
        RaiseStage::Element => 5,
        RaiseStage::Order => 6,
        RaiseStage::Activate => 7,
        RaiseStage::Over => 8,
    }
}

/// Raising a window ends: every answer brings it on, and it is over exactly when
/// there is a result.
pub proof fn raising_ends(w: RaiseWindow, event: RaiseEvent, after: RaiseWindow, step: RaiseStep)
    requires
        raise_fits(w.stage, event),
        raise_answer(w, event, after, step),
    ensures
        raise_rank(w.stage) < raise_rank(after.stage) <= 8,
        after.stage is Over <==> step is Finish,
{
}

/// Raising a window succeeds only if something brought it to the front, or if
/// the desktop does not show it at all.
pub proof fn shown_windows_are_raised(
    w: RaiseWindow,
    event: RaiseEvent,
    after: RaiseWindow,
    step: RaiseStep,
)
    requires
        raise_fits(w.stage, event),
        raise_answer(w, event, after, step),
        step == RaiseStep::Finish(Ok(())),
    ensures
        after.raised || (event matches RaiseEvent::Desktop(windows) && !shows(
            windows@,
            w.pid,
            w.id,
        )),
{
}

/// A window that the desktop does not show is left alone.
pub proof fn hidden_windows_are_left_alone(
    w: RaiseWindow,
    windows: Vec<WindowInfo>,
    after: RaiseWindow,
    step: RaiseStep,
)
    requires
        w.stage is Desktop,
        !shows(windows@, w.pid, w.id),
        raise_answer(w, RaiseEvent::Desktop(windows), after, step),
    ensures
        step == RaiseStep::Finish(Ok(())),
        after.raised == w.raised,
{
}

} // verus!
