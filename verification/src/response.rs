//! The response viewer: an immutable snapshot of the last completed
//! call (status code, formatted body, elapsed time) or the error
//! message that replaced it, plus a tab index over
//! Content/Headers/Cookies and a vertical scroll offset that saturates
//! at 0 on decrement.

use vstd::prelude::*;

use crate::dispatch::{format_body, formatted_body, Outcome};
use crate::keys::{Action, Movement, NormalKeyAction};
use crate::pane::{PaneType, RightStatePane};

verus! {

/// How many tabs the response viewer cycles through.
pub const RESPONSE_TAB_COUNT: usize = 3;

/// The mathematical state of the response viewer.
#[verifier::ext_equal]
pub struct ResponseView {
    pub tab: int,
    pub status: Option<u16>,
    pub body: Seq<char>,
    pub elapsed_ms: u64,
    pub scroll: u16,
    pub active: bool,
}

impl ResponseView {
    pub open spec fn wf(self) -> bool {
        0 <= self.tab < RESPONSE_TAB_COUNT
    }
}

/// What one normal-mode key does to the viewer: tab cycling, scrolling
/// saturating at 0, everything else either swallowed or handed to the
/// router as relative motion.
pub open spec fn response_step(v: ResponseView, a: NormalKeyAction) -> (ResponseView, Option<
    Action,
>) {
    match a {
        NormalKeyAction::PrevTab => (
            ResponseView {
                tab: if v.tab == 0 {
                    RESPONSE_TAB_COUNT - 1
                } else {
                    v.tab - 1
                },
                ..v
            },
            None,
        ),
        NormalKeyAction::NextTab => (
            ResponseView {
                tab: if v.tab >= RESPONSE_TAB_COUNT - 1 {
                    0
                } else {
                    v.tab + 1
                },
                ..v
            },
            None,
        ),
        NormalKeyAction::MoveUp => (ResponseView { scroll: v.scroll.saturating_add(1), ..v }, None),
        NormalKeyAction::MoveDown => (ResponseView { scroll: v.scroll.saturating_sub(1), ..v }, None),
        NormalKeyAction::Accept => (v, None),
        _ => (v, a.spec_relative_or_none()),
    }
}

/// The response pane's state.
pub struct ResponseState {
    tab_index: usize,
    status_code: Option<u16>,
    response: String,
    elapsed_ms: u64,
    scroll: u16,
    active: bool,
}

impl View for ResponseState {
    type V = ResponseView;

    closed spec fn view(&self) -> ResponseView {
        ResponseView {
            tab: self.tab_index as int,
            status: self.status_code,
            body: self.response@,
            elapsed_ms: self.elapsed_ms,
            scroll: self.scroll,
            active: self.active,
        }
    }
}

impl ResponseState {
    /// A viewer with no outcome yet: no status code, an empty body.
    pub fn new() -> (r: ResponseState)
        ensures
            r@.tab == 0,
            r@.status is None,
            r@.body.len() == 0,
            r@.elapsed_ms == 0,
            r@.scroll == 0,
            !r@.active,
            r@.wf(),
    {
        ResponseState {
            tab_index: 0,
            status_code: None,
            response: String::new(),
            elapsed_ms: 0,
            scroll: 0,
            active: false,
        }
    }

    pub fn tab_index(&self) -> (r: usize)
        ensures
            r == self@.tab,
    {
        self.tab_index
    }

    pub fn status_code(&self) -> (r: Option<u16>)
        ensures
            r == self@.status,
    {
        self.status_code
    }

    /// The display body: the formatted response, or the error message
    /// that replaced it.
    pub fn response(&self) -> (r: &String)
        ensures
            r@ == self@.body,
    {
        &self.response
    }

    pub fn elapsed_ms(&self) -> (r: u64)
        ensures
            r == self@.elapsed_ms,
    {
        self.elapsed_ms
    }

    pub fn scroll(&self) -> (r: u16)
        ensures
            r == self@.scroll,
    {
        self.scroll
    }

    pub fn active(&self) -> (r: bool)
        ensures
            r == self@.active,
    {
        self.active
    }

    pub fn set_active(&mut self, active: bool)
        ensures
            final(self)@ == (ResponseView { active, ..old(self)@ }),
    {
        self.active = active;
    }

    /// Cycles the tab forward.
    pub fn next(&mut self)
        requires
            old(self)@.wf(),
        ensures
            final(self)@ == (ResponseView {
                tab: if old(self)@.tab >= RESPONSE_TAB_COUNT - 1 {
                    0int
                } else {
                    old(self)@.tab + 1
                },
                ..old(self)@
            }),
            final(self)@.wf(),
    {
        if self.tab_index >= RESPONSE_TAB_COUNT - 1 {
            self.tab_index = 0;
        } else {
            self.tab_index = self.tab_index + 1;
        }
    }

    /// Cycles the tab backward.
    pub fn prev(&mut self)
        requires
            old(self)@.wf(),
        ensures
            final(self)@ == (ResponseView {
                tab: if old(self)@.tab == 0 {
                    RESPONSE_TAB_COUNT - 1
                } else {
                    old(self)@.tab - 1
                },
                ..old(self)@
            }),
            final(self)@.wf(),
    {
        if self.tab_index == 0 {
            self.tab_index = RESPONSE_TAB_COUNT - 1;
        } else {
            self.tab_index = self.tab_index - 1;
        }
    }

    /// Jumps to tab `index`.
    pub fn select(&mut self, index: usize)
        requires
            index < RESPONSE_TAB_COUNT,
        ensures
            final(self)@ == (ResponseView { tab: index as int, ..old(self)@ }),
            final(self)@.wf(),
    {
        self.tab_index = index;
    }

    /// Routes one normal-mode key: tabs, scrolling, or a relative
    /// motion handed back to the router. Never fails on an unmapped
    /// key.
    pub fn handle_key(&mut self, key: NormalKeyAction) -> (r: Option<Action>)
        requires
            old(self)@.wf(),
        ensures
            final(self)@ == response_step(old(self)@, key).0,
            r == response_step(old(self)@, key).1,
            final(self)@.wf(),
    {
        match key {
            NormalKeyAction::PrevTab => {
                self.prev();
                None
            },
            NormalKeyAction::NextTab => {
                self.next();
                None
            },
            NormalKeyAction::MoveUp => {
                self.scroll = self.scroll.saturating_add(1);
                None
            },
            NormalKeyAction::MoveDown => {
                self.scroll = self.scroll.saturating_sub(1);
                None
            },
            NormalKeyAction::Accept => None,
            _ => key.relative_or_none(),
        }
    }

    /// What pane lies in direction `dir` of the response viewer.
    pub fn relative_pane(&self, dir: Movement) -> (r: Option<PaneType>)
        ensures
            r == crate::pane::spec_relative_pane(
                PaneType::Right(RightStatePane::Response),
                dir,
            ),
    {
        crate::pane::relative_pane(PaneType::Right(RightStatePane::Response), dir)
    }

    /// Installs the outcome of one completed call, replacing the
    /// previous snapshot wholesale: a success stores its status and
    /// its body formatted for display; a failure stores the error
    /// message as the body and clears the status code.
    pub fn set_outcome(&mut self, outcome: Outcome)
        ensures
            (match outcome {
                Outcome::Success { status, body, elapsed_ms } => final(self)@ == (ResponseView {
                    status: Some(status),
                    body: formatted_body(body@),
                    elapsed_ms,
                    ..old(self)@
                }),
                Outcome::Failure { message } => final(self)@ == (ResponseView {
                    status: None,
                    body: message@,
                    ..old(self)@
                }),
            }),
    {
        match outcome {
            Outcome::Success { status, body, elapsed_ms } => {
                self.status_code = Some(status);
                self.response = format_body(body);
                self.elapsed_ms = elapsed_ms;
            },
            Outcome::Failure { message } => {
                self.status_code = None;
                self.response = message;
            },
        }
    }
}

} // verus!
