//! The request editor pane: a tab row (Query/Headers/Auth/Body), the
//! hostname line and the body field — both single-line cursor buffers —
//! and the input mode that says which of them, if either, owns
//! keystrokes.

use vstd::prelude::*;

use crate::input_line::{
    apply_op, op_of_key, result_of, BufView, InputLineState, InputMode, InputResult,
};
use crate::keys::{Action, KeyInput, Movement, NormalKeyAction};
use crate::pane::{PaneType, RightStatePane};

verus! {

/// How many tabs the request editor cycles through.
pub const REQUEST_TAB_COUNT: usize = 4;

/// The tab that turns the body field editable on `Accept`.
pub const BODY_TAB: usize = 3;

/// The mathematical state of the request editor.
#[verifier::ext_equal]
pub struct RequestView {
    pub tab: int,
    pub line: BufView,
    pub body: BufView,
    pub mode: InputMode,
    pub active: bool,
}

impl RequestView {
    pub open spec fn wf(self) -> bool {
        0 <= self.tab < REQUEST_TAB_COUNT && self.line.wf() && self.body.wf()
    }
}

/// What one key does to the request editor. In normal mode the keys
/// drive tabs, enter an editing mode, or become relative motion; in an
/// editing mode every key goes exclusively to the owning buffer, whose
/// `Accepted` or `Canceled` result hands control back to normal mode.
pub open spec fn request_step(v: RequestView, k: KeyInput) -> (RequestView, Option<Action>) {
    match v.mode {
        InputMode::Normal => {
            let a = NormalKeyAction::spec_of_key(k);
            match a {
                NormalKeyAction::PrevTab => (
                    RequestView {
                        tab: if v.tab == 0 {
                            REQUEST_TAB_COUNT - 1
                        } else {
                            v.tab - 1
                        },
                        ..v
                    },
                    None,
                ),
                NormalKeyAction::NextTab => (
                    RequestView {
                        tab: if v.tab >= REQUEST_TAB_COUNT - 1 {
                            0
                        } else {
                            v.tab + 1
                        },
                        ..v
                    },
                    None,
                ),
                NormalKeyAction::InsertMode => (
                    RequestView {
                        mode: InputMode::Hostname,
                        line: BufView { mode: InputMode::Hostname, cursor: 0, ..v.line },
                        ..v
                    },
                    None,
                ),
                NormalKeyAction::Accept => if v.tab == BODY_TAB {
                    (
                        RequestView {
                            mode: InputMode::Body,
                            body: BufView { mode: InputMode::Body, cursor: 0, ..v.body },
                            ..v
                        },
                        None,
                    )
                } else {
                    (v, None)
                },
                _ => (v, a.spec_relative_or_none()),
            }
        },
        InputMode::Hostname => {
            let op = op_of_key(k);
            let res = result_of(v.line, op);
            let back = res == InputResult::Accepted || res == InputResult::Canceled;
            (
                RequestView {
                    line: apply_op(v.line, op),
                    mode: if back {
                        InputMode::Normal
                    } else {
                        InputMode::Hostname
                    },
                    ..v
                },
                None,
            )
        },
        InputMode::Body => {
            let op = op_of_key(k);
            let res = result_of(v.body, op);
            let back = res == InputResult::Accepted || res == InputResult::Canceled;
            (
                RequestView {
                    body: apply_op(v.body, op),
                    mode: if back {
                        InputMode::Normal
                    } else {
                        InputMode::Body
                    },
                    ..v
                },
                None,
            )
        },
    }
}

/// The request editor's state.
pub struct RequestState {
    tab_index: usize,
    input_line: InputLineState,
    body: InputLineState,
    input_mode: InputMode,
    active: bool,
}

impl View for RequestState {
    type V = RequestView;

    closed spec fn view(&self) -> RequestView {
        RequestView {
            tab: self.tab_index as int,
            line: self.input_line@,
            body: self.body@,
            mode: self.input_mode,
            active: self.active,
        }
    }
}

impl RequestState {
    /// A fresh editor: empty hostname line, a body field holding an
    /// empty JSON object skeleton, normal mode, the first tab.
    pub fn new() -> (r: RequestState)
        ensures
            r@.tab == 0,
            r@.mode == InputMode::Normal,
            !r@.active,
            r@.line.content == Seq::<char>::empty(),
            r@.line.baseline == Seq::<char>::empty(),
            r@.line.cursor == 0,
            r@.body.content == seq!['{', '\n', '\n', '}'],
            r@.body.baseline == seq!['{', '\n', '\n', '}'],
            r@.body.cursor == 0,
            r@.wf(),
    {
        let line_init: Vec<char> = Vec::new();
        let mut body_init: Vec<char> = Vec::new();
        body_init.push('{');
        body_init.push('\n');
        body_init.push('\n');
        body_init.push('}');
        proof {
            assert(body_init@ =~= seq!['{', '\n', '\n', '}']);
        }
        RequestState {
            tab_index: 0,
            input_line: InputLineState::new(line_init),
            body: InputLineState::new(body_init),
            input_mode: InputMode::Normal,
            active: false,
        }
    }

    /// The hostname line, for a drawing layer or the dispatcher to
    /// read.
    pub fn input_line(&self) -> (r: &InputLineState)
        ensures
            r@ == self@.line,
    {
        &self.input_line
    }

    /// The body field, for a drawing layer or the dispatcher to read.
    pub fn body(&self) -> (r: &InputLineState)
        ensures
            r@ == self@.body,
    {
        &self.body
    }

    pub fn tab_index(&self) -> (r: usize)
        ensures
            r == self@.tab,
    {
        self.tab_index
    }

    pub fn input_mode(&self) -> (r: InputMode)
        ensures
            r == self@.mode,
    {
        self.input_mode
    }

    pub fn active(&self) -> (r: bool)
        ensures
            r == self@.active,
    {
        self.active
    }

    pub fn set_active(&mut self, active: bool)
        ensures
            final(self)@ == (RequestView { active, ..old(self)@ }),
    {
        self.active = active;
    }

    /// Cycles the tab forward.
    pub fn next(&mut self)
        requires
            old(self)@.wf(),
        ensures
            final(self)@ == (RequestView {
                tab: if old(self)@.tab >= REQUEST_TAB_COUNT - 1 {
                    0int
                } else {
                    old(self)@.tab + 1
                },
                ..old(self)@
            }),
            final(self)@.wf(),
    {
        if self.tab_index >= REQUEST_TAB_COUNT - 1 {
            self.tab_index = 0;
        } else {
            self.tab_index = self.tab_index + 1;
        }
    }

    /// Cycles the tab backward.
    pub fn prev(&mut self)
        requires
            old(self)@.wf(),
        ensures
            final(self)@ == (RequestView {
                tab: if old(self)@.tab == 0 {
                    REQUEST_TAB_COUNT - 1
                } else {
                    old(self)@.tab - 1
                },
                ..old(self)@
            }),
            final(self)@.wf(),
    {
        if self.tab_index == 0 {
            self.tab_index = REQUEST_TAB_COUNT - 1;
        } else {
            self.tab_index = self.tab_index - 1;
        }
    }

    /// Jumps to tab `index`.
    pub fn select(&mut self, index: usize)
        requires
            old(self)@.wf(),
            index < REQUEST_TAB_COUNT,
        ensures
            final(self)@ == (RequestView { tab: index as int, ..old(self)@ }),
            final(self)@.wf(),
    {
        self.tab_index = index;
    }

    /// Routes one key event as `request_step` describes; the editor
    /// swallows every key while a field is editing.
    pub fn handle_key(&mut self, k: KeyInput) -> (r: Option<Action>)
        requires
            old(self)@.wf(),
        ensures
            final(self)@ == request_step(old(self)@, k).0,
            r == request_step(old(self)@, k).1,
            final(self)@.wf(),
    {
        match self.input_mode {
            InputMode::Normal => {
                let a = NormalKeyAction::of_key(k);
                match a {
                    NormalKeyAction::PrevTab => {
                        self.prev();
                        None
                    },
                    NormalKeyAction::NextTab => {
                        self.next();
                        None
                    },
                    NormalKeyAction::InsertMode => {
                        self.input_mode = InputMode::Hostname;
                        self.input_line.set_input_mode(InputMode::Hostname);
                        None
                    },
                    NormalKeyAction::Accept => {
                        if self.tab_index == BODY_TAB {
                            self.input_mode = InputMode::Body;
                            self.body.set_input_mode(InputMode::Body);
                        }
                        None
                    },
                    _ => a.relative_or_none(),
                }
            },
            InputMode::Hostname => {
                let res = self.input_line.handle_key(k);
                if matches!(res, InputResult::Accepted | InputResult::Canceled) {
                    self.input_mode = InputMode::Normal;
                }
                None
            },
            InputMode::Body => {
                let res = self.body.handle_key(k);
                if matches!(res, InputResult::Accepted | InputResult::Canceled) {
                    self.input_mode = InputMode::Normal;
                }
                None
            },
        }
    }

    /// What pane lies in direction `dir` of the request editor.
    pub fn relative_pane(&self, dir: Movement) -> (r: Option<PaneType>)
        ensures
            r == crate::pane::spec_relative_pane(PaneType::Right(RightStatePane::Request), dir),
    {
        crate::pane::relative_pane(PaneType::Right(RightStatePane::Request), dir)
    }
}

} // verus!
