//! The focus router and top-level application state: which pane is
//! active, how key events are routed to modals, editors and panes, how
//! relative motion is resolved over the fixed adjacency, and the
//! send/deliver cycle of the request dispatcher.
//!
//! One send may be logically in flight at a time: `send_request` hands
//! out a pending request only while none is outstanding, and
//! `apply_outcome` discards a completion that no outstanding send is
//! waiting for, so a stale result can never clobber the viewer.

use vstd::prelude::*;

use crate::dispatch::{chars_to_string, formatted_body, Method, Outcome, PendingRequest};
use crate::input_line::InputMode;
use crate::keys::{Action, GlobalKeyAction, KeyInput, NormalKeyAction};
use crate::lists::{requests_list_step, CollectionList, MethodsList, RequestsList};
use crate::pane::{spec_relative_pane, PaneType, RightStatePane};
use crate::request::{request_step, RequestState, RequestView};
use crate::response::{response_step, ResponseState, ResponseView};
use crate::select_list::{next_index, previous_index};

verus! {

/// What the event loop must do after one routed key: nothing, stop the
/// process, issue the request just handed out, or copy the response
/// body out.
#[derive(Debug)]
pub enum Directive {
    Nothing,
    Quit,
    Send(PendingRequest),
    CopyResponse,
}

/// The two right-hand panes, owned together.
pub struct RightState {
    pub request_state: RequestState,
    pub response_state: ResponseState,
}

impl RightState {
    pub fn new() -> (r: RightState)
        ensures
            r.request_state@.tab == 0,
            r.request_state@.mode == InputMode::Normal,
            !r.request_state@.active,
            r.request_state@.line.content == Seq::<char>::empty(),
            r.request_state@.line.baseline == Seq::<char>::empty(),
            r.request_state@.body.content == seq!['{', '\n', '\n', '}'],
            r.request_state@.wf(),
            r.response_state@.tab == 0,
            r.response_state@.status is None,
            r.response_state@.body.len() == 0,
            r.response_state@.scroll == 0,
            !r.response_state@.active,
            r.response_state@.wf(),
    {
        RightState {
            request_state: RequestState::new(),
            response_state: ResponseState::new(),
        }
    }
}

/// Two request-editor views that agree on everything but the active
/// flag (which the router, not the pane, owns).
pub open spec fn req_eq_mod_active(a: RequestView, b: RequestView) -> bool {
    a.tab == b.tab && a.line == b.line && a.body == b.body && a.mode == b.mode
}

/// Two response-viewer views that agree on everything but the active
/// flag.
pub open spec fn resp_eq_mod_active(a: ResponseView, b: ResponseView) -> bool {
    a.tab == b.tab && a.status == b.status && a.body == b.body && a.elapsed_ms == b.elapsed_ms
        && a.scroll == b.scroll
}

/// The whole interactive state of the client.
pub struct App {
    pub requests_list: RequestsList,
    pub methods_list: MethodsList,
    pub collection_list: CollectionList,
    pub right_state: RightState,
    pub selected_method: Method,
    pub active_pane_type: PaneType,
    pub previous_pane_type: PaneType,
    pub pending: bool,
}

impl App {
    /// The application invariant: every component is well formed, the
    /// method picker always has a selection, and exactly the active
    /// pane carries the active flag.
    pub open spec fn wf(self) -> bool {
        &&& self.requests_list.list@.wf()
        &&& self.methods_list.list@.wf()
        &&& self.methods_list.list@.selected is Some
        &&& self.collection_list.list@.wf()
        &&& self.right_state.request_state@.wf()
        &&& self.right_state.response_state@.wf()
        &&& self.requests_list.active == (self.active_pane_type == PaneType::RequestList)
        &&& self.right_state.request_state@.active == (self.active_pane_type == PaneType::Right(
            RightStatePane::Request,
        ))
        &&& self.right_state.response_state@.active == (self.active_pane_type == PaneType::Right(
            RightStatePane::Response,
        ))
    }

    /// True while neither picker owns input.
    pub open spec fn no_modal(self) -> bool {
        !self.methods_list.list@.visible && !self.collection_list.list@.visible
    }

    /// The input mode of the active pane; only the request editor has
    /// editing modes.
    pub open spec fn spec_active_input_mode(self) -> InputMode {
        match self.active_pane_type {
            PaneType::Right(RightStatePane::Request) => self.right_state.request_state@.mode,
            _ => InputMode::Normal,
        }
    }

    /// What the active pane's own key handler hands back for `k`.
    pub open spec fn pane_action(self, k: KeyInput) -> Option<Action> {
        match self.active_pane_type {
            PaneType::RequestList => requests_list_step(
                self.requests_list.list@.selected,
                self.requests_list.list@.items.len() as int,
                NormalKeyAction::spec_of_key(k),
            ).1,
            PaneType::Right(RightStatePane::Request) => request_step(
                self.right_state.request_state@,
                k,
            ).1,
            PaneType::Right(RightStatePane::Response) => response_step(
                self.right_state.response_state@,
                NormalKeyAction::spec_of_key(k),
            ).1,
        }
    }

    /// Where the active pane ends up after `k`: relative motion
    /// resolved over the fixed adjacency, the pane itself when there
    /// is no neighbor in that direction.
    pub open spec fn routed_pane(self, k: KeyInput) -> PaneType {
        match self.pane_action(k) {
            Some(Action::MoveRelative(d)) => match spec_relative_pane(self.active_pane_type, d) {
                Some(p) => p,
                None => self.active_pane_type,
            },
            None => self.active_pane_type,
        }
    }

    /// Everything `handle_key_event` does to the state, as a relation
    /// between the state before and after one key.
    pub open spec fn key_routed(pre: App, post: App, k: KeyInput) -> bool {
        let a = NormalKeyAction::spec_of_key(k);
        if pre.methods_list.list@.visible {
            // the method picker owns the key
            &&& post.active_pane_type == pre.active_pane_type
            &&& post.previous_pane_type == pre.previous_pane_type
            &&& post.requests_list == pre.requests_list
            &&& post.collection_list == pre.collection_list
            &&& post.right_state == pre.right_state
            &&& post.pending == pre.pending
            &&& post.methods_list.list@.items == pre.methods_list.list@.items
            &&& (match a {
                NormalKeyAction::Accept | NormalKeyAction::Exit => {
                    &&& post.methods_list.list@.visible == !pre.methods_list.list@.visible
                    &&& post.methods_list.list@.selected == pre.methods_list.list@.selected
                    &&& pre.methods_list.list@.selected matches Some(i) && post.selected_method
                        == pre.methods_list.list@.items[i]
                },
                NormalKeyAction::MoveUp => {
                    &&& post.methods_list.list@.visible == pre.methods_list.list@.visible
                    &&& post.methods_list.list@.selected == previous_index(
                        pre.methods_list.list@.selected,
                        pre.methods_list.list@.items.len() as int,
                    )
                    &&& post.selected_method == pre.selected_method
                },
                NormalKeyAction::MoveDown => {
                    &&& post.methods_list.list@.visible == pre.methods_list.list@.visible
                    &&& post.methods_list.list@.selected == next_index(
                        pre.methods_list.list@.selected,
                        pre.methods_list.list@.items.len() as int,
                    )
                    &&& post.selected_method == pre.selected_method
                },
                _ => {
                    &&& post.methods_list.list@ == pre.methods_list.list@
                    &&& post.selected_method == pre.selected_method
                },
            })
        } else if pre.collection_list.list@.visible {
            // the collection picker owns the key
            &&& post.active_pane_type == pre.active_pane_type
            &&& post.previous_pane_type == pre.previous_pane_type
            &&& post.requests_list == pre.requests_list
            &&& post.methods_list == pre.methods_list
            &&& post.right_state == pre.right_state
            &&& post.selected_method == pre.selected_method
            &&& post.pending == pre.pending
            &&& post.collection_list.list@.items == pre.collection_list.list@.items
            &&& (match a {
                NormalKeyAction::Accept
                | NormalKeyAction::Exit
                | NormalKeyAction::NextTab
                | NormalKeyAction::MoveRight => {
                    &&& !post.collection_list.list@.visible
                    &&& post.collection_list.list@.selected == pre.collection_list.list@.selected
                },
                NormalKeyAction::MoveUp => {
                    &&& post.collection_list.list@.visible == pre.collection_list.list@.visible
                    &&& post.collection_list.list@.selected == previous_index(
                        pre.collection_list.list@.selected,
                        pre.collection_list.list@.items.len() as int,
                    )
                },
                NormalKeyAction::MoveDown => {
                    &&& post.collection_list.list@.visible == pre.collection_list.list@.visible
                    &&& post.collection_list.list@.selected == next_index(
                        pre.collection_list.list@.selected,
                        pre.collection_list.list@.items.len() as int,
                    )
                },
                _ => post.collection_list.list@ == pre.collection_list.list@,
            })
        } else {
            // the key goes to the active pane; relative motion is
            // resolved by the router
            &&& post.methods_list == pre.methods_list
            &&& post.collection_list == pre.collection_list
            &&& post.selected_method == pre.selected_method
            &&& post.pending == pre.pending
            &&& post.active_pane_type == pre.routed_pane(k)
            &&& post.previous_pane_type == (if post.active_pane_type != pre.active_pane_type {
                pre.active_pane_type
            } else {
                pre.previous_pane_type
            })
            &&& post.requests_list.list@.items == pre.requests_list.list@.items
            &&& post.requests_list.list@.visible == pre.requests_list.list@.visible
            &&& (match pre.active_pane_type {
                PaneType::RequestList => {
                    &&& post.requests_list.list@.selected == requests_list_step(
                        pre.requests_list.list@.selected,
                        pre.requests_list.list@.items.len() as int,
                        a,
                    ).0
                    &&& req_eq_mod_active(
                        post.right_state.request_state@,
                        pre.right_state.request_state@,
                    )
                    &&& resp_eq_mod_active(
                        post.right_state.response_state@,
                        pre.right_state.response_state@,
                    )
                },
                PaneType::Right(RightStatePane::Request) => {
                    &&& post.requests_list.list@.selected == pre.requests_list.list@.selected
                    &&& req_eq_mod_active(
                        post.right_state.request_state@,
                        request_step(pre.right_state.request_state@, k).0,
                    )
                    &&& resp_eq_mod_active(
                        post.right_state.response_state@,
                        pre.right_state.response_state@,
                    )
                },
                PaneType::Right(RightStatePane::Response) => {
                    &&& post.requests_list.list@.selected == pre.requests_list.list@.selected
                    &&& req_eq_mod_active(
                        post.right_state.request_state@,
                        pre.right_state.request_state@,
                    )
                    &&& resp_eq_mod_active(
                        post.right_state.response_state@,
                        response_step(pre.right_state.response_state@, a).0,
                    )
                },
            })
        }
    }

    /// A fresh client over the given saved-request names: the request
    /// list is active, the seven methods are offered with `Get`
    /// chosen, and no call is in flight.
    pub fn new(request_names: Vec<String>) -> (r: App)
        ensures
            r.wf(),
            r.active_pane_type == PaneType::RequestList,
            r.previous_pane_type == PaneType::RequestList,
            r.requests_list.list@.items == request_names@,
            r.requests_list.list@.selected is None,
            r.requests_list.list@.visible,
            r.methods_list.list@.items == seq![
                Method::Get,
                Method::Post,
                Method::Put,
                Method::Delete,
                Method::Patch,
                Method::Head,
                Method::Options,
            ],
            r.methods_list.list@.selected == Some(0int),
            !r.methods_list.list@.visible,
            !r.collection_list.list@.visible,
            r.selected_method == Method::Get,
            !r.pending,
            r.right_state.request_state@.mode == InputMode::Normal,
            r.right_state.request_state@.line.content == Seq::<char>::empty(),
            r.right_state.request_state@.body.content == seq!['{', '\n', '\n', '}'],
            r.right_state.response_state@.status is None,
            r.right_state.response_state@.body.len() == 0,
    {
        let mut methods: Vec<Method> = Vec::new();
        methods.push(Method::Get);
        methods.push(Method::Post);
        methods.push(Method::Put);
        methods.push(Method::Delete);
        methods.push(Method::Patch);
        methods.push(Method::Head);
        methods.push(Method::Options);
        proof {
            assert(methods@ =~= seq![
                Method::Get,
                Method::Post,
                Method::Put,
                Method::Delete,
                Method::Patch,
                Method::Head,
                Method::Options,
            ]);
        }
        let mut requests_list = RequestsList::new(request_names);
        requests_list.active = true;
        App {
            requests_list,
            methods_list: MethodsList::new(methods),
            collection_list: CollectionList::new(Vec::new()),
            right_state: RightState::new(),
            selected_method: Method::Get,
            active_pane_type: PaneType::RequestList,
            previous_pane_type: PaneType::RequestList,
            pending: false,
        }
    }

    pub fn active_pane(&self) -> (r: PaneType)
        ensures
            r == self.active_pane_type,
    {
        self.active_pane_type
    }

    /// The pane that was active before the last transition; the
    /// one-slot memory for an alternate-pane toggle.
    pub fn last_pane(&self) -> (r: PaneType)
        ensures
            r == self.previous_pane_type,
    {
        self.previous_pane_type
    }

    pub fn active_input_mode(&self) -> (r: InputMode)
        ensures
            r == self.spec_active_input_mode(),
    {
        match self.active_pane_type {
            PaneType::Right(RightStatePane::Request) => self.right_state.request_state.input_mode(),
            _ => InputMode::Normal,
        }
    }

    /// Switches the active pane: the old pane loses the active flag,
    /// the new one gains it, and the old pane is remembered.
    fn activate_pane(&mut self, pane: PaneType)
        requires
            old(self).wf(),
        ensures
            final(self).wf(),
            final(self).active_pane_type == pane,
            final(self).previous_pane_type == (if old(self).active_pane_type != pane {
                old(self).active_pane_type
            } else {
                old(self).previous_pane_type
            }),
            final(self).requests_list.list == old(self).requests_list.list,
            final(self).methods_list == old(self).methods_list,
            final(self).collection_list == old(self).collection_list,
            final(self).selected_method == old(self).selected_method,
            final(self).pending == old(self).pending,
            req_eq_mod_active(
                final(self).right_state.request_state@,
                old(self).right_state.request_state@,
            ),
            resp_eq_mod_active(
                final(self).right_state.response_state@,
                old(self).right_state.response_state@,
            ),
    {
        if !self.active_pane_type.eq_pane(pane) {
            match self.active_pane_type {
                PaneType::RequestList => {
                    self.requests_list.active = false;
                },
                PaneType::Right(RightStatePane::Request) => {
                    self.right_state.request_state.set_active(false);
                },
                PaneType::Right(RightStatePane::Response) => {
                    self.right_state.response_state.set_active(false);
                },
            }
            self.previous_pane_type = self.active_pane_type;
            self.active_pane_type = pane;
            match pane {
                PaneType::RequestList => {
                    self.requests_list.active = true;
                },
                PaneType::Right(RightStatePane::Request) => {
                    self.right_state.request_state.set_active(true);
                },
                PaneType::Right(RightStatePane::Response) => {
                    self.right_state.response_state.set_active(true);
                },
            }
        }
    }

    /// Routes one key event below the global shortcuts: to whichever
    /// modal is open, else to the active pane, resolving relative
    /// motion over the fixed adjacency. Unmapped keys are swallowed;
    /// nothing here fails.
    pub fn handle_key_event(&mut self, key: KeyInput)
        requires
            old(self).wf(),
        ensures
            final(self).wf(),
            App::key_routed(*old(self), *final(self), key),
    {
        if self.methods_list.list.visible() {
            let a = NormalKeyAction::of_key(key);
            match self.methods_list.handle_key(a) {
                Some(m) => {
                    self.selected_method = m;
                },
                None => {},
            }
            return ;
        }
        if self.collection_list.list.visible() {
            let a = NormalKeyAction::of_key(key);
            if matches!(a, NormalKeyAction::Exit) {
                self.collection_list.list.set_visible(false);
                return ;
            }
            match self.collection_list.handle_key(a) {
                Some(_) => {
                    self.collection_list.list.set_visible(false);
                },
                None => {},
            }
            return ;
        }
        let action: Option<Action> = match self.active_pane_type {
            PaneType::RequestList => {
                let a = NormalKeyAction::of_key(key);
                self.requests_list.handle_key(a)
            },
            PaneType::Right(RightStatePane::Request) => self.right_state.request_state.handle_key(
                key,
            ),
            PaneType::Right(RightStatePane::Response) => {
                let a = NormalKeyAction::of_key(key);
                self.right_state.response_state.handle_key(a)
            },
        };
        match action {
            Some(Action::MoveRelative(d)) => {
                match crate::pane::relative_pane(self.active_pane_type, d) {
                    Some(p) => self.activate_pane(p),
                    None => {},
                }
            },
            None => {},
        }
    }

    /// Begins one send: hands out the pending request built from the
    /// chosen method and the editors' current text, exactly when no
    /// earlier send is still unresolved; otherwise nothing.
    pub fn send_request(&mut self) -> (r: Option<PendingRequest>)
        requires
            old(self).wf(),
        ensures
            final(self).wf(),
            final(self).requests_list == old(self).requests_list,
            final(self).methods_list == old(self).methods_list,
            final(self).collection_list == old(self).collection_list,
            final(self).right_state == old(self).right_state,
            final(self).selected_method == old(self).selected_method,
            final(self).active_pane_type == old(self).active_pane_type,
            final(self).previous_pane_type == old(self).previous_pane_type,
            final(self).pending,
            old(self).pending ==> r is None,
            !old(self).pending ==> (r matches Some(pr) && pr.method == old(self).selected_method
                && pr.uri@ == old(self).right_state.request_state@.line.content && pr.body@ == old(self).right_state.request_state@.body.content),
    {
        if self.pending {
            return None;
        }
        self.pending = true;
        let uri = chars_to_string(self.right_state.request_state.input_line().value());
        let body = chars_to_string(self.right_state.request_state.body().value());
        Some(PendingRequest { method: self.selected_method, uri, body })
    }

    /// Delivers the outcome of a completed call. A completion that no
    /// outstanding send is waiting for is discarded, never applied, so
    /// the viewer can only show the call it is waiting on.
    pub fn apply_outcome(&mut self, outcome: Outcome)
        requires
            old(self).wf(),
        ensures
            final(self).wf(),
            final(self).requests_list == old(self).requests_list,
            final(self).methods_list == old(self).methods_list,
            final(self).collection_list == old(self).collection_list,
            final(self).right_state.request_state == old(self).right_state.request_state,
            final(self).selected_method == old(self).selected_method,
            final(self).active_pane_type == old(self).active_pane_type,
            final(self).previous_pane_type == old(self).previous_pane_type,
            !final(self).pending,
            !old(self).pending ==> final(self).right_state.response_state == old(self).right_state.response_state,
            old(self).pending ==> (match outcome {
                Outcome::Success { status, body, elapsed_ms } => final(self).right_state.response_state@ == (ResponseView {
                    status: Some(status),
                    body: formatted_body(body@),
                    elapsed_ms,
                    ..old(self).right_state.response_state@
                }),
                Outcome::Failure { message } => final(self).right_state.response_state@
                    == (ResponseView {
                    status: None,
                    body: message@,
                    ..old(self).right_state.response_state@
                }),
            }),
    {
        if !self.pending {
            return ;
        }
        self.pending = false;
        self.right_state.response_state.set_outcome(outcome);
    }

    /// Routes one key event from the top: global shortcuts first while
    /// no field is editing, then the modal/pane routing. The returned
    /// directive is the only work left to the event loop.
    pub fn step(&mut self, key: KeyInput) -> (r: Directive)
        requires
            old(self).wf(),
        ensures
            final(self).wf(),
            ({
                let normal = old(self).spec_active_input_mode() == InputMode::Normal;
                let g = GlobalKeyAction::spec_of_key(key);
                let copy_here = old(self).no_modal() && old(self).active_pane_type
                    == PaneType::Right(RightStatePane::Response)
                    && NormalKeyAction::spec_of_key(key) == NormalKeyAction::Copy;
                if normal && g == GlobalKeyAction::Quit {
                    r == Directive::Quit && *final(self) == *old(self)
                } else if normal && g == GlobalKeyAction::ToggleRequestList {
                    &&& r == Directive::Nothing
                    &&& final(self).requests_list.list@.visible == !old(self).requests_list.list@.visible
                    &&& final(self).requests_list.list@.items == old(self).requests_list.list@.items
                    &&& final(self).requests_list.list@.selected == old(self).requests_list.list@.selected
                    &&& final(self).methods_list == old(self).methods_list
                    &&& final(self).collection_list == old(self).collection_list
                    &&& final(self).right_state == old(self).right_state
                    &&& final(self).active_pane_type == old(self).active_pane_type
                    &&& final(self).previous_pane_type == old(self).previous_pane_type
                    &&& final(self).pending == old(self).pending
                    &&& final(self).selected_method == old(self).selected_method
                } else if normal && g == GlobalKeyAction::Send {
                    &&& (old(self).pending ==> r is Nothing)
                    &&& (!old(self).pending ==> (r matches Directive::Send(pr) && pr.method == old(self).selected_method && pr.uri@ == old(self).right_state.request_state@.line.content
                        && pr.body@ == old(self).right_state.request_state@.body.content))
                    &&& final(self).pending
                    &&& final(self).requests_list == old(self).requests_list
                    &&& final(self).methods_list == old(self).methods_list
                    &&& final(self).collection_list == old(self).collection_list
                    &&& final(self).right_state == old(self).right_state
                    &&& final(self).active_pane_type == old(self).active_pane_type
                    &&& final(self).previous_pane_type == old(self).previous_pane_type
                    &&& final(self).selected_method == old(self).selected_method
                } else if normal && g == GlobalKeyAction::Methods {
                    &&& r == Directive::Nothing
                    &&& final(self).methods_list.list@.visible == !old(self).methods_list.list@.visible
                    &&& final(self).methods_list.list@.items == old(self).methods_list.list@.items
                    &&& final(self).methods_list.list@.selected == old(self).methods_list.list@.selected
                    &&& final(self).requests_list == old(self).requests_list
                    &&& final(self).collection_list == old(self).collection_list
                    &&& final(self).right_state == old(self).right_state
                    &&& final(self).active_pane_type == old(self).active_pane_type
                    &&& final(self).previous_pane_type == old(self).previous_pane_type
                    &&& final(self).pending == old(self).pending
                    &&& final(self).selected_method == old(self).selected_method
                } else if normal && g == GlobalKeyAction::Collections {
                    &&& r == Directive::Nothing
                    &&& final(self).collection_list.list@.visible == !old(self).collection_list.list@.visible
                    &&& final(self).collection_list.list@.items == old(self).collection_list.list@.items
                    &&& final(self).collection_list.list@.selected == old(self).collection_list.list@.selected
                    &&& final(self).requests_list == old(self).requests_list
                    &&& final(self).methods_list == old(self).methods_list
                    &&& final(self).right_state == old(self).right_state
                    &&& final(self).active_pane_type == old(self).active_pane_type
                    &&& final(self).previous_pane_type == old(self).previous_pane_type
                    &&& final(self).pending == old(self).pending
                    &&& final(self).selected_method == old(self).selected_method
                } else if normal && copy_here {
                    r == Directive::CopyResponse && *final(self) == *old(self)
                } else {
                    r == Directive::Nothing && App::key_routed(*old(self), *final(self), key)
                }
            }),
    {
        if matches!(self.active_input_mode(), InputMode::Normal) {
            match GlobalKeyAction::of_key(key) {
                GlobalKeyAction::Quit => Directive::Quit,
                GlobalKeyAction::ToggleRequestList => {
                    self.requests_list.list.toggle_visible();
                    Directive::Nothing
                },
                GlobalKeyAction::Send => {
                    match self.send_request() {
                        Some(pr) => Directive::Send(pr),
                        None => Directive::Nothing,
                    }
                },
                GlobalKeyAction::Methods => {
                    self.methods_list.list.toggle_visible();
                    Directive::Nothing
                },
                GlobalKeyAction::Collections => {
                    self.collection_list.list.toggle_visible();
                    Directive::Nothing
                },
                GlobalKeyAction::Other => {
                    let no_modal = !self.methods_list.list.visible()
                        && !self.collection_list.list.visible();
                    if no_modal && matches!(
                        self.active_pane_type,
                        PaneType::Right(RightStatePane::Response),
                    ) && matches!(NormalKeyAction::of_key(key), NormalKeyAction::Copy) {
                        Directive::CopyResponse
                    } else {
                        self.handle_key_event(key);
                        Directive::Nothing
                    }
                },
            }
        } else {
            self.handle_key_event(key);
            Directive::Nothing
        }
    }
}

impl PaneType {
    /// Structural equality on pane identities.
    fn eq_pane(self, other: PaneType) -> (r: bool)
        ensures
            r == (self == other),
    {
        match (self, other) {
            (PaneType::RequestList, PaneType::RequestList) => true,
            (
                PaneType::Right(RightStatePane::Request),
                PaneType::Right(RightStatePane::Request),
            ) => true,
            (
                PaneType::Right(RightStatePane::Response),
                PaneType::Right(RightStatePane::Response),
            ) => true,
            _ => false,
        }
    }
}

} // verus!
