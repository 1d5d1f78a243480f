//! The three concrete uses of the selectable list: the request list
//! side panel, the modal HTTP-method picker, and the modal collection
//! picker.

use vstd::prelude::*;

use crate::dispatch::Method;
use crate::keys::{Action, Movement, NormalKeyAction};
use crate::pane::{PaneType, RightStatePane};
use crate::select_list::{next_index, previous_index, SelectableList};

verus! {

/// The saved-request list shown as a side panel.
pub struct RequestsList {
    pub list: SelectableList<String>,
    pub active: bool,
}

/// What one normal-mode key does to the request list's selection and
/// what it hands back to the router: `Accept` and `MoveRight` both ask
/// to enter the request editor, Up/Down move the list's own selection.
pub open spec fn requests_list_step(sel: Option<int>, len: int, key: NormalKeyAction) -> (Option<
    int,
>, Option<Action>) {
    match key {
        NormalKeyAction::Accept => (sel, Some(Action::MoveRelative(Movement::Right))),
        NormalKeyAction::MoveRight => (sel, Some(Action::MoveRelative(Movement::Right))),
        NormalKeyAction::MoveUp => (previous_index(sel, len), None),
        NormalKeyAction::MoveDown => (next_index(sel, len), None),
        NormalKeyAction::PrevTab => (next_index(sel, len), None),
        _ => (sel, key.spec_relative_or_none()),
    }
}

impl RequestsList {
    /// A fresh request list: visible, inactive, nothing selected.
    pub fn new(items: Vec<String>) -> (r: RequestsList)
        ensures
            r.list@.items == items@,
            r.list@.selected is None,
            r.list@.visible,
            !r.active,
            r.list@.wf(),
    {
        let mut list = SelectableList::new(items);
        list.set_visible(true);
        RequestsList { list, active: false }
    }

    /// Routes one normal-mode key as `requests_list_step` describes.
    pub fn handle_key(&mut self, key: NormalKeyAction) -> (r: Option<Action>)
        requires
            old(self).list@.wf(),
        ensures
            final(self).active == old(self).active,
            final(self).list@.items == old(self).list@.items,
            final(self).list@.visible == old(self).list@.visible,
            final(self).list@.wf(),
            final(self).list@.selected == requests_list_step(
                old(self).list@.selected,
                old(self).list@.items.len() as int,
                key,
            ).0,
            r == requests_list_step(
                old(self).list@.selected,
                old(self).list@.items.len() as int,
                key,
            ).1,
    {
        match key {
            NormalKeyAction::Accept | NormalKeyAction::MoveRight => Some(
                Action::MoveRelative(Movement::Right),
            ),
            NormalKeyAction::MoveUp => {
                self.list.previous();
                None
            },
            NormalKeyAction::MoveDown => {
                self.list.next();
                None
            },
            NormalKeyAction::PrevTab => {
                self.list.next();
                None
            },
            _ => key.relative_or_none(),
        }
    }

    /// What pane lies in direction `dir` of the request list.
    pub fn relative_pane(&self, dir: Movement) -> (r: Option<PaneType>)
        ensures
            r == crate::pane::spec_relative_pane(PaneType::RequestList, dir),
    {
        crate::pane::relative_pane(PaneType::RequestList, dir)
    }
}

/// The modal HTTP-method picker. It always has a selection: it is
/// created over a non-empty method list with the first method chosen,
/// and moving the selection never unsets it.
pub struct MethodsList {
    pub list: SelectableList<Method>,
}

impl MethodsList {
    /// A fresh, hidden picker with the first method selected.
    pub fn new(items: Vec<Method>) -> (r: MethodsList)
        requires
            items@.len() > 0,
        ensures
            r.list@.items == items@,
            r.list@.selected == Some(0int),
            !r.list@.visible,
            r.list@.wf(),
    {
        let mut list = SelectableList::new(items);
        list.select(0);
        MethodsList { list }
    }

    /// The method currently picked.
    pub fn selected(&self) -> (r: Option<Method>)
        requires
            self.list@.wf(),
        ensures
            (match r {
                Some(m) => self.list@.selected matches Some(i) && m == self.list@.items[i],
                None => self.list@.selected is None,
            }),
    {
        match self.list.selected() {
            Some(m) => Some(*m),
            None => None,
        }
    }

    /// Routes one key while the picker owns input: `Accept` or `Exit`
    /// dismisses it and hands back the chosen method, Up/Down move the
    /// selection, anything else is swallowed.
    pub fn handle_key(&mut self, key: NormalKeyAction) -> (r: Option<Method>)
        requires
            old(self).list@.wf(),
            old(self).list@.selected is Some,
        ensures
            final(self).list@.items == old(self).list@.items,
            final(self).list@.wf(),
            final(self).list@.selected is Some,
            (match key {
                NormalKeyAction::Accept | NormalKeyAction::Exit => {
                    &&& final(self).list@.visible == !old(self).list@.visible
                    &&& final(self).list@.selected == old(self).list@.selected
                    &&& old(self).list@.selected matches Some(i) && r == Some(
                        old(self).list@.items[i],
                    )
                },
                NormalKeyAction::MoveUp => {
                    &&& final(self).list@.visible == old(self).list@.visible
                    &&& final(self).list@.selected == previous_index(
                        old(self).list@.selected,
                        old(self).list@.items.len() as int,
                    )
                    &&& r is None
                },
                NormalKeyAction::MoveDown => {
                    &&& final(self).list@.visible == old(self).list@.visible
                    &&& final(self).list@.selected == next_index(
                        old(self).list@.selected,
                        old(self).list@.items.len() as int,
                    )
                    &&& r is None
                },
                _ => {
                    &&& final(self).list@ == old(self).list@
                    &&& r is None
                },
            }),
    {
        match key {
            NormalKeyAction::Accept | NormalKeyAction::Exit => {
                let m = match self.list.selected() {
                    Some(m) => Some(*m),
                    None => None,
                };
                self.list.toggle_visible();
                m
            },
            NormalKeyAction::MoveUp => {
                self.list.previous();
                None
            },
            NormalKeyAction::MoveDown => {
                self.list.next();
                None
            },
            _ => None,
        }
    }
}

/// The modal collection picker.
pub struct CollectionList {
    pub list: SelectableList<String>,
}

impl CollectionList {
    /// A fresh, hidden picker with nothing selected.
    pub fn new(items: Vec<String>) -> (r: CollectionList)
        ensures
            r.list@.items == items@,
            r.list@.selected is None,
            !r.list@.visible,
            r.list@.wf(),
    {
        CollectionList { list: SelectableList::new(items) }
    }

    /// Routes one key while the picker owns input: `Accept`,
    /// `NextTab` and `MoveRight` dismiss it towards the request
    /// editor, Up/Down move the selection, anything else is swallowed.
    pub fn handle_key(&mut self, key: NormalKeyAction) -> (r: Option<PaneType>)
        requires
            old(self).list@.wf(),
        ensures
            final(self).list@.items == old(self).list@.items,
            final(self).list@.visible == old(self).list@.visible,
            final(self).list@.wf(),
            (match key {
                NormalKeyAction::Accept | NormalKeyAction::NextTab | NormalKeyAction::MoveRight => {
                    &&& final(self).list@.selected == old(self).list@.selected
                    &&& r == Some(PaneType::Right(RightStatePane::Request))
                },
                NormalKeyAction::MoveUp => {
                    &&& final(self).list@.selected == previous_index(
                        old(self).list@.selected,
                        old(self).list@.items.len() as int,
                    )
                    &&& r is None
                },
                NormalKeyAction::MoveDown => {
                    &&& final(self).list@.selected == next_index(
                        old(self).list@.selected,
                        old(self).list@.items.len() as int,
                    )
                    &&& r is None
                },
                _ => {
                    &&& final(self).list@.selected == old(self).list@.selected
                    &&& r is None
                },
            }),
    {
        match key {
            NormalKeyAction::Accept | NormalKeyAction::NextTab | NormalKeyAction::MoveRight => Some(
                PaneType::Right(RightStatePane::Request),
            ),
            NormalKeyAction::MoveUp => {
                self.list.previous();
                None
            },
            NormalKeyAction::MoveDown => {
                self.list.next();
                None
            },
            _ => None,
        }
    }
}

} // verus!
