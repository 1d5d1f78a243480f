//! Key events as plain values, and the two key maps that turn them into
//! actions: process-global shortcuts and the per-pane normal-mode map.

use vstd::prelude::*;

verus! {

/// Logical identity of one key, as the key-event source reports it.
#[derive(Debug, Copy, Clone, PartialEq, Eq, Structural)]
pub enum Key {
    Char(char),
    Enter,
    Esc,
    Backspace,
    Delete,
    Left,
    Right,
    Up,
    Down,
    Home,
    End,
    Tab,
    BackTab,
    Other,
}

/// The modifier set held during a key press, reduced to the exact
/// combinations the key maps distinguish; any other combination is
/// `Mixed` and matches nothing.
#[derive(Debug, Copy, Clone, PartialEq, Eq, Structural)]
pub enum Modifier {
    Plain,
    Shift,
    Control,
    Alt,
    Mixed,
}

/// One key event: a key identity plus the modifier set held with it.
#[derive(Debug, Copy, Clone, PartialEq, Eq, Structural)]
pub struct KeyInput {
    pub code: Key,
    pub mods: Modifier,
}

/// A screen direction a pane may ask the router to move focus in.
#[derive(Debug, Copy, Clone, PartialEq, Eq, Structural)]
pub enum Movement {
    Up,
    Down,
    Left,
    Right,
}

/// What a pane's key handler hands back to the router instead of
/// consuming the key itself.
#[derive(Debug, Copy, Clone, PartialEq, Eq, Structural)]
pub enum Action {
    MoveRelative(Movement),
}

/// A process-global shortcut, matched before the active pane sees the
/// key (only while no field is in an editing mode).
#[derive(Debug, Copy, Clone, PartialEq, Eq, Structural)]
pub enum GlobalKeyAction {
    Quit,
    ToggleRequestList,
    Send,
    Methods,
    Collections,
    Other,
}

/// A key as the normal-mode (non-editing) key map reads it.
#[derive(Debug, Copy, Clone, PartialEq, Eq, Structural)]
pub enum NormalKeyAction {
    Exit,
    MoveLeft,
    MoveRight,
    MoveUp,
    MoveDown,
    NextTab,
    PrevTab,
    Accept,
    InsertMode,
    Copy,
    Other,
}

impl GlobalKeyAction {
    /// The global shortcut table: quit, toggle the request list, send,
    /// open the method picker, open the collection picker.
    pub open spec fn spec_of_key(k: KeyInput) -> GlobalKeyAction {
        if k.mods == Modifier::Plain {
            if k.code == Key::Char('q') {
                GlobalKeyAction::Quit
            } else if k.code == Key::Char('r') {
                GlobalKeyAction::ToggleRequestList
            } else if k.code == Key::Char('p') {
                GlobalKeyAction::Send
            } else if k.code == Key::Char('m') {
                GlobalKeyAction::Methods
            } else if k.code == Key::Char('c') {
                GlobalKeyAction::Collections
            } else {
                GlobalKeyAction::Other
            }
        } else {
            GlobalKeyAction::Other
        }
    }

    pub fn of_key(k: KeyInput) -> (r: GlobalKeyAction)
        ensures
            r == GlobalKeyAction::spec_of_key(k),
    {
        if k.mods == Modifier::Plain {
            match k.code {
                Key::Char('q') => GlobalKeyAction::Quit,
                Key::Char('r') => GlobalKeyAction::ToggleRequestList,
                Key::Char('p') => GlobalKeyAction::Send,
                Key::Char('m') => GlobalKeyAction::Methods,
                Key::Char('c') => GlobalKeyAction::Collections,
                _ => GlobalKeyAction::Other,
            }
        } else {
            GlobalKeyAction::Other
        }
    }
}

impl NormalKeyAction {
    /// The normal-mode key table shared by every pane.
    pub open spec fn spec_of_key(k: KeyInput) -> NormalKeyAction {
        if k.mods == Modifier::Plain {
            if k.code == Key::Esc {
                NormalKeyAction::Exit
            } else if k.code == Key::Left || k.code == Key::Char('h') {
                NormalKeyAction::MoveLeft
            } else if k.code == Key::Right || k.code == Key::Char('l') {
                NormalKeyAction::MoveRight
            } else if k.code == Key::Up || k.code == Key::Char('k') {
                NormalKeyAction::MoveUp
            } else if k.code == Key::Down || k.code == Key::Char('j') {
                NormalKeyAction::MoveDown
            } else if k.code == Key::Char('i') {
                NormalKeyAction::InsertMode
            } else if k.code == Key::Char('y') {
                NormalKeyAction::Copy
            } else if k.code == Key::Tab {
                NormalKeyAction::NextTab
            } else if k.code == Key::Enter || k.code == Key::Char(' ') {
                NormalKeyAction::Accept
            } else {
                NormalKeyAction::Other
            }
        } else if k.mods == Modifier::Shift && k.code == Key::BackTab {
            NormalKeyAction::PrevTab
        } else {
            NormalKeyAction::Other
        }
    }

    pub fn of_key(k: KeyInput) -> (r: NormalKeyAction)
        ensures
            r == NormalKeyAction::spec_of_key(k),
    {
        if k.mods == Modifier::Plain {
            match k.code {
                Key::Esc => NormalKeyAction::Exit,
                Key::Left | Key::Char('h') => NormalKeyAction::MoveLeft,
                Key::Right | Key::Char('l') => NormalKeyAction::MoveRight,
                Key::Up | Key::Char('k') => NormalKeyAction::MoveUp,
                Key::Down | Key::Char('j') => NormalKeyAction::MoveDown,
                Key::Char('i') => NormalKeyAction::InsertMode,
                Key::Char('y') => NormalKeyAction::Copy,
                Key::Tab => NormalKeyAction::NextTab,
                Key::Enter | Key::Char(' ') => NormalKeyAction::Accept,
                _ => NormalKeyAction::Other,
            }
        } else if k.mods == Modifier::Shift {
            match k.code {
                Key::BackTab => NormalKeyAction::PrevTab,
                _ => NormalKeyAction::Other,
            }
        } else {
            NormalKeyAction::Other
        }
    }

    /// The movements become router requests; every other key is consumed.
    pub open spec fn spec_relative_or_none(self) -> Option<Action> {
        match self {
            NormalKeyAction::MoveLeft => Some(Action::MoveRelative(Movement::Left)),
            NormalKeyAction::MoveRight => Some(Action::MoveRelative(Movement::Right)),
            NormalKeyAction::MoveUp => Some(Action::MoveRelative(Movement::Up)),
            NormalKeyAction::MoveDown => Some(Action::MoveRelative(Movement::Down)),
            _ => None,
        }
    }

    pub fn relative_or_none(self) -> (r: Option<Action>)
        ensures
            r == self.spec_relative_or_none(),
    {
        match self {
            NormalKeyAction::MoveLeft => Some(Action::MoveRelative(Movement::Left)),
            NormalKeyAction::MoveRight => Some(Action::MoveRelative(Movement::Right)),
            NormalKeyAction::MoveUp => Some(Action::MoveRelative(Movement::Up)),
            NormalKeyAction::MoveDown => Some(Action::MoveRelative(Movement::Down)),
            _ => None,
        }
    }
}

} // verus!
