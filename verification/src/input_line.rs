//! The cursor-based single-line text editor that backs every editable
//! field: a buffer of characters, a cursor counted as the distance from
//! the end of the buffer (0 = insertion point past the last character),
//! and a confirmed baseline that `accept` commits and `cancel` restores.
//!
//! Every editing operation is total: at a buffer boundary it reports
//! `NOOP` instead of underflowing. The space character is the word
//! separator for the word-wise operations.

use vstd::prelude::*;

use crate::keys::{Key, KeyInput, Modifier};

verus! {

/// Which keybinds are active: `Normal` navigation, or one of the two
/// editable fields owning every keystroke.
#[derive(Debug, Copy, Clone, PartialEq, Eq, Structural)]
pub enum InputMode {
    /// All normal keybinds are active.
    Normal,
    /// The hostname line owns keystrokes.
    Hostname,
    /// The body field owns keystrokes.
    Body,
}

/// What one editing operation did to the buffer.
#[derive(Debug, Copy, Clone, PartialEq, Eq, Structural)]
pub enum InputResult {
    Changed,
    Accepted,
    Canceled,
    NOOP,
}

/// The editing operations of the buffer, named so that laws can speak
/// about whole sequences of them.
#[derive(Debug, Copy, Clone, PartialEq, Eq, Structural)]
pub enum EditOp {
    Insert(char),
    DeleteBackward,
    DeleteForward,
    DeleteWordBackward,
    KillToStart,
    KillToEnd,
    MoveLeft,
    MoveRight,
    Home,
    End,
    MoveWordLeft,
    Accept,
    Cancel,
    Pass,
}

/// The mathematical state of one buffer: its characters, the committed
/// baseline, the cursor as an offset from the end, and the input mode.
#[verifier::ext_equal]
pub struct BufView {
    pub content: Seq<char>,
    pub baseline: Seq<char>,
    pub cursor: nat,
    pub mode: InputMode,
}

impl BufView {
    /// The buffer invariant: the cursor never points outside the content.
    pub open spec fn wf(self) -> bool {
        self.cursor <= self.content.len()
    }

    /// The insertion point counted from the left end.
    pub open spec fn ins_point(self) -> int {
        self.content.len() - self.cursor
    }
}

/// Length of `s` once trailing spaces are stripped.
pub open spec fn trimmed_len(s: Seq<char>) -> nat
    decreases s.len(),
{
    if s.len() > 0 && s.last() == ' ' {
        trimmed_len(s.drop_last())
    } else {
        s.len()
    }
}

/// Index of the last space in `s`, if any.
pub open spec fn last_space(s: Seq<char>) -> Option<int>
    decreases s.len(),
{
    if s.len() == 0 {
        None
    } else if s.last() == ' ' {
        Some(s.len() - 1)
    } else {
        last_space(s.drop_last())
    }
}

/// The word boundary left of insertion point `off`: the last space that
/// precedes the trailing run of spaces before `off`, if there is one.
pub open spec fn word_boundary(s: Seq<char>, off: int) -> Option<int> {
    last_space(s.take(off).take(trimmed_len(s.take(off)) as int))
}

/// The content after deleting the word left of insertion point `off`.
pub open spec fn word_back_content(s: Seq<char>, off: int) -> Seq<char> {
    match word_boundary(s, off) {
        Some(i) => s.take(i + 1) + s.skip(off),
        None => s.skip(off),
    }
}

/// The cursor after moving one word left from insertion point `off`.
pub open spec fn word_left_cursor(s: Seq<char>, off: int) -> nat {
    match word_boundary(s, off) {
        Some(i) => (s.len() - i) as nat,
        None => s.len(),
    }
}

/// The transition function of the buffer: what one operation does to
/// the whole state. Boundary cases leave the state unchanged.
pub open spec fn apply_op(v: BufView, op: EditOp) -> BufView {
    match op {
        EditOp::Insert(c) => BufView { content: v.content.insert(v.ins_point(), c), ..v },
        EditOp::DeleteBackward => if v.cursor == v.content.len() {
            v
        } else {
            BufView { content: v.content.remove(v.ins_point() - 1), ..v }
        },
        EditOp::DeleteForward => if v.cursor == 0 {
            v
        } else {
            BufView {
                content: v.content.remove(v.ins_point()),
                cursor: (v.cursor - 1) as nat,
                ..v
            }
        },
        EditOp::DeleteWordBackward => BufView {
            content: word_back_content(v.content, v.ins_point()),
            ..v
        },
        EditOp::KillToStart => BufView { content: v.content.skip(v.ins_point()), ..v },
        EditOp::KillToEnd => BufView { content: v.content.take(v.ins_point()), cursor: 0, ..v },
        EditOp::MoveLeft => if v.cursor < v.content.len() {
            BufView { cursor: v.cursor + 1, ..v }
        } else {
            v
        },
        EditOp::MoveRight => if v.cursor > 0 {
            BufView { cursor: (v.cursor - 1) as nat, ..v }
        } else {
            v
        },
        EditOp::Home => BufView { cursor: v.content.len(), ..v },
        EditOp::End => BufView { cursor: 0, ..v },
        EditOp::MoveWordLeft => BufView {
            cursor: word_left_cursor(v.content, v.ins_point()),
            ..v
        },
        EditOp::Accept => BufView {
            baseline: v.content,
            cursor: 0,
            mode: InputMode::Normal,
            ..v
        },
        EditOp::Cancel => BufView {
            content: v.baseline,
            cursor: 0,
            mode: InputMode::Normal,
            ..v
        },
        EditOp::Pass => v,
    }
}

/// What each operation reports: `NOOP` exactly at the boundaries where
/// nothing happens, `Accepted` / `Canceled` for the two commits.
pub open spec fn result_of(v: BufView, op: EditOp) -> InputResult {
    match op {
        EditOp::Insert(_) => InputResult::Changed,
        EditOp::DeleteBackward => if v.cursor == v.content.len() {
            InputResult::NOOP
        } else {
            InputResult::Changed
        },
        EditOp::DeleteForward => if v.cursor == 0 {
            InputResult::NOOP
        } else {
            InputResult::Changed
        },
        EditOp::DeleteWordBackward => InputResult::Changed,
        EditOp::KillToStart => InputResult::Changed,
        EditOp::KillToEnd => InputResult::Changed,
        EditOp::MoveLeft => if v.cursor < v.content.len() {
            InputResult::Changed
        } else {
            InputResult::NOOP
        },
        EditOp::MoveRight => if v.cursor > 0 {
            InputResult::Changed
        } else {
            InputResult::NOOP
        },
        EditOp::Home => InputResult::Changed,
        EditOp::End => InputResult::Changed,
        EditOp::MoveWordLeft => InputResult::NOOP,
        EditOp::Accept => InputResult::Accepted,
        EditOp::Cancel => InputResult::Canceled,
        EditOp::Pass => InputResult::NOOP,
    }
}

/// The editing key map: which operation each key event performs.
pub open spec fn op_of_key(k: KeyInput) -> EditOp {
    match k.mods {
        Modifier::Plain => match k.code {
            Key::Char(c) => EditOp::Insert(c),
            Key::Enter => EditOp::Accept,
            Key::Backspace => EditOp::DeleteBackward,
            Key::Delete => EditOp::DeleteForward,
            Key::Esc => EditOp::Cancel,
            Key::Left => EditOp::MoveLeft,
            Key::Right => EditOp::MoveRight,
            Key::Home => EditOp::Home,
            Key::End => EditOp::End,
            _ => EditOp::Pass,
        },
        Modifier::Shift => match k.code {
            Key::Char(c) => EditOp::Insert(c),
            _ => EditOp::Pass,
        },
        Modifier::Control => match k.code {
            Key::Char(c) => if c == 'h' {
                EditOp::DeleteBackward
            } else if c == 'd' {
                EditOp::DeleteForward
            } else if c == 'b' {
                EditOp::MoveLeft
            } else if c == 'f' {
                EditOp::MoveRight
            } else if c == 'a' {
                EditOp::Home
            } else if c == 'e' {
                EditOp::End
            } else if c == 'w' {
                EditOp::DeleteWordBackward
            } else if c == 'u' {
                EditOp::KillToStart
            } else if c == 'k' {
                EditOp::KillToEnd
            } else {
                EditOp::Pass
            },
            Key::Backspace => EditOp::DeleteWordBackward,
            Key::Left => EditOp::MoveWordLeft,
            _ => EditOp::Pass,
        },
        Modifier::Alt => match k.code {
            Key::Char(c) => if c == 'b' {
                EditOp::MoveWordLeft
            } else {
                EditOp::Pass
            },
            _ => EditOp::Pass,
        },
        Modifier::Mixed => EditOp::Pass,
    }
}

/// A single editable line with a cursor and a committed baseline.
pub struct InputLineState {
    value: Vec<char>,
    prev_value: Vec<char>,
    cursor_offset: usize,
    input_mode: InputMode,
}

impl View for InputLineState {
    type V = BufView;

    closed spec fn view(&self) -> BufView {
        BufView {
            content: self.value@,
            baseline: self.prev_value@,
            cursor: self.cursor_offset as nat,
            mode: self.input_mode,
        }
    }
}

/// Copies a character vector; used where the buffer commits or restores
/// its baseline.
fn copy_chars(src: &Vec<char>) -> (r: Vec<char>)
    ensures
        r@ == src@,
{
    let mut out: Vec<char> = Vec::new();
    let mut i: usize = 0;
    while i < src.len()
        invariant
            i <= src@.len(),
            out@ == src@.take(i as int),
        decreases src@.len() - i,
    {
        out.push(src[i]);
        proof {
            assert(out@ =~= src@.take(i + 1));
        }
        i += 1;
    }
    proof {
        assert(src@.take(src@.len() as int) =~= src@);
    }
    out
}

/// Finds the word boundary left of insertion point `off`: skips the
/// trailing run of spaces, then scans for the previous space.
fn find_word_boundary(v: &Vec<char>, off: usize) -> (r: Option<usize>)
    requires
        off <= v@.len(),
    ensures
        match r {
            Some(i) => word_boundary(v@, off as int) == Some(i as int) && i < off,
            None => word_boundary(v@, off as int) is None,
        },
{
    let ghost s = v@;
    let mut t: usize = off;
    while t > 0 && v[t - 1] == ' '
        invariant
            t <= off <= s.len(),
            s == v@,
            trimmed_len(s.take(off as int)) == trimmed_len(s.take(t as int)),
        decreases t,
    {
        proof {
            assert(s.take(t as int).last() == ' ');
            assert(s.take(t as int).drop_last() =~= s.take(t - 1));
        }
        t -= 1;
    }
    proof {
        if t > 0 {
            assert(s.take(t as int).last() == s[t - 1]);
        }
        assert(trimmed_len(s.take(t as int)) == t);
        assert(s.take(off as int).take(t as int) =~= s.take(t as int));
    }
    // now word_boundary(s, off) == last_space(s.take(t))
    let mut j: usize = t;
    while j > 0
        invariant
            j <= t <= off <= s.len(),
            s == v@,
            word_boundary(s, off as int) == last_space(s.take(j as int)),
        decreases j,
    {
        if v[j - 1] == ' ' {
            proof {
                assert(s.take(j as int).last() == ' ');
            }
            return Some(j - 1);
        }
        proof {
            assert(s.take(j as int).last() != ' ');
            assert(s.take(j as int).drop_last() =~= s.take(j - 1));
        }
        j -= 1;
    }
    proof {
        assert(s.take(0) =~= Seq::<char>::empty());
    }
    None
}

impl InputLineState {
    /// A fresh buffer whose content and baseline both hold `value`,
    /// with the cursor at the end and normal mode.
    pub fn new(value: Vec<char>) -> (r: InputLineState)
        ensures
            r@.content == value@,
            r@.baseline == value@,
            r@.cursor == 0,
            r@.mode == InputMode::Normal,
    {
        let prev_value = copy_chars(&value);
        InputLineState { value, prev_value, cursor_offset: 0, input_mode: InputMode::Normal }
    }

    /// The characters currently in the buffer.
    pub fn value(&self) -> (r: &Vec<char>)
        ensures
            r@ == self@.content,
    {
        &self.value
    }

    /// The cursor as an offset from the end of the content.
    pub fn cursor_offset(&self) -> (r: usize)
        ensures
            r == self@.cursor,
    {
        self.cursor_offset
    }

    pub fn input_mode(&self) -> (r: InputMode)
        ensures
            r == self@.mode,
    {
        self.input_mode
    }

    /// Empties the content and resets the cursor; the baseline keeps
    /// its committed value.
    pub fn clear(&mut self)
        ensures
            final(self)@.content.len() == 0,
            final(self)@.cursor == 0,
            final(self)@.baseline == old(self)@.baseline,
            final(self)@.mode == old(self)@.mode,
    {
        self.value.clear();
        self.cursor_offset = 0;
    }

    /// Hands keystroke ownership over (or back) and resets the cursor
    /// to the end of the line.
    pub fn set_input_mode(&mut self, mode: InputMode)
        ensures
            final(self)@.mode == mode,
            final(self)@.cursor == 0,
            final(self)@.content == old(self)@.content,
            final(self)@.baseline == old(self)@.baseline,
    {
        self.input_mode = mode;
        self.cursor_offset = 0;
    }

    /// Inserts `c` immediately left of the cursor.
    pub fn insert_char(&mut self, c: char) -> (r: InputResult)
        requires
            old(self)@.wf(),
        ensures
            final(self)@ == apply_op(old(self)@, EditOp::Insert(c)),
            final(self)@.wf(),
            r == result_of(old(self)@, EditOp::Insert(c)),
    {
        if self.cursor_offset == 0 {
            self.value.push(c);
            proof {
                assert(self.value@ =~= old(self)@.content.insert(old(self)@.ins_point(), c));
            }
        } else {
            let i: usize = self.value.len() - self.cursor_offset;
            self.value.insert(i, c);
        }
        InputResult::Changed
    }

    /// Removes the character left of the cursor; `NOOP` when the cursor
    /// is at the start of the content (so also on an empty buffer).
    pub fn delete_backward(&mut self) -> (r: InputResult)
        requires
            old(self)@.wf(),
        ensures
            final(self)@ == apply_op(old(self)@, EditOp::DeleteBackward),
            final(self)@.wf(),
            r == result_of(old(self)@, EditOp::DeleteBackward),
    {
        if self.cursor_offset == self.value.len() {
            InputResult::NOOP
        } else {
            let i: usize = self.value.len() - self.cursor_offset - 1;
            self.value.remove(i);
            InputResult::Changed
        }
    }

    /// Removes the character right of the cursor; `NOOP` when the
    /// cursor is past the last character.
    pub fn delete_forward(&mut self) -> (r: InputResult)
        requires
            old(self)@.wf(),
        ensures
            final(self)@ == apply_op(old(self)@, EditOp::DeleteForward),
            final(self)@.wf(),
            r == result_of(old(self)@, EditOp::DeleteForward),
    {
        if self.cursor_offset == 0 {
            InputResult::NOOP
        } else {
            let i: usize = self.value.len() - self.cursor_offset;
            self.value.remove(i);
            self.cursor_offset -= 1;
            InputResult::Changed
        }
    }

    /// Deletes back to the previous word boundary left of the cursor.
    pub fn delete_word_backward(&mut self) -> (r: InputResult)
        requires
            old(self)@.wf(),
        ensures
            final(self)@ == apply_op(old(self)@, EditOp::DeleteWordBackward),
            final(self)@.wf(),
            r == result_of(old(self)@, EditOp::DeleteWordBackward),
    {
        let off: usize = self.value.len() - self.cursor_offset;
        match find_word_boundary(&self.value, off) {
            Some(i) => {
                let mut tail = self.value.split_off(off);
                self.value.truncate(i + 1);
                self.value.append(&mut tail);
                proof {
                    assert(self.value@ =~= word_back_content(old(self)@.content, old(
                        self,
                    )@.ins_point()));
                }
            },
            None => {
                let tail = self.value.split_off(off);
                self.value = tail;
                proof {
                    assert(self.value@ =~= word_back_content(old(self)@.content, old(
                        self,
                    )@.ins_point()));
                }
            },
        }
        InputResult::Changed
    }

    /// Removes everything left of the cursor.
    pub fn kill_to_start(&mut self) -> (r: InputResult)
        requires
            old(self)@.wf(),
        ensures
            final(self)@ == apply_op(old(self)@, EditOp::KillToStart),
            final(self)@.wf(),
            r == result_of(old(self)@, EditOp::KillToStart),
    {
        let off: usize = self.value.len() - self.cursor_offset;
        let tail = self.value.split_off(off);
        self.value = tail;
        proof {
            assert(self.value@ =~= old(self)@.content.skip(old(self)@.ins_point()));
        }
        InputResult::Changed
    }

    /// Removes everything right of the cursor and puts the cursor at
    /// the (new) end.
    pub fn kill_to_end(&mut self) -> (r: InputResult)
        requires
            old(self)@.wf(),
        ensures
            final(self)@ == apply_op(old(self)@, EditOp::KillToEnd),
            final(self)@.wf(),
            r == result_of(old(self)@, EditOp::KillToEnd),
    {
        let off: usize = self.value.len() - self.cursor_offset;
        self.value.truncate(off);
        self.cursor_offset = 0;
        proof {
            assert(self.value@ =~= old(self)@.content.take(old(self)@.ins_point()));
        }
        InputResult::Changed
    }

    /// Moves the cursor one character left, clamped at the start.
    pub fn move_left(&mut self) -> (r: InputResult)
        requires
            old(self)@.wf(),
        ensures
            final(self)@ == apply_op(old(self)@, EditOp::MoveLeft),
            final(self)@.wf(),
            r == result_of(old(self)@, EditOp::MoveLeft),
    {
        if self.cursor_offset < self.value.len() {
            self.cursor_offset += 1;
            InputResult::Changed
        } else {
            InputResult::NOOP
        }
    }

    /// Moves the cursor one character right, clamped at the end.
    pub fn move_right(&mut self) -> (r: InputResult)
        requires
            old(self)@.wf(),
        ensures
            final(self)@ == apply_op(old(self)@, EditOp::MoveRight),
            final(self)@.wf(),
            r == result_of(old(self)@, EditOp::MoveRight),
    {
        if self.cursor_offset > 0 {
            self.cursor_offset -= 1;
            InputResult::Changed
        } else {
            InputResult::NOOP
        }
    }

    /// Puts the cursor at the start of the content.
    pub fn move_home(&mut self) -> (r: InputResult)
        requires
            old(self)@.wf(),
        ensures
            final(self)@ == apply_op(old(self)@, EditOp::Home),
            final(self)@.wf(),
            r == result_of(old(self)@, EditOp::Home),
    {
        self.cursor_offset = self.value.len();
        InputResult::Changed
    }

    /// Puts the cursor past the last character.
    pub fn move_end(&mut self) -> (r: InputResult)
        requires
            old(self)@.wf(),
        ensures
            final(self)@ == apply_op(old(self)@, EditOp::End),
            final(self)@.wf(),
            r == result_of(old(self)@, EditOp::End),
    {
        self.cursor_offset = 0;
        InputResult::Changed
    }

    /// Moves the cursor to the word boundary left of it.
    pub fn move_word_left(&mut self) -> (r: InputResult)
        requires
            old(self)@.wf(),
        ensures
            final(self)@ == apply_op(old(self)@, EditOp::MoveWordLeft),
            final(self)@.wf(),
            r == result_of(old(self)@, EditOp::MoveWordLeft),
    {
        let off: usize = self.value.len() - self.cursor_offset;
        match find_word_boundary(&self.value, off) {
            Some(i) => {
                self.cursor_offset = self.value.len() - i;
            },
            None => {
                self.cursor_offset = self.value.len();
            },
        }
        InputResult::NOOP
    }

    /// Commits the content as the new baseline and returns to normal
    /// mode.
    pub fn accept(&mut self) -> (r: InputResult)
        requires
            old(self)@.wf(),
        ensures
            final(self)@ == apply_op(old(self)@, EditOp::Accept),
            final(self)@.wf(),
            r == result_of(old(self)@, EditOp::Accept),
    {
        self.prev_value = copy_chars(&self.value);
        self.input_mode = InputMode::Normal;
        self.cursor_offset = 0;
        InputResult::Accepted
    }

    /// Restores the content to the committed baseline and returns to
    /// normal mode.
    pub fn cancel(&mut self) -> (r: InputResult)
        requires
            old(self)@.wf(),
        ensures
            final(self)@ == apply_op(old(self)@, EditOp::Cancel),
            final(self)@.wf(),
            r == result_of(old(self)@, EditOp::Cancel),
    {
        self.value = copy_chars(&self.prev_value);
        self.input_mode = InputMode::Normal;
        self.cursor_offset = 0;
        InputResult::Canceled
    }

    /// Routes one key event to the operation the editing key map names
    /// for it; unmapped keys are swallowed as `NOOP`.
    pub fn handle_key(&mut self, k: KeyInput) -> (r: InputResult)
        requires
            old(self)@.wf(),
        ensures
            final(self)@ == apply_op(old(self)@, op_of_key(k)),
            final(self)@.wf(),
            r == result_of(old(self)@, op_of_key(k)),
    {
        match k.mods {
            Modifier::Plain => match k.code {
                Key::Char(c) => self.insert_char(c),
                Key::Enter => self.accept(),
                Key::Backspace => self.delete_backward(),
                Key::Delete => self.delete_forward(),
                Key::Esc => self.cancel(),
                Key::Left => self.move_left(),
                Key::Right => self.move_right(),
                Key::Home => self.move_home(),
                Key::End => self.move_end(),
                _ => InputResult::NOOP,
            },
            Modifier::Shift => match k.code {
                Key::Char(c) => self.insert_char(c),
                _ => InputResult::NOOP,
            },
            Modifier::Control => match k.code {
                Key::Char(c) => {
                    if c == 'h' {
                        self.delete_backward()
                    } else if c == 'd' {
                        self.delete_forward()
                    } else if c == 'b' {
                        self.move_left()
                    } else if c == 'f' {
                        self.move_right()
                    } else if c == 'a' {
                        self.move_home()
                    } else if c == 'e' {
                        self.move_end()
                    } else if c == 'w' {
                        self.delete_word_backward()
                    } else if c == 'u' {
                        self.kill_to_start()
                    } else if c == 'k' {
                        self.kill_to_end()
                    } else {
                        InputResult::NOOP
                    }
                },
                Key::Backspace => self.delete_word_backward(),
                Key::Left => self.move_word_left(),
                _ => InputResult::NOOP,
            },
            Modifier::Alt => match k.code {
                Key::Char(c) => {
                    if c == 'b' {
                        self.move_word_left()
                    } else {
                        InputResult::NOOP
                    }
                },
                _ => InputResult::NOOP,
            },
            Modifier::Mixed => InputResult::NOOP,
        }
    }
}

/// Folds a whole sequence of editing operations over a buffer state,
/// first operation first.
pub open spec fn apply_ops(v: BufView, ops: Seq<EditOp>) -> BufView
    decreases ops.len(),
{
    if ops.len() == 0 {
        v
    } else {
        apply_ops(apply_op(v, ops[0]), ops.skip(1))
    }
}

proof fn lemma_trimmed_len_le(s: Seq<char>)
    ensures
        trimmed_len(s) <= s.len(),
    decreases s.len(),
{
    if s.len() > 0 && s.last() == ' ' {
        lemma_trimmed_len_le(s.drop_last());
    }
}

proof fn lemma_last_space_bounds(s: Seq<char>)
    ensures
        match last_space(s) {
            Some(i) => 0 <= i < s.len(),
            None => true,
        },
    decreases s.len(),
{
    if s.len() == 0 {
    } else if s.last() == ' ' {
    } else {
        lemma_last_space_bounds(s.drop_last());
    }
}

/// A word boundary, where there is one, lies strictly left of the
/// insertion point it was sought from.
proof fn lemma_word_boundary_bounds(s: Seq<char>, off: int)
    requires
        0 <= off <= s.len(),
    ensures
        match word_boundary(s, off) {
            Some(i) => 0 <= i < off,
            None => true,
        },
{
    lemma_trimmed_len_le(s.take(off));
    lemma_last_space_bounds(s.take(off).take(trimmed_len(s.take(off)) as int));
}

/// Law: every single editing operation preserves the buffer invariant
/// `0 <= cursor <= content.len()`.
pub proof fn lemma_apply_op_wf(v: BufView, op: EditOp)
    requires
        v.wf(),
    ensures
        apply_op(v, op).wf(),
{
    match op {
        EditOp::DeleteWordBackward => {
            lemma_word_boundary_bounds(v.content, v.ins_point());
        },
        EditOp::MoveWordLeft => {
            lemma_word_boundary_bounds(v.content, v.ins_point());
        },
        _ => {},
    }
}

/// Law: any sequence of editing operations preserves the buffer
/// invariant; in particular every state reachable from an empty buffer
/// keeps `0 <= cursor <= content.len()`.
pub proof fn lemma_apply_ops_wf(v: BufView, ops: Seq<EditOp>)
    requires
        v.wf(),
    ensures
        apply_ops(v, ops).wf(),
    decreases ops.len(),
{
    if ops.len() > 0 {
        lemma_apply_op_wf(v, ops[0]);
        lemma_apply_ops_wf(apply_op(v, ops[0]), ops.skip(1));
    }
}

/// Law: no operation other than `accept` moves the committed baseline.
pub proof fn lemma_op_keeps_baseline(v: BufView, op: EditOp)
    requires
        op != EditOp::Accept,
    ensures
        apply_op(v, op).baseline == v.baseline,
{
}

/// Law: a whole sequence of operations without an `accept` leaves the
/// committed baseline untouched.
pub proof fn lemma_ops_keep_baseline(v: BufView, ops: Seq<EditOp>)
    requires
        forall|i: int| 0 <= i < ops.len() ==> ops[i] != EditOp::Accept,
    ensures
        apply_ops(v, ops).baseline == v.baseline,
    decreases ops.len(),
{
    if ops.len() > 0 {
        lemma_op_keeps_baseline(v, ops[0]);
        assert(forall|i: int|
            0 <= i < ops.skip(1).len() ==> ops.skip(1)[i] == ops[i + 1]);
        lemma_ops_keep_baseline(apply_op(v, ops[0]), ops.skip(1));
    }
}

/// Law: after editing arbitrarily without an `accept`, `cancel` always
/// restores the content to the value at the last `accept` (the
/// baseline the sequence started from).
pub proof fn lemma_cancel_restores_baseline(v: BufView, ops: Seq<EditOp>)
    requires
        forall|i: int| 0 <= i < ops.len() ==> ops[i] != EditOp::Accept,
    ensures
        apply_op(apply_ops(v, ops), EditOp::Cancel).content == v.baseline,
{
    lemma_ops_keep_baseline(v, ops);
}

/// Law: `kill-to-start` followed by `kill-to-end` empties the buffer,
/// whatever the prior content and cursor.
pub proof fn lemma_kill_clears(v: BufView)
    requires
        v.wf(),
    ensures
        apply_op(apply_op(v, EditOp::KillToStart), EditOp::KillToEnd).content
            == Seq::<char>::empty(),
{
    let v1 = apply_op(v, EditOp::KillToStart);
    assert(v1.content.len() == v.cursor);
    assert(apply_op(v1, EditOp::KillToEnd).content =~= Seq::<char>::empty());
}

/// Law: `delete-backward` with the cursor at the start of the content
/// (so in particular on an empty buffer) changes nothing and reports
/// `NOOP`.
pub proof fn lemma_delete_backward_at_start(v: BufView)
    requires
        v.wf(),
        v.cursor == v.content.len(),
    ensures
        apply_op(v, EditOp::DeleteBackward) == v,
        result_of(v, EditOp::DeleteBackward) == InputResult::NOOP,
{
}

/// Law: `delete-forward` with the cursor at offset 0 (past the last
/// character) changes nothing and reports `NOOP`.
pub proof fn lemma_delete_forward_at_end(v: BufView)
    requires
        v.cursor == 0,
    ensures
        apply_op(v, EditOp::DeleteForward) == v,
        result_of(v, EditOp::DeleteForward) == InputResult::NOOP,
{
}

} // verus!
