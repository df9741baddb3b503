//! The board controller: interaction mode, active column, row cursor and edit
//! buffer, driven one key event at a time.
use vstd::prelude::*;

use crate::tasks::{Board, BoardModel, TaskStatus};

verus! {

/// The column that has the focus, in the fixed order Backlog, InProgress, Done.
#[derive(Clone, Copy, Debug, PartialEq, Eq, Structural)]
pub enum ActiveSection {
    Backlog,
    InProgress,
    Done,
}

impl ActiveSection {
    /// The column tag of the section.
    pub open spec fn as_status(self) -> TaskStatus {
        match self {
            ActiveSection::Backlog => TaskStatus::Backlog,
            ActiveSection::InProgress => TaskStatus::InProgress,
            ActiveSection::Done => TaskStatus::Done,
        }
    }

    /// The section to the right, staying at Done.
    pub open spec fn next_section(self) -> ActiveSection {
        match self {
            ActiveSection::Backlog => ActiveSection::InProgress,
            _ => ActiveSection::Done,
        }
    }

    /// The section to the left, staying at Backlog.
    pub open spec fn prev_section(self) -> ActiveSection {
        match self {
            ActiveSection::Done => ActiveSection::InProgress,
            _ => ActiveSection::Backlog,
        }
    }

    pub fn to_status(self) -> (c: TaskStatus)
        ensures
            c == self.as_status(),
    {
        match self {
            ActiveSection::Backlog => TaskStatus::Backlog,
            ActiveSection::InProgress => TaskStatus::InProgress,
            ActiveSection::Done => TaskStatus::Done,
        }
    }

    pub fn next(self) -> (r: ActiveSection)
        ensures
            r == self.next_section(),
    {
        match self {
            ActiveSection::Backlog => ActiveSection::InProgress,
            _ => ActiveSection::Done,
        }
    }

    pub fn prev(self) -> (r: ActiveSection)
        ensures
            r == self.prev_section(),
    {
        match self {
            ActiveSection::Done => ActiveSection::InProgress,
            _ => ActiveSection::Backlog,
        }
    }
}

/// The interaction mode: navigating the board, or composing a new task's text.
#[derive(Clone, Copy, Debug, PartialEq, Eq, Structural)]
pub enum AppState {
    Manage,
    Edit,
}

/// An abstract key press.
#[derive(Clone, Copy, Debug, PartialEq, Eq, Structural)]
pub enum Key {
    Up,
    Down,
    Left,
    Right,
    Char(char),
    Backspace,
    Esc,
    Enter,
    Delete,
    Other,
}

/// What the caller has to do after a key was handled.
#[derive(Clone, Copy, Debug, PartialEq, Eq, Structural)]
pub enum Action {
    /// Keep reading keys.
    Continue,
    /// Save the board and stop.
    Quit,
}

/// The row the cursor rests on after a row above or at it left a column that
/// now has `len` rows: the same slot, or the one above where it fell off the end.
pub open spec fn kept_row(selected: nat, len: nat) -> nat {
    if selected > 0 && selected >= len {
        (selected - 1) as nat
    } else {
        selected
    }
}

/// The controller as the library reasons about it.
pub ghost struct AppModel {
    pub state: AppState,
    pub active: ActiveSection,
    pub selected: nat,
    pub message: Seq<char>,
    pub board: BoardModel,
}

impl AppModel {
    /// The number of tasks in the active column.
    pub open spec fn active_len(self) -> nat {
        self.board.column(self.active.as_status()).len()
    }

    /// The cursor addresses a row of the active column, or is 0 where that column
    /// is empty.
    pub open spec fn wf(self) -> bool {
        if self.active_len() == 0 {
            self.selected == 0
        } else {
            self.selected < self.active_len()
        }
    }

    pub open spec fn moved_up(self) -> AppModel {
        if self.selected > 0 {
            AppModel { selected: (self.selected - 1) as nat, ..self }
        } else {
            self
        }
    }

    pub open spec fn moved_down(self) -> AppModel {
        if self.active_len() != 0 && self.selected + 1 < self.active_len() {
            AppModel { selected: self.selected + 1, ..self }
        } else {
            self
        }
    }

    /// Focus on section `to`, the cursor back at the top if the focus moved.
    pub open spec fn focused(self, to: ActiveSection) -> AppModel {
        if to == self.active {
            self
        } else {
            AppModel { active: to, selected: 0, ..self }
        }
    }

    pub open spec fn moved_left(self) -> AppModel {
        self.focused(self.active.prev_section())
    }

    pub open spec fn moved_right(self) -> AppModel {
        self.focused(self.active.next_section())
    }

    /// The selected task moved to the end of section `to`; nothing happens where
    /// `to` is the active section or that section is empty.
    pub open spec fn shifted(self, to: ActiveSection) -> AppModel {
        if to == self.active || self.active_len() == 0 {
            self
        } else {
            AppModel {
                board: self.board.moved(self.active.as_status(), self.selected as int, to.as_status()),
                selected: kept_row(self.selected, (self.active_len() - 1) as nat),
                ..self
            }
        }
    }

    pub open spec fn promoted(self) -> AppModel {
        self.shifted(self.active.next_section())
    }

    pub open spec fn demoted(self) -> AppModel {
        self.shifted(self.active.prev_section())
    }

    /// The selected task removed; the cursor one row up unless it was at the top.
    pub open spec fn deleted(self) -> AppModel {
        if self.active_len() == 0 {
            self
        } else {
            AppModel {
                board: self.board.removed(self.active.as_status(), self.selected as int),
                selected: if self.selected > 0 {
                    (self.selected - 1) as nat
                } else {
                    0
                },
                ..self
            }
        }
    }

    pub open spec fn editing(self) -> AppModel {
        AppModel { state: AppState::Edit, message: Seq::empty(), ..self }
    }

    pub open spec fn typed(self, ch: char) -> AppModel {
        AppModel { message: self.message.push(ch), ..self }
    }

    pub open spec fn backspaced(self) -> AppModel {
        if self.message.len() > 0 {
            AppModel { message: self.message.drop_last(), ..self }
        } else {
            self
        }
    }

    pub open spec fn escaped(self) -> AppModel {
        AppModel { state: AppState::Manage, message: Seq::empty(), ..self }
    }

    /// The edit buffer added as a task at the end of the active column.
    pub open spec fn committed(self) -> AppModel {
        AppModel {
            state: AppState::Manage,
            message: Seq::empty(),
            board: self.board.appended(self.active.as_status(), self.message),
            ..self
        }
    }

    /// The key quits: `q` while navigating.
    pub open spec fn quits(self, key: Key) -> bool {
        self.state == AppState::Manage && key == Key::Char('q')
    }

    /// The controller after handling `key`.
    pub open spec fn step(self, key: Key) -> AppModel {
        match self.state {
            AppState::Manage => match key {
                Key::Up => self.moved_up(),
                Key::Down => self.moved_down(),
                Key::Left => self.moved_left(),
                Key::Right => self.moved_right(),
                Key::Char(c) => if c == 'i' {
                    self.editing()
                } else if c == 'k' {
                    self.promoted()
                } else if c == 'j' {
                    self.demoted()
                } else {
                    self
                },
                Key::Delete => self.deleted(),
                _ => self,
            },
            AppState::Edit => match key {
                Key::Char(c) => self.typed(c),
                Key::Backspace => self.backspaced(),
                Key::Esc => self.escaped(),
                Key::Enter => self.committed(),
                _ => self,
            },
        }
    }
}

/// The controller: mode, focused column, cursor, edit buffer, and the board.
pub struct App {
    app_state: AppState,
    active_selection: ActiveSection,
    current_selection_idx: usize,
    current_message: String,
    board: Board,
}

impl View for App {
    type V = AppModel;

    closed spec fn view(&self) -> AppModel {
        AppModel {
            state: self.app_state,
            active: self.active_selection,
            selected: self.current_selection_idx as nat,
            message: self.current_message@,
            board: self.board@,
        }
    }
}

impl Default for App {
    /// A controller over an empty board.
    fn default() -> (a: App)
        ensures
            a.wf(),
            a@ == (AppModel {
                state: AppState::Manage,
                active: ActiveSection::Backlog,
                selected: 0,
                message: Seq::empty(),
                board: BoardModel::empty(),
            }),
    {
        App::new(Board::new())
    }
}

impl App {
    /// The board is well formed and the cursor addresses a row of the active column.
    pub closed spec fn wf(&self) -> bool {
        self.board.wf() && self@.wf()
    }

    /// A controller over `board`, navigating, focused on Backlog at the top row.
    pub fn new(board: Board) -> (a: App)
        requires
            board.wf(),
        ensures
            a.wf(),
            a@ == (AppModel {
                state: AppState::Manage,
                active: ActiveSection::Backlog,
                selected: 0,
                message: Seq::empty(),
                board: board@,
            }),
    {
        App {
            app_state: AppState::Manage,
            active_selection: ActiveSection::Backlog,
            current_selection_idx: 0,
            current_message: String::new(),
            board,
        }
    }

    pub fn app_state(&self) -> (r: AppState)
        ensures
            r == self@.state,
    {
        self.app_state
    }

    pub fn active_selection(&self) -> (r: ActiveSection)
        ensures
            r == self@.active,
    {
        self.active_selection
    }

    pub fn current_selection_idx(&self) -> (r: usize)
        ensures
            r == self@.selected,
    {
        self.current_selection_idx
    }

    /// The edit buffer.
    pub fn current_message(&self) -> (r: &str)
        ensures
            r@ == self@.message,
    {
        self.current_message.as_str()
    }

    pub fn board(&self) -> (b: &Board)
        ensures
            b@ == self@.board,
            self.wf() ==> b.wf(),
    {
        &self.board
    }

    /// The board, for saving.
    pub fn into_board(self) -> (b: Board)
        ensures
            b@ == self@.board,
            self.wf() ==> b.wf(),
    {
        self.board
    }

    /// Whether section `s` has the focus.
    pub fn is_active(&self, s: ActiveSection) -> (r: bool)
        ensures
            r == (s == self@.active),
    {
        s == self.active_selection
    }

    /// The row to highlight: the cursor while navigating a non-empty column.
    pub fn selected_row(&self) -> (r: Option<usize>)
        ensures
            r == (if self@.state == AppState::Manage && self@.active_len() > 0 {
                Some(self@.selected as usize)
            } else {
                None::<usize>
            }),
    {
        let len = self.board.len(self.active_selection.to_status());
        match self.app_state {
            AppState::Manage => if len > 0 {
                Some(self.current_selection_idx)
            } else {
                None
            },
            AppState::Edit => None,
        }
    }

    /// The texts of section `s`, in order.
    pub fn section_texts(&self, s: ActiveSection) -> (r: Vec<String>)
        ensures
            r@.map_values(|t: String| t@) == self@.board.column(s.as_status()),
    {
        self.board.texts(s.to_status())
    }

    pub fn move_up(&mut self)
        requires
            old(self).wf(),
        ensures
            final(self).wf(),
            final(self)@ == old(self)@.moved_up(),
    {
        if self.current_selection_idx != 0 {
            self.current_selection_idx = self.current_selection_idx - 1;
        }
    }

    pub fn move_down(&mut self)
        requires
            old(self).wf(),
        ensures
            final(self).wf(),
            final(self)@ == old(self)@.moved_down(),
    {
        let len = self.board.len(self.active_selection.to_status());
        if len != 0 && self.current_selection_idx < len - 1 {
            self.current_selection_idx = self.current_selection_idx + 1;
        }
    }

    fn focus(&mut self, to: ActiveSection)
        requires
            old(self).wf(),
        ensures
            final(self).wf(),
            final(self)@ == old(self)@.focused(to),
    {
        if to != self.active_selection {
            self.active_selection = to;
            self.current_selection_idx = 0;
        }
    }

    pub fn move_left(&mut self)
        requires
            old(self).wf(),
        ensures
            final(self).wf(),
            final(self)@ == old(self)@.moved_left(),
    {
        let to = self.active_selection.prev();
        self.focus(to);
    }

    pub fn move_right(&mut self)
        requires
            old(self).wf(),
        ensures
            final(self).wf(),
            final(self)@ == old(self)@.moved_right(),
    {
        let to = self.active_selection.next();
        self.focus(to);
    }

    fn shift(&mut self, to: ActiveSection)
        requires
            old(self).wf(),
        ensures
            final(self).wf(),
            final(self)@ == old(self)@.shifted(to),
    {
        let from = self.active_selection;
        if to == from {
            return;
        }
        let len = self.board.len(from.to_status());
        if len == 0 {
            return;
        }
        let _ = self.board.move_task(from.to_status(), self.current_selection_idx, to.to_status());
        if self.current_selection_idx > 0 && self.current_selection_idx >= len - 1 {
            self.current_selection_idx = self.current_selection_idx - 1;
        }
    }

    /// Moves the selected task to the next column (none after Done).
    pub fn promote(&mut self)
        requires
            old(self).wf(),
        ensures
            final(self).wf(),
            final(self)@ == old(self)@.promoted(),
    {
        let to = self.active_selection.next();
        self.shift(to);
    }

    /// Moves the selected task to the previous column (none before Backlog).
    pub fn demote(&mut self)
        requires
            old(self).wf(),
        ensures
            final(self).wf(),
            final(self)@ == old(self)@.demoted(),
    {
        let to = self.active_selection.prev();
        self.shift(to);
    }

    /// Deletes the selected task.
    pub fn delete_selected(&mut self)
        requires
            old(self).wf(),
        ensures
            final(self).wf(),
            final(self)@ == old(self)@.deleted(),
    {
        let c = self.active_selection.to_status();
        if self.board.len(c) == 0 {
            return;
        }
        let _ = self.board.remove(c, self.current_selection_idx);
        if self.current_selection_idx > 0 {
            self.current_selection_idx = self.current_selection_idx - 1;
        }
    }

    /// Enters edit mode with an empty buffer.
    pub fn start_edit(&mut self)
        requires
            old(self).wf(),
        ensures
            final(self).wf(),
            final(self)@ == old(self)@.editing(),
    {
        self.app_state = AppState::Edit;
        self.current_message = String::new();
    }

    /// Appends a character to the edit buffer.
    pub fn type_char(&mut self, ch: char)
        requires
            old(self).wf(),
        ensures
            final(self).wf(),
            final(self)@ == old(self)@.typed(ch),
    {
        self.current_message.push(ch);
    }

    /// Removes the last character of the edit buffer, if any.
    pub fn backspace(&mut self)
        requires
            old(self).wf(),
        ensures
            final(self).wf(),
            final(self)@ == old(self)@.backspaced(),
    {
        let _ = self.current_message.pop();
    }

    /// Leaves edit mode, discarding the buffer.
    pub fn cancel_edit(&mut self)
        requires
            old(self).wf(),
        ensures
            final(self).wf(),
            final(self)@ == old(self)@.escaped(),
    {
        self.app_state = AppState::Manage;
        self.current_message = String::new();
    }

    /// Adds the edit buffer as a new task at the end of the active column, empties
    /// the buffer and leaves edit mode. An empty buffer gives a task with no text.
    pub fn commit_edit(&mut self)
        requires
            old(self).wf(),
        ensures
            final(self).wf(),
            final(self)@ == old(self)@.committed(),
    {
        let mut text = String::new();
        core::mem::swap(&mut text, &mut self.current_message);
        let c = self.active_selection.to_status();
        self.board.append(c, text);
        self.app_state = AppState::Manage;
    }

    /// Handles one key: see `AppModel::step` for the new state, and `AppModel::quits`
    /// for when the caller is told to save and stop.
    pub fn handle_key(&mut self, key: Key) -> (r: Action)
        requires
            old(self).wf(),
        ensures
            final(self).wf(),
            final(self)@ == old(self)@.step(key),
            r == (if old(self)@.quits(key) {
                Action::Quit
            } else {
                Action::Continue
            }),
    {
        match self.app_state {
            AppState::Manage => match key {
                Key::Up => self.move_up(),
                Key::Down => self.move_down(),
                Key::Left => self.move_left(),
                Key::Right => self.move_right(),
                Key::Char(c) => {
                    if c == 'q' {
                        return Action::Quit;
                    } else if c == 'i' {
                        self.start_edit();
                    } else if c == 'k' {
                        self.promote();
                    } else if c == 'j' {
                        self.demote();
                    }
                },
                Key::Delete => self.delete_selected(),
                _ => {},
            },
            AppState::Edit => match key {
                Key::Char(c) => self.type_char(c),
                Key::Backspace => self.backspace(),
                Key::Esc => self.cancel_edit(),
                Key::Enter => self.commit_edit(),
                _ => {},
            },
        }
        Action::Continue
    }
}

} // verus!
