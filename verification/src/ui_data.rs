use vstd::prelude::*;
use vstd::string::*;
use crate::text::{insert_char, remove_char};

verus! {

/// A key of the keyboard, as far as the interface tells keys apart.
#[derive(Clone, Copy, Debug, PartialEq, Eq, Structural)]
pub enum Key {
    Char(char),
    Enter,
    Left,
    Right,
    Up,
    Down,
    Esc,
    Backspace,
    /// Any other key.
    Other,
}

/// What a key press means to the interface.
#[derive(Clone, Copy, Debug, PartialEq, Eq, Structural)]
pub enum UserInput {
    /// Go to the next field of a form.
    FocusNext,
    /// Go to the previous field of a form.
    FocusPrev,
    /// Move the selection of a list down by one row, or the caret of a field right by one
    /// char.
    CursorNext,
    /// Move the selection of a list up by one row, or the caret of a field left by one char.
    CursorPrev,
    Char(char),
    Submit,
    Cancel,
    Backspace,
    /// A key without a meaning.
    Noop,
}

/// What a screen asks of the dispatcher.
#[derive(Clone, Copy, Debug, PartialEq, Eq, Structural)]
pub enum UITransition {
    /// End the program.
    Terminate,
    /// Go back to the screen that led here.
    PopScreen,
    /// Show the purchases of the log of that id.
    PushLogDetail(usize),
    /// Open the form for a new purchase in the log of that id.
    PushPurchaseForm(usize),
}

/// Whether the keys edit a text or move through a list.
#[derive(Clone, Copy, Debug, PartialEq, Eq, Structural)]
pub enum InputMode {
    Editing,
    Viewing,
}

/// One text field of a form: its text and the caret, counted in chars from the start of
/// the text.
#[derive(Debug, PartialEq, Eq)]
pub struct InputData {
    pub input: String,
    pub character_pos: usize,
}

/// A text field as a mathematical value.
pub struct InputDataView {
    pub text: Seq<char>,
    pub caret: nat,
}

impl InputDataView {
    /// An empty field with the caret at its start.
    pub open spec fn empty() -> InputDataView {
        InputDataView { text: Seq::empty(), caret: 0 }
    }

    /// The position `pos` where it lies in the text, else the end of the text.
    pub open spec fn clamped(self, pos: int) -> nat {
        if pos < 0 {
            0
        } else if pos <= self.text.len() {
            pos as nat
        } else {
            self.text.len()
        }
    }

    /// The field with the caret one char to the left, and no further than the start.
    pub open spec fn moved_left(self) -> InputDataView {
        InputDataView { text: self.text, caret: self.clamped(self.caret as int - 1) }
    }

    /// The field with the caret one char to the right, and no further than the end.
    pub open spec fn moved_right(self) -> InputDataView {
        InputDataView { text: self.text, caret: self.clamped(self.caret as int + 1) }
    }

    /// The field with `ch` put in at the caret, and the caret behind it.
    pub open spec fn with_char(self, ch: char) -> InputDataView {
        let at = self.clamped(self.caret as int);
        InputDataView { text: self.text.insert(at as int, ch), caret: at + 1 }
    }

    /// The field without the char to the left of the caret, and the caret in its place.
    /// Nothing is taken out where the caret stands at the start or outside the text.
    pub open spec fn without_char(self) -> InputDataView {
        if 0 < self.caret <= self.text.len() {
            InputDataView {
                text: self.text.remove(self.caret - 1),
                caret: (self.caret - 1) as nat,
            }
        } else {
            self.moved_left()
        }
    }

    /// Whether the caret lies in the text or at its end.
    pub open spec fn wf(self) -> bool {
        self.caret <= self.text.len()
    }
}

/// The caret of a field never leaves its text: after each edit it stands in the text or at
/// its end, wherever it stood before.
pub proof fn lemma_edits_keep_the_caret_in_the_text(field: InputDataView, ch: char)
    ensures
        field.moved_left().wf(),
        field.moved_right().wf(),
        field.with_char(ch).wf(),
        field.without_char().wf(),
{
}

/// Taking out the char that was just put in gives back the text as it was.
pub proof fn lemma_backspace_undoes_a_char(field: InputDataView, ch: char)
    ensures
        field.with_char(ch).without_char().text == field.text,
{
}

impl View for InputData {
    type V = InputDataView;

    open spec fn view(&self) -> InputDataView {
        InputDataView { text: self.input@, caret: self.character_pos as nat }
    }
}

impl Clone for InputData {
    fn clone(&self) -> (copy: Self)
        ensures
            copy == *self,
    {
        InputData { input: self.input.clone(), character_pos: self.character_pos }
    }
}

impl InputData {
    /// An empty field with the caret at its start.
    pub fn new() -> (field: Self)
        ensures
            field@ == InputDataView::empty(),
    {
        InputData { input: String::new(), character_pos: 0 }
    }

    /// The position where it lies in the text, else the end of the text.
    pub fn clamp_cursor(&self, new_cursor_pos: usize) -> (pos: usize)
        ensures
            pos == self@.clamped(new_cursor_pos as int),
            self@.text.len() <= usize::MAX,
    {
        let len: usize = self.input.as_str().unicode_len();
        if new_cursor_pos > len {
            len
        } else {
            new_cursor_pos
        }
    }

    /// Moves the caret one char to the left, and no further than the start of the text.
    pub fn move_cursor_left(&mut self)
        ensures
            final(self)@ == old(self)@.moved_left(),
    {
        let cursor_moved_left: usize = self.character_pos.saturating_sub(1);
        self.character_pos = self.clamp_cursor(cursor_moved_left);
    }

    /// Moves the caret one char to the right, and no further than the end of the text.
    pub fn move_cursor_right(&mut self)
        ensures
            final(self)@ == old(self)@.moved_right(),
    {
        let cursor_moved_right: usize = self.character_pos.saturating_add(1);
        self.character_pos = self.clamp_cursor(cursor_moved_right);
    }

    /// Puts a char in at the caret and moves the caret behind it.
    pub fn enter_char(&mut self, new_char: char)
        ensures
            final(self)@ == old(self)@.with_char(new_char),
    {
        self.input = insert_char(&self.input, self.character_pos, new_char);
        self.move_cursor_right();
    }

    /// Takes out the char to the left of the caret and moves the caret into its place.
    pub fn delete_char(&mut self)
        ensures
            final(self)@ == old(self)@.without_char(),
    {
        if self.character_pos != 0 {
            self.input = remove_char(&self.input, self.character_pos - 1);
        }
        self.move_cursor_left();
    }

    /// Puts the caret at the start of the text.
    pub fn reset_cursor(&mut self)
        ensures
            final(self)@ == (InputDataView { text: old(self)@.text, caret: 0 }),
    {
        self.character_pos = 0;
    }
}

/// The screen that is shown, with what it remembers between two key presses.
#[derive(Debug, PartialEq, Eq)]
pub enum UIState {
    /// The list of all logs; `cursor` is the selected row, if one is selected.
    Overview { cursor: Option<usize> },
    /// The purchases of one log; `cursor` is the selected row, if one is selected.
    LogDetail { log_id: usize, cursor: Option<usize> },
    /// The form for a new purchase: the fields for its name and its cost and the place of
    /// the submit button, and which of the three is active.
    PurchaseForm { log_id: usize, fields: Vec<InputData>, active_field_index: usize },
    /// The program has ended.
    Terminated,
}

/// A screen as a mathematical value.
pub enum UIStateView {
    Overview { cursor: Option<usize> },
    LogDetail { log_id: usize, cursor: Option<usize> },
    PurchaseForm { log_id: usize, fields: Seq<InputDataView>, active_field_index: usize },
    Terminated,
}

/// The fields of a list, each as a mathematical value, in the same order.
pub open spec fn field_views(fields: Seq<InputData>) -> Seq<InputDataView> {
    fields.map_values(|f: InputData| f@)
}

/// Whether a form has its three fields and one of them is active.
pub open spec fn form_wf(fields: Seq<InputDataView>, active_field_index: usize) -> bool {
    fields.len() == 3 && active_field_index <= 2
}

impl UIStateView {
    /// The form for a new purchase in the log of that id, as it is when it opens: three
    /// empty fields, the first of them active.
    pub open spec fn empty_form(log_id: usize) -> UIStateView {
        UIStateView::PurchaseForm {
            log_id,
            fields: seq![InputDataView::empty(), InputDataView::empty(), InputDataView::empty()],
            active_field_index: 0,
        }
    }

    /// Whether the screen, if it is a form, has its three fields and one of them active.
    pub open spec fn wf(self) -> bool {
        match self {
            UIStateView::PurchaseForm { fields, active_field_index, .. } => form_wf(
                fields,
                active_field_index,
            ),
            _ => true,
        }
    }

    /// Whether the screen is as it is when it opens: no row selected, or an empty form.
    pub open spec fn is_fresh(self) -> bool {
        match self {
            UIStateView::Overview { cursor } => cursor is None,
            UIStateView::LogDetail { cursor, .. } => cursor is None,
            UIStateView::PurchaseForm { log_id, .. } => self == UIStateView::empty_form(log_id),
            UIStateView::Terminated => true,
        }
    }
}

impl View for UIState {
    type V = UIStateView;

    open spec fn view(&self) -> UIStateView {
        match self {
            UIState::Overview { cursor } => UIStateView::Overview { cursor: *cursor },
            UIState::LogDetail { log_id, cursor } => UIStateView::LogDetail {
                log_id: *log_id,
                cursor: *cursor,
            },
            UIState::PurchaseForm { log_id, fields, active_field_index } => UIStateView::PurchaseForm {
                log_id: *log_id,
                fields: field_views(fields@),
                active_field_index: *active_field_index,
            },
            UIState::Terminated => UIStateView::Terminated,
        }
    }
}

} // verus!
