//! The input line of the terminal.

use vstd::prelude::*;
use vstd::string::*;
use crate::dialogue::Key;
use crate::strings::lowercase;
use crate::vector::Point2D;

verus! {

/// What the input line shows behind the typed text.
pub const INPUT_CURSOR: &'static str = "_";

/// What stands before the input line.
pub const TERMINAL_INFO: &'static str = "<admin-001> $ ";

/// The state of a [`TerminalInput`] as contracts see it.
pub struct TerminalInputView {
    /// The typed text.
    pub text: Seq<char>,
    /// The key that was pressed last, if any.
    pub current_command: Option<Key>,
}

/// The text that the user types into the terminal.
pub struct TerminalInput {
    text: String,
    current_command: Option<Key>,
}

impl View for TerminalInput {
    type V = TerminalInputView;

    closed spec fn view(&self) -> TerminalInputView {
        TerminalInputView { text: self.text@, current_command: self.current_command }
    }
}

impl TerminalInput {
    /// An empty input line.
    pub fn new() -> (r: Self)
        ensures
            r@.text == Seq::<char>::empty(),
            r@.current_command is None,
    {
        Self { text: String::new(), current_command: None }
    }

    /// The key that was pressed last, if any.
    pub fn current_command(&self) -> (r: Option<Key>)
        ensures
            r == self@.current_command,
    {
        self.current_command
    }

    /// Notes the key that was pressed last.
    pub fn set_current_command(&mut self, command: Option<Key>)
        ensures
            final(self)@ == (TerminalInputView { current_command: command, ..old(self)@ }),
    {
        self.current_command = command;
    }

    /// Appends `value`, in lower case, to the typed text.
    pub fn _add(&mut self, value: String)
        ensures
            final(self)@ == (TerminalInputView {
                text: old(self)@.text + lowercase(value@),
                ..old(self)@
            }),
    {
        let lowered = value.as_str().to_lowercase();
        self.push_text(lowered.as_str());
    }

    /// Appends `value` as it is to the typed text.
    pub fn push_text(&mut self, value: &str)
        ensures
            final(self)@ == (TerminalInputView { text: old(self)@.text + value@, ..old(self)@ }),
    {
        self.text.append(value);
    }

    /// Drops the typed text.
    pub fn _reset(&mut self)
        ensures
            final(self)@ == (TerminalInputView { text: Seq::<char>::empty(), ..old(self)@ }),
    {
        self.text.clear()
    }

    /// Drops the last character of the typed text, if there is one.
    pub fn _backspace(&mut self)
        ensures
            final(self)@ == if old(self)@.text.len() > 0 {
                TerminalInputView { text: old(self)@.text.drop_last(), ..old(self)@ }
            } else {
                old(self)@
            },
    {
        if !self.text.as_str().is_empty() {
            let _ = self.text.pop();
        }
    }

    /// The input line to show: where it stands, and the typed text with the
    /// cursor behind it.
    pub fn build(&self) -> (r: (Point2D, String))
        ensures
            r.0 == (Point2D { x: 130, y: 530 }),
            r.1@ == self@.text + INPUT_CURSOR@,
    {
        let pos = Point2D::new(130, 530);
        let mut user_input_body = self.text.clone();
        user_input_body.append(INPUT_CURSOR);
        (pos, user_input_body)
    }

    /// The prompt to show before the input line, and where it stands.
    pub fn draw_terminal_info(&self) -> (r: (Point2D, String))
        ensures
            r.0 == (Point2D { x: 20, y: 530 }),
            r.1@ == TERMINAL_INFO@,
    {
        let pos = Point2D::new(20, 530);
        (pos, String::from_str(TERMINAL_INFO))
    }

    /// The typed text does not change with time.
    pub fn update(&mut self)
        ensures
            *final(self) == *old(self),
    {
    }
}

} // verus!
