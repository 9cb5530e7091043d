//! The go-to-line popup: a numeric input plus the row to return to when the
//! popup is dismissed.
use vstd::prelude::*;

use crate::input::{InputState, InputType, KeyStroke};
use crate::text::{dec_digits, parse_usize_spec};

verus! {

/// The state of the go-to-line popup.
#[derive(Debug, Clone, PartialEq)]
pub struct GoToLineState {
    rollback: usize,
    input: InputState,
}

impl GoToLineState {
    /// The row selected before the popup opened.
    pub closed spec fn rollback_row(&self) -> nat {
        self.rollback as nat
    }

    /// The characters typed so far.
    pub closed spec fn typed(&self) -> Seq<char> {
        self.input.text()
    }

    /// The input editor itself.
    pub closed spec fn input_state(&self) -> InputState {
        self.input
    }

    /// The input editor stays well formed.
    pub closed spec fn wf(&self) -> bool {
        self.input.wf()
    }

    /// A popup with an empty numeric input.
    pub fn new(rollback: usize) -> (r: GoToLineState)
        ensures
            r.wf(),
            r.rollback_row() == rollback,
            r.typed().len() == 0,
            r.input_state().kind() == InputType::Numeric,
    {
        GoToLineState {
            input: InputState::new().with_input_type(InputType::Numeric),
            rollback,
        }
    }

    /// The popup prefilled with a row number; the prefilled editor takes any
    /// character again.
    pub fn with_value(self, value: usize) -> (r: GoToLineState)
        ensures
            r.wf(),
            r.rollback_row() == self.rollback_row(),
            r.typed() == dec_digits(value as nat),
            r.input_state().kind() == InputType::Text,
    {
        GoToLineState {
            rollback: self.rollback,
            input: InputState::new().with_value(crate::text::usize_to_string(value)),
        }
    }

    /// Applies one keystroke to the input.
    pub fn handle(&mut self, event: KeyStroke)
        requires
            old(self).wf(),
        ensures
            final(self).wf(),
            final(self).rollback_row() == old(self).rollback_row(),
            crate::input::key_edit(old(self).input_state(), event, final(self).input_state()),
    {
        self.input.handle(event);
    }

    /// The row to return to on dismissal.
    pub fn rollback(&self) -> (r: usize)
        ensures
            r == self.rollback_row(),
    {
        self.rollback
    }

    /// The typed row number; anything unreadable counts as row one.
    pub fn value(&self) -> (r: usize)
        ensures
            r == (match parse_usize_spec(self.typed()) {
                Some(n) => n as int,
                None => 1int,
            }),
    {
        match crate::text::parse_usize(self.input.value()) {
            Some(n) => n,
            None => 1,
        }
    }
}

} // verus!
