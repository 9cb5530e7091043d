//! The command palette: a one-line command input plus a selection over the
//! command history shown above it.
use vstd::prelude::*;

use crate::input::{InputState, ListSelection};

verus! {

/// The palette's state: the input line and the history selection.
#[derive(Debug, Clone, PartialEq)]
pub struct PaletteState {
    pub input: InputState,
    pub list: ListSelection,
}

impl PaletteState {
    /// The input editor stays well formed.
    pub open spec fn wf(&self) -> bool {
        self.input.wf()
    }

    /// A palette prefilled with the text, the cursor at its end, nothing
    /// selected in the history.
    pub fn with_text(text: String) -> (r: PaletteState)
        ensures
            r.wf(),
            r.input.text() == text@,
            r.list.selected is None,
    {
        PaletteState {
            input: InputState::new().with_value(text),
            list: ListSelection::new(),
        }
    }

    /// Replaces the input with the given command, the cursor at its end.
    pub fn set_input(&mut self, cmd: String)
        ensures
            final(self).wf(),
            final(self).input.text() == cmd@,
            final(self).list == old(self).list,
    {
        self.input = InputState::new().with_value(cmd);
    }
}

} // verus!
