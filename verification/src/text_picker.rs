//! A one-line text prompt: the editing state, and the widget shell that the
//! renderer outside dresses with a title, a bottom line, and a hint.
use vstd::prelude::*;

use crate::input::InputState;

verus! {

/// The state of a text prompt: its input editor.
#[derive(Debug, Clone, PartialEq, Default)]
pub struct TextPickerState {
    pub input: InputState,
}

impl TextPickerState {
    /// The characters typed so far.
    pub closed spec fn typed(&self) -> Seq<char> {
        self.input.text()
    }

    /// The input editor stays well formed.
    pub closed spec fn wf(&self) -> bool {
        self.input.wf()
    }

    /// An empty prompt.
    pub fn new() -> (r: TextPickerState)
        ensures
            r.wf(),
            r.typed().len() == 0,
    {
        TextPickerState { input: InputState::new() }
    }

    /// The input editor.
    pub fn input(&self) -> (r: &InputState)
        ensures
            r == &self.input,
    {
        &self.input
    }

    /// The input editor, for editing.
    pub fn input_mut(&mut self) -> (r: &mut InputState)
        ensures
            *r == old(self).input,
            final(self).input == *final(r),
    {
        &mut self.input
    }
}

/// The widget shell of the prompt: what the renderer shows under the input.
#[derive(Debug, Clone, Copy, PartialEq, Eq, Default)]
pub struct TextPicker<'a> {
    pub hint: &'a str,
}

impl<'a> TextPicker<'a> {
    /// The same widget with a hint below the input.
    pub fn hint(self, hint: &'a str) -> (r: Self)
        ensures
            r.hint@ == hint@,
    {
        TextPicker { hint }
    }
}

} // verus!
