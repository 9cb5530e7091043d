//! The color themes the application knows, and the selector overlay that
//! picks one with a rollback on dismissal.
use vstd::prelude::*;

use crate::input::{InputState, KeyStroke, ListSelection};

verus! {

/// The tango palette on a dark background; the renderer outside holds the
/// colors themselves.
#[derive(Debug, Default, Clone, Copy, Eq, PartialEq, Structural)]
pub struct BuiltinTangoDark;

impl BuiltinTangoDark {
    /// The identifier stored in the configuration.
    pub fn id(&self) -> (r: &str)
        ensures
            r@ == "builtin_tango_dark"@,
    {
        "builtin_tango_dark"
    }

    /// The name shown in the selector.
    pub fn title(&self) -> (r: &str)
        ensures
            r@ == "BuiltinTangoDark"@,
    {
        "BuiltinTangoDark"
    }
}

/// The flexoki palette on a dark background; the renderer outside holds the
/// colors themselves.
#[derive(Debug, Default, Clone, Copy, Eq, PartialEq, Structural)]
pub struct FlexokiDark;

impl FlexokiDark {
    /// The identifier stored in the configuration.
    pub fn id(&self) -> (r: &str)
        ensures
            r@ == "flexoki_dark"@,
    {
        "flexoki_dark"
    }

    /// The name shown in the selector.
    pub fn title(&self) -> (r: &str)
        ensures
            r@ == "FlexokiDark"@,
    {
        "FlexokiDark"
    }
}

/// One of the built-in themes.
#[derive(Debug, Clone, Copy, PartialEq, Eq, Structural)]
pub enum Theme {
    BuiltinTangoDark,
    FlexokiDark,
}

impl Theme {
    /// The identifier stored in the configuration.
    pub fn id(&self) -> (r: &str)
        ensures
            r@ == (match self {
                Theme::BuiltinTangoDark => "builtin_tango_dark"@,
                Theme::FlexokiDark => "flexoki_dark"@,
            }),
    {
        match self {
            Theme::BuiltinTangoDark => "builtin_tango_dark",
            Theme::FlexokiDark => "flexoki_dark",
        }
    }

    /// Every theme, in selector order.
    pub fn all() -> (r: Vec<Theme>)
        ensures
            r@.len() == 2,
            r@[0] == Theme::BuiltinTangoDark,
            r@[1] == Theme::FlexokiDark,
    {
        let mut v: Vec<Theme> = Vec::new();
        v.push(Theme::BuiltinTangoDark);
        v.push(Theme::FlexokiDark);
        v
    }
}

impl Default for Theme {
    /// The theme the application starts with.
    fn default() -> (r: Self)
        ensures
            r == Theme::BuiltinTangoDark,
    {
        Theme::BuiltinTangoDark
    }
}

/// The theme selector overlay: a search input, the highlighted row, and the
/// theme to restore when the selector is dismissed.
#[derive(Debug, Clone, PartialEq)]
pub struct ThemeSelectorState {
    pub input: InputState,
    pub list: ListSelection,
    pub rollback: Theme,
}

impl ThemeSelectorState {
    /// The theme to restore on rollback.
    pub open spec fn rollback_theme(&self) -> Theme {
        self.rollback
    }

    /// The input editor stays well formed.
    pub open spec fn wf(&self) -> bool {
        self.input.wf()
    }

    /// A fresh selector remembering the active theme.
    pub fn new(rollback: Theme) -> (r: ThemeSelectorState)
        ensures
            r.wf(),
            r.rollback_theme() == rollback,
            r.list.selected is None,
            r.input.text().len() == 0,
    {
        ThemeSelectorState { input: InputState::new(), list: ListSelection::new(), rollback }
    }

    /// Applies one keystroke to the search input.
    pub fn handle(&mut self, event: KeyStroke)
        requires
            old(self).wf(),
        ensures
            final(self).wf(),
            final(self).rollback_theme() == old(self).rollback_theme(),
            final(self).list == old(self).list,
            crate::input::key_edit(old(self).input, event, final(self).input),
    {
        self.input.handle(event);
    }

    /// Takes the selector apart, yielding the theme to restore.
    pub fn into_rollback_theme(self) -> (r: Theme)
        ensures
            r == self.rollback_theme(),
    {
        self.rollback
    }
}

} // verus!
