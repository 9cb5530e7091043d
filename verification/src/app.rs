//! The root of the state tree: the tabs, which surface is shown, the
//! overlays that take keystrokes, the command history, and the catalog.
use vstd::prelude::*;

use crate::frame::DataFrame;
use crate::go_to_line::GoToLineState;
use crate::input::ListSelection;
use crate::palette::PaletteState;
use crate::pane::{PaneState, TableType};
use crate::schema_view::SchemaViewState;
use crate::sql::Catalog;
use crate::theme::{Theme, ThemeSelectorState};

verus! {

/// Which surface fills the screen: the tabs, or the schema browser.
#[derive(Debug, Clone, Copy, PartialEq, Eq, Structural)]
pub enum Content {
    Tabulars,
    Schema,
}

/// The tab side panel: a selection over the open tabs.
#[derive(Debug, Clone, Copy, PartialEq, Eq, Structural)]
pub struct SidePanelState {
    pub list: ListSelection,
}

/// Which part of the interface takes the next keystroke, in priority order.
#[derive(Debug, Clone, Copy, PartialEq, Eq, Structural)]
pub enum KeyContext {
    Error,
    ThemeSelector,
    Palette,
    GoToLine,
    Modal,
    Schema,
    Tabular,
}

/// The application state.
#[derive(Debug, PartialEq)]
pub struct App {
    pub tabs: Vec<PaneState>,
    pub selected_tab: usize,
    pub content: Content,
    pub schema_view: SchemaViewState,
    pub palette: Option<PaletteState>,
    pub theme_selector: Option<ThemeSelectorState>,
    pub go_to_line: Option<GoToLineState>,
    pub side_panel: Option<SidePanelState>,
    pub history: Vec<String>,
    pub error: Option<String>,
    pub borders: bool,
    pub running: bool,
    pub catalog: Catalog,
    pub theme: Theme,
}

impl App {
    /// The selected tab stays in range while any tab is open, every tab and
    /// every overlay stays well formed, and the catalog's names stay unique.
    pub open spec fn wf(&self) -> bool {
        &&& self.tabs@.len() > 0 ==> self.selected_tab < self.tabs@.len()
        &&& self.tabs@.len() == 0 ==> self.selected_tab == 0
        &&& forall|i: int| 0 <= i < self.tabs@.len() ==> (#[trigger] self.tabs@[i]).wf()
        &&& self.catalog.wf()
        &&& self.palette matches Some(p) ==> p.wf()
        &&& self.theme_selector matches Some(t) ==> t.wf()
        &&& self.go_to_line matches Some(g) ==> g.wf()
    }

    /// A fresh session: one tab over an empty frame, running, with an empty
    /// catalog.
    pub fn new() -> (r: App)
        ensures
            r.wf(),
            r.tabs@.len() == 1,
            r.tabs@[0].table.frame@.height == 0,
            r.tabs@[0].table_type matches TableType::Query(q) && q@ == Seq::<char>::empty(),
            r.selected_tab == 0,
            r.content == Content::Tabulars,
            r.palette is None,
            r.theme_selector is None,
            r.go_to_line is None,
            r.side_panel is None,
            r.history@.len() == 0,
            r.error is None,
            r.running == true,
            r.catalog.model().len() == 0,
    {
        let mut tabs: Vec<PaneState> = Vec::new();
        tabs.push(PaneState::new(DataFrame::empty(), TableType::Query(String::new())));
        App {
            tabs,
            selected_tab: 0,
            content: Content::Tabulars,
            schema_view: SchemaViewState::new(),
            palette: None,
            theme_selector: None,
            go_to_line: None,
            side_panel: None,
            history: Vec::new(),
            error: None,
            borders: true,
            running: true,
            catalog: Catalog::new(),
            theme: Theme::BuiltinTangoDark,
        }
    }

    /// A session over prepared tabs and a prepared catalog.
    pub fn with_tabs(tabs: Vec<PaneState>, catalog: Catalog) -> (r: App)
        requires
            catalog.wf(),
            forall|i: int| 0 <= i < tabs@.len() ==> (#[trigger] tabs@[i]).wf(),
        ensures
            r.wf(),
            r.tabs == tabs,
            r.catalog == catalog,
            r.selected_tab == 0,
            r.running == true,
            r.error is None,
            r.palette is None,
            r.theme_selector is None,
            r.content == Content::Tabulars,
            r.history@.len() == 0,
    {
        App {
            tabs,
            selected_tab: 0,
            content: Content::Tabulars,
            schema_view: SchemaViewState::new(),
            palette: None,
            theme_selector: None,
            go_to_line: None,
            side_panel: None,
            history: Vec::new(),
            error: None,
            borders: true,
            running: true,
            catalog,
            theme: Theme::BuiltinTangoDark,
        }
    }

    /// Whether the application is still running.
    pub fn is_running(&self) -> (r: bool)
        ensures
            r == self.running,
    {
        self.running
    }

    /// Stores an error line; the next keystroke dismisses it.
    pub fn set_error(&mut self, message: String)
        ensures
            *final(self) == (App { error: Some(message), ..*old(self) }),
    {
        self.error = Some(message);
    }

    /// Which part of the interface takes the next keystroke: an error banner
    /// first, then the theme selector, the palette, the go-to-line popup,
    /// the selected tab's overlay, and last the schema or the tabs.
    pub fn key_context(&self) -> (r: KeyContext)
        ensures
            r == (if self.error is Some {
                KeyContext::Error
            } else if self.theme_selector is Some {
                KeyContext::ThemeSelector
            } else if self.palette is Some {
                KeyContext::Palette
            } else if self.go_to_line is Some {
                KeyContext::GoToLine
            } else if self.tabs@.len() > 0 && self.selected_tab < self.tabs@.len() && !(self.tabs@[
                self.selected_tab as int
            ].modal is Hidden) {
                KeyContext::Modal
            } else if self.content == Content::Schema {
                KeyContext::Schema
            } else {
                KeyContext::Tabular
            }),
    {
        if self.error.is_some() {
            KeyContext::Error
        } else if self.theme_selector.is_some() {
            KeyContext::ThemeSelector
        } else if self.palette.is_some() {
            KeyContext::Palette
        } else if self.go_to_line.is_some() {
            KeyContext::GoToLine
        } else if self.tabs.len() > 0 && self.selected_tab < self.tabs.len() && !matches!(
            self.tabs[self.selected_tab].modal,
            crate::pane::Modal::Hidden,
        ) {
            KeyContext::Modal
        } else if matches!(self.content, Content::Schema) {
            KeyContext::Schema
        } else {
            KeyContext::Tabular
        }
    }
}

} // verus!
