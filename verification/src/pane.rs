//! One tab: a table view over its own frame, the modal overlay above it, and
//! what kind of table it shows.
use vstd::prelude::*;

use crate::errors::AppResult;
use crate::frame::DataFrame;
use crate::input::{InputState, ListSelection};
use crate::sheet::{Scroll, SheetState};

verus! {

/// Where a row index lands after clamping into the frame.
pub open spec fn clamp_row(height: nat, n: int) -> int {
    if height == 0 {
        0
    } else if n < height {
        n
    } else {
        height - 1
    }
}

/// The table view of one tab: its frame, the selected row, the horizontal
/// offset in columns, row expansion, and how many rows the last render
/// showed.
#[derive(Debug, Clone, PartialEq)]
pub struct TableView {
    pub frame: DataFrame,
    pub selected: usize,
    pub offset: usize,
    pub expanded: bool,
    pub rendered_rows: usize,
}

impl TableView {
    /// The selected row stays inside the frame, and the offset inside the
    /// columns.
    pub open spec fn wf(&self) -> bool {
        &&& self.selected == clamp_row(self.frame@.height, self.selected as int)
        &&& self.offset <= self.frame@.columns.len()
    }

    /// A view at the top left of the frame.
    pub fn new(frame: DataFrame) -> (r: TableView)
        ensures
            r.wf(),
            r.frame == frame,
            r.selected == 0,
            r.offset == 0,
            r.expanded == false,
            r.rendered_rows == 0,
    {
        TableView { frame, selected: 0, offset: 0, expanded: false, rendered_rows: 0 }
    }

    /// The frame shown.
    pub fn data_frame(&self) -> (r: &DataFrame)
        ensures
            r == &self.frame,
    {
        &self.frame
    }

    /// The number of rows of the frame shown.
    pub fn height(&self) -> (r: usize)
        ensures
            r == self.frame@.height,
    {
        self.frame.height()
    }

    /// The selected row.
    pub fn selected(&self) -> (r: usize)
        ensures
            r == self.selected,
    {
        self.selected
    }

    /// Replaces the frame; the selected row is clamped into the new range
    /// and the horizontal offset reset.
    pub fn set_data_frame(&mut self, frame: DataFrame)
        ensures
            final(self).frame == frame,
            final(self).selected == clamp_row(frame@.height, old(self).selected as int),
            final(self).offset == 0,
            final(self).expanded == old(self).expanded,
            final(self).rendered_rows == old(self).rendered_rows,
            final(self).wf(),
    {
        let h = frame.height();
        self.frame = frame;
        self.offset = 0;
        if h == 0 {
            self.selected = 0;
        } else if self.selected >= h {
            self.selected = h - 1;
        }
    }

    /// Replaces the frame in place: the selected row and the horizontal
    /// offset are clamped into the new frame, everything else kept.
    pub fn replace_frame(&mut self, frame: DataFrame)
        ensures
            frame@.columns.len() <= usize::MAX,
            final(self).frame == frame,
            final(self).selected == clamp_row(frame@.height, old(self).selected as int),
            final(self).offset == (if old(self).offset <= frame@.columns.len() {
                old(self).offset as int
            } else {
                frame@.columns.len() as int
            }),
            final(self).expanded == old(self).expanded,
            final(self).rendered_rows == old(self).rendered_rows,
            final(self).wf(),
    {
        let h = frame.height();
        let w = frame.width();
        self.frame = frame;
        if h == 0 {
            self.selected = 0;
        } else if self.selected >= h {
            self.selected = h - 1;
        }
        if self.offset > w {
            self.offset = w;
        }
    }

    /// Selects a row, clamped into the frame.
    pub fn select(&mut self, n: usize)
        ensures
            final(self).selected == clamp_row(old(self).frame@.height, n as int),
            *final(self) == (TableView { selected: final(self).selected, ..*old(self) }),
            old(self).wf() ==> final(self).wf(),
    {
        let h = self.frame.height();
        if h == 0 {
            self.selected = 0;
        } else if n >= h {
            self.selected = h - 1;
        } else {
            self.selected = n;
        }
    }

    /// Selects the first row.
    pub fn select_first(&mut self)
        ensures
            final(self).selected == clamp_row(old(self).frame@.height, 0),
            *final(self) == (TableView { selected: final(self).selected, ..*old(self) }),
            old(self).wf() ==> final(self).wf(),
    {
        self.select(0);
    }

    /// Selects the last row.
    pub fn select_last(&mut self)
        ensures
            final(self).selected == clamp_row(
                old(self).frame@.height,
                old(self).frame@.height as int - 1,
            ),
            *final(self) == (TableView { selected: final(self).selected, ..*old(self) }),
            old(self).wf() ==> final(self).wf(),
    {
        let h = self.frame.height();
        if h == 0 {
            self.select(0);
        } else {
            self.select(h - 1);
        }
    }

    /// Moves the selection up by `lines`, stopping at the first row.
    pub fn select_up(&mut self, lines: usize)
        ensures
            final(self).selected == (if lines <= old(self).selected {
                old(self).selected - lines
            } else {
                0int
            }),
            *final(self) == (TableView { selected: final(self).selected, ..*old(self) }),
            old(self).wf() ==> final(self).wf(),
    {
        if lines <= self.selected {
            self.selected = self.selected - lines;
        } else {
            self.selected = 0;
        }
        proof {
            if old(self).wf() {
                assert(final(self).selected == clamp_row(
                    final(self).frame@.height,
                    final(self).selected as int,
                ));
            }
        }
    }

    /// Moves the selection down by `lines`, stopping at the last row.
    pub fn select_down(&mut self, lines: usize)
        ensures
            final(self).selected == clamp_row(
                old(self).frame@.height,
                old(self).selected + lines,
            ),
            *final(self) == (TableView { selected: final(self).selected, ..*old(self) }),
            old(self).wf() ==> final(self).wf(),
    {
        let h = self.frame.height();
        if h == 0 {
            self.selected = 0;
        } else if lines >= h - 1 || self.selected >= h - 1 - lines {
            self.selected = h - 1;
        } else {
            self.selected = self.selected + lines;
        }
    }

    /// One step left.
    pub fn scroll_left(&mut self)
        ensures
            final(self).offset == (if old(self).offset > 0 {
                old(self).offset - 1
            } else {
                0int
            }),
            *final(self) == (TableView { offset: final(self).offset, ..*old(self) }),
            old(self).wf() ==> final(self).wf(),
    {
        if self.offset > 0 {
            self.offset = self.offset - 1;
        }
    }

    /// One step right, stopping at the last column.
    pub fn scroll_right(&mut self)
        ensures
            final(self).offset == (if old(self).offset < old(self).frame@.columns.len() {
                old(self).offset + 1
            } else {
                old(self).offset as int
            }),
            *final(self) == (TableView { offset: final(self).offset, ..*old(self) }),
            old(self).wf() ==> final(self).wf(),
    {
        if self.offset < self.frame.width() {
            self.offset = self.offset + 1;
        }
    }

    /// One column left.
    pub fn scroll_left_column(&mut self)
        ensures
            final(self).offset == (if old(self).offset > 0 {
                old(self).offset - 1
            } else {
                0int
            }),
            *final(self) == (TableView { offset: final(self).offset, ..*old(self) }),
            old(self).wf() ==> final(self).wf(),
    {
        self.scroll_left();
    }

    /// One column right, stopping at the last column.
    pub fn scroll_right_column(&mut self)
        ensures
            final(self).offset == (if old(self).offset < old(self).frame@.columns.len() {
                old(self).offset + 1
            } else {
                old(self).offset as int
            }),
            *final(self) == (TableView { offset: final(self).offset, ..*old(self) }),
            old(self).wf() ==> final(self).wf(),
    {
        self.scroll_right();
    }

    /// Back to the first column.
    pub fn scroll_start(&mut self)
        ensures
            final(self).offset == 0,
            *final(self) == (TableView { offset: final(self).offset, ..*old(self) }),
            old(self).wf() ==> final(self).wf(),
    {
        self.offset = 0;
    }

    /// To the far end of the columns.
    pub fn scroll_end(&mut self)
        ensures
            final(self).offset == old(self).frame@.columns.len(),
            *final(self) == (TableView { offset: final(self).offset, ..*old(self) }),
            old(self).wf() ==> final(self).wf(),
    {
        self.offset = self.frame.width();
    }

    /// Flips row expansion.
    pub fn toggle_expansion(&mut self) -> (r: AppResult<()>)
        ensures
            final(self).expanded == !old(self).expanded,
            *final(self) == (TableView { expanded: final(self).expanded, ..*old(self) }),
            old(self).wf() ==> final(self).wf(),
            r is Ok,
    {
        self.expanded = !self.expanded;
        Ok(())
    }

    /// How many rows the last render showed.
    pub fn rendered_rows(&self) -> (r: usize)
        ensures
            r == self.rendered_rows,
    {
        self.rendered_rows
    }

    /// The renderer outside reports how many rows it showed.
    pub fn set_rendered_rows(&mut self, rows: usize)
        ensures
            final(self).rendered_rows == rows,
            *final(self) == (TableView { rendered_rows: rows, ..*old(self) }),
            old(self).wf() ==> final(self).wf(),
    {
        self.rendered_rows = rows;
    }
}

/// How a search matches: by subsequence or by substring.
#[derive(Debug, Clone, Copy, PartialEq, Eq, Structural)]
pub enum SearchKind {
    Fuzzy,
    Exact,
}

/// The search overlay: the pattern being typed, the frame to restore on
/// rollback, and the matcher's most recent result, handed in from outside.
#[derive(Debug, Clone, PartialEq)]
pub struct SearchBarState {
    pub kind: SearchKind,
    pub input: InputState,
    pub rollback_frame: DataFrame,
    pub latest: Option<DataFrame>,
}

impl SearchBarState {
    /// A fuzzy search over the given frame.
    pub fn fuzzy(frame: DataFrame) -> (r: SearchBarState)
        ensures
            r.kind == SearchKind::Fuzzy,
            r.input.wf(),
            r.input.text().len() == 0,
            r.rollback_frame == frame,
            r.latest is None,
    {
        SearchBarState {
            kind: SearchKind::Fuzzy,
            input: InputState::new(),
            rollback_frame: frame,
            latest: None,
        }
    }

    /// An exact search over the given frame.
    pub fn exact(frame: DataFrame) -> (r: SearchBarState)
        ensures
            r.kind == SearchKind::Exact,
            r.input.wf(),
            r.input.text().len() == 0,
            r.rollback_frame == frame,
            r.latest is None,
    {
        SearchBarState {
            kind: SearchKind::Exact,
            input: InputState::new(),
            rollback_frame: frame,
            latest: None,
        }
    }

    /// The matcher outside publishes its most recent result.
    pub fn push_result(&mut self, frame: DataFrame)
        ensures
            *final(self) == (SearchBarState { latest: Some(frame), ..*old(self) }),
    {
        self.latest = Some(frame);
    }

    /// The most recent result, if any came in.
    pub fn latest(&self) -> (r: Option<&DataFrame>)
        ensures
            match r {
                Some(df) => self.latest == Some(*df),
                None => self.latest is None,
            },
    {
        match &self.latest {
            Some(df) => Some(df),
            None => None,
        }
    }

    /// Takes the search apart, yielding the frame shown before it opened.
    pub fn into_rollback_df(self) -> (r: DataFrame)
        ensures
            r == self.rollback_frame,
    {
        self.rollback_frame
    }
}

/// The frame information overlay: how far its field list is scrolled.
#[derive(Debug, Clone, Copy, PartialEq, Eq, Structural, Default)]
pub struct DataFrameInfoState {
    pub scroll: Scroll,
}

impl DataFrameInfoState {
    pub fn new() -> (r: DataFrameInfoState)
        ensures
            r.scroll.position == 0,
    {
        DataFrameInfoState { scroll: Scroll::new() }
    }
}

/// The scatter plot overlay: the two axes, the grouping columns, and one
/// partition of the frame per group. The geometry is drawn outside.
#[derive(Debug, Clone, PartialEq)]
pub struct ScatterPlotState {
    pub x: String,
    pub y: String,
    pub group_by: Vec<String>,
    pub partitions: Vec<DataFrame>,
}

impl ScatterPlotState {
    pub fn new(x: String, y: String, group_by: Vec<String>, partitions: Vec<DataFrame>) -> (r:
        ScatterPlotState)
        ensures
            r.x == x,
            r.y == y,
            r.group_by == group_by,
            r.partitions == partitions,
    {
        ScatterPlotState { x, y, group_by, partitions }
    }
}

/// The histogram overlay: the column, the bucket count, and a scroll over
/// the buckets. The geometry is drawn outside.
#[derive(Debug, Clone, PartialEq)]
pub struct HistogramPlotState {
    pub col: String,
    pub buckets: usize,
    pub scroll: Scroll,
}

impl HistogramPlotState {
    pub fn new(col: String, buckets: usize) -> (r: HistogramPlotState)
        ensures
            r.col == col,
            r.buckets == buckets,
            r.scroll.position == 0,
    {
        HistogramPlotState { col, buckets, scroll: Scroll::new() }
    }

    /// Scrolls the bucket list up.
    pub fn scroll_up(&mut self)
        ensures
            final(self).scroll.position == (if old(self).scroll.position > 0 {
                old(self).scroll.position - 1
            } else {
                0int
            }),
            final(self).col == old(self).col,
            final(self).buckets == old(self).buckets,
    {
        self.scroll.up();
    }

    /// Scrolls the bucket list down.
    pub fn scroll_down(&mut self)
        ensures
            final(self).scroll.position == (if old(self).scroll.position < usize::MAX {
                old(self).scroll.position + 1
            } else {
                usize::MAX as int
            }),
            final(self).col == old(self).col,
            final(self).buckets == old(self).buckets,
    {
        self.scroll.down();
    }
}

/// What an inline query popup asks for.
#[derive(Debug, Clone, Copy, PartialEq, Eq, Structural)]
pub enum InlineQueryType {
    Filter,
    Order,
}

/// The inline query popup: what it asks for and the condition typed so far.
#[derive(Debug, Clone, PartialEq)]
pub struct InlineQueryState {
    pub kind: InlineQueryType,
    pub input: InputState,
}

impl InlineQueryState {
    pub fn new(kind: InlineQueryType) -> (r: InlineQueryState)
        ensures
            r.kind == kind,
            r.input.wf(),
            r.input.text().len() == 0,
    {
        InlineQueryState { kind, input: InputState::new() }
    }
}

/// The overlay over a tab's table; at most one is up at a time.
#[derive(Debug, Default, PartialEq)]
pub enum Modal {
    Sheet(SheetState),
    SearchBar(SearchBarState),
    DataFrameInfo(DataFrameInfoState),
    ScatterPlot(ScatterPlotState),
    HistogramPlot(HistogramPlotState),
    InlineQuery(InlineQueryState),
    Help,
    #[default]
    Hidden,
}

impl Modal {
    /// The editors inside the overlay stay well formed.
    pub open spec fn wf(&self) -> bool {
        match self {
            Modal::SearchBar(sb) => sb.input.wf(),
            Modal::InlineQuery(q) => q.input.wf(),
            _ => true,
        }
    }
}

/// What a tab shows: the help table, a catalog table held by name, or the
/// result of a query. A name is a weak reference: unloading the name from
/// the catalog does not close the tab.
#[derive(Debug, Clone, PartialEq, Eq)]
pub enum TableType {
    Help,
    Name(String),
    Query(String),
}

impl TableType {
    /// The text shown on the tab: the name, the query, or the word for help.
    pub fn as_str(&self) -> (r: &str)
        ensures
            r@ == (match self {
                TableType::Help => "Help"@,
                TableType::Name(name) => name@,
                TableType::Query(query) => query@,
            }),
    {
        match self {
            TableType::Help => "Help",
            TableType::Name(name) => name.as_str(),
            TableType::Query(query) => query.as_str(),
        }
    }
}

/// One tab: its table view, the overlay above it, and what it shows.
#[derive(Debug, PartialEq)]
pub struct PaneState {
    pub table: TableView,
    pub modal: Modal,
    pub table_type: TableType,
}

impl PaneState {
    /// The table view and the overlay stay well formed.
    pub open spec fn wf(&self) -> bool {
        self.table.wf() && self.modal.wf()
    }

    /// A tab over the frame with no overlay.
    pub fn new(data_frame: DataFrame, table_type: TableType) -> (r: PaneState)
        ensures
            r.wf(),
            r.table.frame == data_frame,
            r.table.selected == 0,
            r.modal is Hidden,
            r.table_type == table_type,
    {
        PaneState { table: TableView::new(data_frame), modal: Modal::Hidden, table_type }
    }

    /// Adopts the matcher's most recent result as the shown frame while a
    /// search is open; outside a search, a tick changes nothing.
    pub fn tick(&mut self)
        requires
            old(self).wf(),
        ensures
            final(self).wf(),
            final(self).modal == old(self).modal,
            final(self).table_type == old(self).table_type,
            match old(self).modal {
                Modal::SearchBar(sb) => match sb.latest {
                    Some(df) => final(self).table.frame@ == df@ && final(self).table.selected
                        == clamp_row(df@.height, old(self).table.selected as int),
                    None => final(self).table == old(self).table,
                },
                _ => final(self).table == old(self).table,
            },
    {
        let found: Option<DataFrame> = match &self.modal {
            Modal::SearchBar(sb) => match &sb.latest {
                Some(df) => Some(df.duplicate()),
                None => None,
            },
            _ => None,
        };
        match found {
            Some(df) => {
                self.table.set_data_frame(df);
            },
            None => (),
        }
    }

    /// The table view.
    pub fn table(&self) -> (r: &TableView)
        ensures
            r == &self.table,
    {
        &self.table
    }

    /// The table view, for navigation.
    pub fn table_mut(&mut self) -> (r: &mut TableView)
        ensures
            *r == old(self).table,
            final(self).table == *final(r),
            final(self).modal == old(self).modal,
            final(self).table_type == old(self).table_type,
    {
        &mut self.table
    }

    /// What the tab shows.
    pub fn table_type(&self) -> (r: &TableType)
        ensures
            r == &self.table_type,
    {
        &self.table_type
    }

    /// Opens the sheet overlay.
    pub fn show_sheet(&mut self)
        ensures
            final(self).modal == Modal::Sheet(SheetState { scroll: Scroll { position: 0 } }),
            final(self).table == old(self).table,
            final(self).table_type == old(self).table_type,
    {
        self.modal = Modal::Sheet(SheetState::new());
    }

    /// Opens a fuzzy search over a copy of the shown frame.
    pub fn show_fuzzy_search(&mut self)
        requires
            old(self).wf(),
        ensures
            final(self).wf(),
            final(self).table == old(self).table,
            final(self).table_type == old(self).table_type,
            final(self).modal matches Modal::SearchBar(sb) && sb.kind == SearchKind::Fuzzy
                && sb.rollback_frame@ == old(self).table.frame@ && sb.latest is None
                && sb.input.text().len() == 0,
    {
        self.modal = Modal::SearchBar(SearchBarState::fuzzy(self.table.frame.duplicate()));
    }

    /// Opens an exact search over a copy of the shown frame.
    pub fn show_exact_search(&mut self)
        requires
            old(self).wf(),
        ensures
            final(self).wf(),
            final(self).table == old(self).table,
            final(self).table_type == old(self).table_type,
            final(self).modal matches Modal::SearchBar(sb) && sb.kind == SearchKind::Exact
                && sb.rollback_frame@ == old(self).table.frame@ && sb.latest is None
                && sb.input.text().len() == 0,
    {
        self.modal = Modal::SearchBar(SearchBarState::exact(self.table.frame.duplicate()));
    }

    /// Opens the frame information overlay.
    pub fn show_data_frame_info(&mut self)
        ensures
            final(self).modal == Modal::DataFrameInfo(DataFrameInfoState {
                scroll: Scroll { position: 0 },
            }),
            final(self).table == old(self).table,
            final(self).table_type == old(self).table_type,
    {
        self.modal = Modal::DataFrameInfo(DataFrameInfoState::new());
    }

    /// Opens a scatter plot overlay.
    pub fn show_scatter_plot(&mut self, scatter: ScatterPlotState)
        ensures
            final(self).modal == Modal::ScatterPlot(scatter),
            final(self).table == old(self).table,
            final(self).table_type == old(self).table_type,
    {
        self.modal = Modal::ScatterPlot(scatter);
    }

    /// Opens a histogram overlay.
    pub fn show_histogram_plot(&mut self, hist: HistogramPlotState)
        ensures
            final(self).modal == Modal::HistogramPlot(hist),
            final(self).table == old(self).table,
            final(self).table_type == old(self).table_type,
    {
        self.modal = Modal::HistogramPlot(hist);
    }

    /// Opens an inline query popup.
    pub fn show_inline_query(&mut self, query_type: InlineQueryType)
        ensures
            final(self).wf() == old(self).table.wf(),
            final(self).table == old(self).table,
            final(self).table_type == old(self).table_type,
            final(self).modal matches Modal::InlineQuery(q) && q.kind == query_type
                && q.input.text().len() == 0,
    {
        self.modal = Modal::InlineQuery(InlineQueryState::new(query_type));
    }

    /// Opens the help overlay.
    pub fn show_help(&mut self)
        ensures
            final(self).modal is Help,
            final(self).table == old(self).table,
            final(self).table_type == old(self).table_type,
    {
        self.modal = Modal::Help;
    }

    /// The overlay.
    pub fn modal(&self) -> (r: &Modal)
        ensures
            r == &self.modal,
    {
        &self.modal
    }

    /// The overlay, for scrolling and editing.
    pub fn modal_mut(&mut self) -> (r: &mut Modal)
        ensures
            *r == old(self).modal,
            final(self).modal == *final(r),
            final(self).table == old(self).table,
            final(self).table_type == old(self).table_type,
    {
        &mut self.modal
    }

    /// Takes the overlay down and yields it.
    pub fn modal_take(&mut self) -> (r: Modal)
        ensures
            r == old(self).modal,
            final(self).modal is Hidden,
            final(self).table == old(self).table,
            final(self).table_type == old(self).table_type,
    {
        let mut taken = Modal::Hidden;
        core::mem::swap(&mut taken, &mut self.modal);
        taken
    }
}

} // verus!
