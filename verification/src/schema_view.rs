//! The schema browser: a list of the catalog's tables with a highlighted
//! row, a scroll over the highlighted table's fields, and the panel that
//! shows one table's facts.
use vstd::prelude::*;

use crate::input::ListSelection;
use crate::sheet::Scroll;
use crate::sql::TableInfo;

verus! {

/// The state of the schema browser.
#[derive(Debug, Clone, Copy, PartialEq, Eq, Structural, Default)]
pub struct SchemaViewState {
    pub names: ListSelection,
    pub fields_scroll: Scroll,
}

impl SchemaViewState {
    /// A browser with nothing highlighted.
    pub fn new() -> (r: SchemaViewState)
        ensures
            r.names.selected is None,
            r.fields_scroll.position == 0,
    {
        SchemaViewState { names: ListSelection::new(), fields_scroll: Scroll::new() }
    }
}

/// The table facts panel: a borrowed catalog entry the renderer outside
/// draws as path, shape, estimated memory, and null count.
#[derive(Debug, Clone, Copy)]
pub struct DataFrameMetaInfo<'a> {
    pub info: &'a TableInfo,
}

impl<'a> DataFrameMetaInfo<'a> {
    /// A panel over the entry.
    pub fn new(info: &'a TableInfo) -> (r: Self)
        ensures
            r.info == info,
    {
        DataFrameMetaInfo { info }
    }
}

} // verus!
