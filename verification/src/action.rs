//! The closed algebra of intents the interface can produce. The reducer
//! interprets one action at a time and may emit one follow-up action; the
//! rank below falls along every follow-up, so every chain reaches quiescence.
use vstd::prelude::*;

use crate::frame::DataFrame;
use crate::input::KeyStroke;
use crate::pane::InlineQueryType;
use crate::sql::Source;
use crate::theme::Theme;
use crate::type_inferer::TypeInferer;

verus! {

/// How an exported JSON file is laid out: one document, or one object per
/// line.
#[derive(Debug, Clone, Copy, PartialEq, Eq, Structural)]
pub enum JsonFormat {
    Json,
    JsonLine,
}

/// Every intent the interface can produce.
#[derive(Debug, Clone, PartialEq)]
pub enum AppAction {
    NoAction,
    ToggleBorders,
    DismissError,
    DismissErrorAndShowPalette,
    GotoLine(usize),
    GoToLineShow,
    SwitchToSchema,
    SwitchToTabulars,

    TableInferColumns(TypeInferer),
    TableDismissModal,
    TableScrollRight,
    TableScrollLeft,
    TableScrollRightColumn,
    TableScrollLeftColumn,
    TableScrollStart,
    TableScrollEnd,
    TableToggleExpansion,
    TableGotoFirst,
    TableGotoLast,
    TableGotoRandom,
    TableGoUp(usize),
    TableGoUpHalfPage,
    TableGoUpFullPage,
    TableGoDown(usize),
    TableGoDownHalfPage,
    TableGoDownFullPage,
    TableSelect(String),
    TableOrder(String),
    TableFilter(String),
    TableQuery(String),
    TableSetDataFrame(DataFrame),
    TableReset,

    SheetShow,
    SheetScrollUp,
    SheetScrollDown,

    InlineQueryShow(InlineQueryType),

    PaletteGotoNext,
    PaletteGotoPrev,
    PaletteGotoNextWord,
    PaletteGotoPrevWord,
    PaletteGotoStart,
    PaletteGotoEnd,
    PaletteDeleteNext,
    PaletteDeletePrev,
    PaletteDeleteNextWord,
    PaletteDeletePrevWord,
    PaletteInsert(char),
    PaletteInsertSelectedOrCommit,
    PaletteShow(String),
    PaletteDeselectOrDismiss,
    PaletteSelectPrevious,
    PaletteSelectNext,

    SearchFuzzyShow,
    SearchExactShow,
    SearchGotoNext,
    SearchGotoPrev,
    SearchGotoNextWord,
    SearchGotoPrevWord,
    SearchGotoStart,
    SearchGotoEnd,
    SearchDeleteNext,
    SearchDeletePrev,
    SearchDeleteNextWord,
    SearchDeletePrevWord,
    SearchInsert(char),
    SearchRollback,
    SearchCommit,

    TabNewQuery(String),
    TabSelect(usize),
    TabRemove(usize),
    TabPrev,
    TabNext,
    TabRemoveOrQuit,
    TabRename(usize, String),
    TabShowPanel,
    TabHidePanel,
    TabPanelPrev,
    TabPanelNext,
    TabPanelSelect,

    ExportDsv { destination: String, separator: char, quote: char, header: bool },
    ExportParquet(String),
    ExportJson(String, JsonFormat),
    ExportArrow(String),
    ImportDsv { source: Source, separator: char, has_header: bool, quote: char },
    ImportParquet(Source),
    ImportJson(Source, JsonFormat),
    ImportArrow(Source),
    ImportSqlite(Source),
    ImportFwf {
        source: Source,
        widths: Vec<usize>,
        separator_length: usize,
        flexible_width: bool,
        has_header: bool,
    },

    SchemaNamesSelectPrev,
    SchemaNamesSelectNext,
    SchemaNamesSelectFirst,
    SchemaNamesSelectLast,
    SchemaFieldsScrollUp,
    SchemaFieldsScrollDown,
    SchemaOpenTable,
    SchemaUnloadTable,

    DataFrameInfoScrollUp,
    DataFrameInfoScrollDown,
    DataFrameInfoShow,

    ScatterPlot(String, String, Vec<String>),

    HistogramPlot(String, usize),
    HistogramScrollUp,
    HistogramScrollDown,

    PreviewTheme(Theme),
    StoreConfig,

    ThemeSelectorShow,
    ThemeSelectorSelectPrev,
    ThemeSelectorSelectNext,
    ThemeSelectorRollback,
    ThemeSelectorCommit,
    ThemeSelectorHandleEvent(KeyStroke),

    RegisterDataFrame(String),
    Help,
    Quit,
}

/// How far an action can still chain: the reducer only ever emits a
/// follow-up of strictly smaller rank, so chains of follow-ups end.
pub open spec fn action_rank(a: AppAction) -> nat {
    match a {
        AppAction::PaletteInsertSelectedOrCommit => 4,
        AppAction::SchemaOpenTable => 4,
        AppAction::TabNewQuery(_) => 3,
        AppAction::TableSelect(_) => 3,
        AppAction::TableOrder(_) => 3,
        AppAction::TableFilter(_) => 3,
        AppAction::TableReset => 3,
        AppAction::TableQuery(_) => 2,
        AppAction::TabRemove(_) => 2,
        AppAction::TabPrev => 2,
        AppAction::TabNext => 2,
        AppAction::TabRemoveOrQuit => 2,
        AppAction::TabPanelSelect => 2,
        AppAction::Help => 2,
        AppAction::ThemeSelectorRollback => 2,
        AppAction::ThemeSelectorCommit => 2,
        AppAction::ImportDsv { .. } => 2,
        AppAction::ImportParquet(_) => 2,
        AppAction::ImportJson(_, _) => 2,
        AppAction::ImportArrow(_) => 2,
        AppAction::ImportSqlite(_) => 2,
        AppAction::ImportFwf { .. } => 2,
        _ => 1,
    }
}

} // verus!
