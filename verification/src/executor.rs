//! The reducer: one action applied to the state tree, yielding at most one
//! follow-up action. The event loop outside feeds keystrokes in as actions
//! and runs `execute` to quiescence; `step` below says exactly what each
//! action does.
use vstd::prelude::*;

use crate::action::{action_rank, AppAction, JsonFormat};
use crate::app::{App, Content, SidePanelState};
use crate::command::{cmd_head, cmd_rest, commands_help_data_frame, parse_into_action, parse_post};
use crate::errors::{AppError, AppResult};
use crate::frame::DataFrame;
use crate::go_to_line::GoToLineState;
use crate::input::{InputState, ListSelection};
use crate::palette::PaletteState;
use crate::pane::{
    clamp_row, DataFrameInfoState, HistogramPlotState, Modal, PaneState, ScatterPlotState,
    SearchBarState, TableType, TableView,
};
use crate::sheet::{Scroll, SheetState};
use crate::sql::{is_free, Catalog, SqlEngine, Source, TableInfo};
use crate::type_ext::staged_name;
use crate::theme::{Theme, ThemeSelectorState};
use crate::type_inferer::TypeInferer;

verus! {

/// More catalog entries than any session can use; registration past it is
/// refused rather than risking the name search running out of stages.
pub const CATALOG_CAP: usize = 0x4000_0000;

/// The format readers and writers, the configuration store, the column
/// inferer, and the frame partitioner: outside collaborators. Nothing is
/// assumed of their results; the reducer validates whatever comes back.
pub trait FormatIo {
    fn read_dsv(&mut self, path: &str, separator: char, quote: char, has_header: bool) -> Result<
        Vec<(String, DataFrame)>,
        String,
    >;

    fn read_parquet(&mut self, path: &str) -> Result<Vec<(String, DataFrame)>, String>;

    fn read_json(&mut self, path: &str, fmt: JsonFormat) -> Result<Vec<(String, DataFrame)>, String>;

    fn read_arrow(&mut self, path: &str) -> Result<Vec<(String, DataFrame)>, String>;

    fn read_sqlite(&mut self, path: &str) -> Result<Vec<(String, DataFrame)>, String>;

    fn read_fwf(
        &mut self,
        path: &str,
        widths: &Vec<usize>,
        separator_length: usize,
        flexible_width: bool,
        has_header: bool,
    ) -> Result<Vec<(String, DataFrame)>, String>;

    fn write_dsv(
        &mut self,
        path: &str,
        separator: char,
        quote: char,
        header: bool,
        frame: &DataFrame,
    ) -> Result<(), String>;

    fn write_parquet(&mut self, path: &str, frame: &DataFrame) -> Result<(), String>;

    fn write_json(&mut self, path: &str, fmt: JsonFormat, frame: &DataFrame) -> Result<(), String>;

    fn write_arrow(&mut self, path: &str, frame: &DataFrame) -> Result<(), String>;

    fn store_config(&mut self, theme_id: &str) -> Result<(), String>;

    fn infer_columns(&mut self, inferer: &TypeInferer, frame: &DataFrame) -> DataFrame;

    fn partition(&mut self, frame: &DataFrame, by: &Vec<String>, stable: bool) -> Result<
        Vec<DataFrame>,
        String,
    >;
}

/// Relies on rand's `random_range`: the drawn value lies in the given
/// non-empty range; nothing else is assumed of it.
#[verifier::external_body]
fn random_below(n: usize) -> (r: usize)
    requires
        n >= 1,
    ensures
        r < n,
{
    rand::random_range(0..n)
}

/// Whether a tab is selected: some tab is open and the index is in range.
pub open spec fn has_tab(pre: App) -> bool {
    pre.tabs@.len() > 0 && pre.selected_tab < pre.tabs@.len()
}

/// The selected tab.
pub open spec fn cur_tab(pre: App) -> PaneState {
    pre.tabs@[pre.selected_tab as int]
}

/// Everything of the state but the tabs is unchanged.
pub open spec fn same_but_tabs(pre: App, post: App) -> bool {
    post == (App { tabs: post.tabs, ..pre })
}

/// Only the selected tab changed, and it became `t`.
pub open spec fn tab_step(pre: App, post: App, t: PaneState) -> bool {
    &&& same_but_tabs(pre, post)
    &&& post.tabs@ == pre.tabs@.update(pre.selected_tab as int, t)
}

/// Only the selected tab's table view changed, and it became `tv`.
pub open spec fn table_step(pre: App, post: App, tv: TableView) -> bool {
    tab_step(pre, post, PaneState { table: tv, ..cur_tab(pre) })
}

/// Only the selected tab's overlay changed, and it became `m`.
pub open spec fn modal_step(pre: App, post: App, m: Modal) -> bool {
    tab_step(pre, post, PaneState { modal: m, ..cur_tab(pre) })
}

/// The state is unchanged: every part equals what it was, with the tabs
/// compared by content.
pub open spec fn unchanged(pre: App, post: App) -> bool {
    same_but_tabs(pre, post) && post.tabs@ == pre.tabs@
}

/// A no-op outcome: the state is unchanged and nothing follows.
pub open spec fn noop(pre: App, post: App, r: AppResult<Option<AppAction>>) -> bool {
    unchanged(pre, post) && r == Ok::<Option<AppAction>, AppError>(None)
}

/// What one editing keystroke does to a line editor.
pub open spec fn edit_rel(a: InputState, op: AppAction, b: InputState) -> bool {
    &&& b.kind() == a.kind()
    &&& b.wf()
    &&& match op {
        AppAction::SearchGotoNext | AppAction::PaletteGotoNext => b.text() == a.text()
            && b.cursor_at() as int == (if a.cursor_at() < a.text().len() {
            a.cursor_at() as int + 1
        } else {
            a.cursor_at() as int
        }),
        AppAction::SearchGotoPrev | AppAction::PaletteGotoPrev => b.text() == a.text()
            && b.cursor_at() == (if a.cursor_at() > 0 {
            a.cursor_at() - 1
        } else {
            0int
        }),
        AppAction::SearchGotoStart | AppAction::PaletteGotoStart => b.text() == a.text()
            && b.cursor_at() == 0,
        AppAction::SearchGotoEnd | AppAction::PaletteGotoEnd => b.text() == a.text()
            && b.cursor_at() == a.text().len(),
        AppAction::SearchGotoNextWord | AppAction::PaletteGotoNextWord => b.text() == a.text()
            && b.cursor_at() == crate::input::word_stop_forward(a.text(), a.cursor_at()),
        AppAction::SearchGotoPrevWord | AppAction::PaletteGotoPrevWord => b.text() == a.text()
            && b.cursor_at() == crate::input::word_stop_backward(a.text(), a.cursor_at()),
        AppAction::SearchDeleteNext | AppAction::PaletteDeleteNext => b.cursor_at()
            == a.cursor_at() && b.text() == (if a.cursor_at() < a.text().len() {
            a.text().remove(a.cursor_at() as int)
        } else {
            a.text()
        }),
        AppAction::SearchDeletePrev | AppAction::PaletteDeletePrev => b.text() == (if a.cursor_at()
            > 0 {
            a.text().remove(a.cursor_at() - 1)
        } else {
            a.text()
        }) && b.cursor_at() == (if a.cursor_at() > 0 {
            a.cursor_at() - 1
        } else {
            0int
        }),
        AppAction::SearchDeleteNextWord | AppAction::PaletteDeleteNextWord => b.cursor_at()
            == a.cursor_at() && b.text() == a.text().subrange(0, a.cursor_at() as int)
            + a.text().subrange(
            crate::input::word_stop_forward(a.text(), a.cursor_at()) as int,
            a.text().len() as int,
        ),
        AppAction::SearchDeletePrevWord | AppAction::PaletteDeletePrevWord => b.cursor_at()
            == crate::input::word_stop_backward(a.text(), a.cursor_at()) && b.text()
            == a.text().subrange(
            0,
            crate::input::word_stop_backward(a.text(), a.cursor_at()) as int,
        ) + a.text().subrange(a.cursor_at() as int, a.text().len() as int),
        AppAction::SearchInsert(c) | AppAction::PaletteInsert(c) => {
            let accepted = a.kind() == crate::input::InputType::Text || crate::text::is_digit(c);
            &&& b.text() == (if accepted {
                a.text().insert(a.cursor_at() as int, c)
            } else {
                a.text()
            })
            &&& b.cursor_at() as int == (if accepted {
                a.cursor_at() as int + 1
            } else {
                a.cursor_at() as int
            })
        },
        _ => false,
    }
}

/// The first tab showing the help table, if any.
pub open spec fn first_help_tab(tabs: Seq<PaneState>) -> Option<int>
    decreases tabs.len(),
{
    if tabs.len() == 0 {
        None
    } else if tabs[0].table_type is Help {
        Some(0)
    } else {
        match first_help_tab(tabs.drop_first()) {
            Some(i) => Some(i + 1),
            None => None,
        }
    }
}

/// The first tab holding the catalog name, if any.
pub open spec fn first_name_tab(tabs: Seq<PaneState>, name: Seq<char>) -> Option<int>
    decreases tabs.len(),
{
    if tabs.len() == 0 {
        None
    } else if tabs[0].table_type matches TableType::Name(n) && n@ == name {
        Some(0)
    } else {
        match first_name_tab(tabs.drop_first(), name) {
            Some(i) => Some(i + 1),
            None => None,
        }
    }
}

/// What a successful import left behind: the read frames registered in
/// order, one new tab per frame holding its registered name and a copy of
/// its frame, and everything older untouched.
pub open spec fn imports_applied(pre: App, post: App, src: Source) -> bool {
    let added = post.tabs@.len() - pre.tabs@.len();
    &&& post.tabs@.len() >= pre.tabs@.len()
    &&& post == (App { tabs: post.tabs, catalog: post.catalog, ..pre })
    &&& post.catalog.wf()
    &&& post.catalog.model().len() == pre.catalog.model().len() + added
    &&& forall|j: int| 0 <= j < pre.tabs@.len() ==> post.tabs@[j] == pre.tabs@[j]
    &&& forall|j: int|
        0 <= j < pre.catalog.model().len() ==> post.catalog.model()[j] == pre.catalog.model()[j]
    &&& forall|j: int|
        pre.tabs@.len() <= j < post.tabs@.len() ==> {
            let e = post.catalog.model()[pre.catalog.model().len() + (j - pre.tabs@.len())];
            &&& (#[trigger] post.tabs@[j]).table_type matches TableType::Name(nm) && nm@ == e.name@
            &&& post.tabs@[j].table.frame@ == e.frame@
            &&& post.tabs@[j].table.selected == 0
            &&& post.tabs@[j].modal is Hidden
            &&& post.tabs@[j].wf()
            &&& e.source == src
        }
}

/// The outcome of running a typed command line: the parsed action becomes
/// the follow-up, or the parse failure becomes the error.
pub open spec fn parse_outcome(cmd: Seq<char>, r: AppResult<Option<AppAction>>) -> bool {
    match r {
        Ok(Some(f)) => parse_post(cmd_head(cmd), cmd_rest(cmd), Ok(f)),
        Ok(None) => false,
        Err(e) => parse_post(cmd_head(cmd), cmd_rest(cmd), Err(e)),
    }
}

/// The selected tab's row became `k`, and nothing else changed.
pub open spec fn random_step(pre: App, post: App, k: usize) -> bool {
    table_step(pre, post, TableView { selected: k, ..cur_tab(pre).table })
}

/// The selected tab's frame became `df2`, the row and the horizontal offset
/// clamped into it, and nothing else changed.
pub open spec fn infer_step(pre: App, post: App, df2: DataFrame) -> bool {
    table_step(
        pre,
        post,
        TableView {
            frame: df2,
            selected: clamp_row(df2@.height, cur_tab(pre).table.selected as int) as usize,
            offset: (if cur_tab(pre).table.offset <= df2@.columns.len() {
                cur_tab(pre).table.offset as int
            } else {
                df2@.columns.len() as int
            }) as usize,
            ..cur_tab(pre).table
        },
    )
}

/// An edited search bar: the input became `b`, the rest of the bar and tab
/// kept.
pub open spec fn search_edit_step(pre: App, post: App, b: InputState) -> bool {
    match cur_tab(pre).modal {
        Modal::SearchBar(sb) => modal_step(
            pre,
            post,
            Modal::SearchBar(SearchBarState { input: b, ..sb }),
        ),
        _ => false,
    }
}

/// What `execute` does for every action: the relation between the state
/// before, the state after, and the outcome.
pub open spec fn step(a: AppAction, pre: App, post: App, r: AppResult<Option<AppAction>>) -> bool {
    match a {
        AppAction::NoAction => post == pre && r == Ok::<Option<AppAction>, AppError>(None),
        AppAction::ToggleBorders => post == (App { borders: !pre.borders, ..pre }) && r == Ok::<
            Option<AppAction>,
            AppError,
        >(None),
        AppAction::DismissError => post == (App { error: None, ..pre }) && r == Ok::<
            Option<AppAction>,
            AppError,
        >(None),
        AppAction::DismissErrorAndShowPalette => {
            &&& post == (App { error: None, palette: post.palette, ..pre })
            &&& post.palette matches Some(p) && p.input.text().len() == 0 && p.list.selected
                is None
            &&& r == Ok::<Option<AppAction>, AppError>(None)
        },
        AppAction::SwitchToSchema => post == (App { content: Content::Schema, ..pre }) && r == Ok::<
            Option<AppAction>,
            AppError,
        >(None),
        AppAction::SwitchToTabulars => post == (App { content: Content::Tabulars, ..pre }) && r
            == Ok::<Option<AppAction>, AppError>(None),
        AppAction::Quit => post == (App { running: false, ..pre }) && r == Ok::<
            Option<AppAction>,
            AppError,
        >(None),
        AppAction::TabRename(_, _) => unchanged(pre, post) && (r matches Err(e) && e is Unsupported),
        AppAction::GoToLineShow => {
            &&& post == (App { go_to_line: post.go_to_line, ..pre })
            &&& post.go_to_line matches Some(g) && g.typed().len() == 0 && g.rollback_row() == (
            if has_tab(pre) {
                cur_tab(pre).table.selected as int
            } else {
                0int
            })
            &&& r == Ok::<Option<AppAction>, AppError>(None)
        },
        AppAction::GotoLine(n) => {
            &&& r == Ok::<Option<AppAction>, AppError>(None)
            &&& if pre.content == Content::Tabulars && has_tab(pre) {
                table_step(
                    pre,
                    post,
                    TableView {
                        selected: clamp_row(
                            cur_tab(pre).table.frame@.height,
                            n as int,
                        ) as usize,
                        ..cur_tab(pre).table
                    },
                )
            } else if pre.content == Content::Schema {
                post == (App {
                    schema_view: crate::schema_view::SchemaViewState {
                        names: ListSelection { selected: Some(n) },
                        ..pre.schema_view
                    },
                    ..pre
                })
            } else {
                unchanged(pre, post)
            }
        },
        AppAction::PreviewTheme(t) => post == (App { theme: t, ..pre }) && r == Ok::<
            Option<AppAction>,
            AppError,
        >(None),
        AppAction::StoreConfig => unchanged(pre, post) && (r == Ok::<Option<AppAction>, AppError>(None) || (
        r matches Err(e) && e is Io)),
        AppAction::Help => {
            match first_help_tab(pre.tabs@) {
                Some(i) => unchanged(pre, post) && r == Ok::<Option<AppAction>, AppError>(
                    Some(AppAction::TabSelect(i as usize)),
                ),
                None => {
                    &&& same_but_tabs(pre, post)
                    &&& post.tabs@.len() == pre.tabs@.len() + 1
                    &&& forall|j: int| 0 <= j < pre.tabs@.len() ==> post.tabs@[j] == pre.tabs@[j]
                    &&& post.tabs@.last().table_type is Help
                    &&& post.tabs@.last().modal is Hidden
                    &&& post.tabs@.last().table.selected == 0
                    &&& post.tabs@.last().table.frame@.height == 22
                    &&& post.tabs@.last().table.frame@.columns.len() == 4
                    &&& post.tabs@.last().wf()
                    &&& r == Ok::<Option<AppAction>, AppError>(
                        Some(AppAction::TabSelect(pre.tabs@.len() as usize)),
                    )
                },
            }
        },
        AppAction::RegisterDataFrame(name) => {
            if !is_free(pre.catalog.names(), name@) {
                unchanged(pre, post) && (r matches Err(e) && e is NameInUse)
            } else if pre.catalog.model().len() >= CATALOG_CAP {
                unchanged(pre, post) && (r matches Err(e) && e is Unsupported)
            } else if has_tab(pre) {
                &&& post == (App { catalog: post.catalog, ..pre })
                &&& post.catalog.wf()
                &&& post.catalog.names() == pre.catalog.names().push(name@)
                &&& post.catalog.model().len() == pre.catalog.model().len() + 1
                &&& forall|j: int|
                    0 <= j < pre.catalog.model().len() ==> post.catalog.model()[j]
                        == pre.catalog.model()[j]
                &&& post.catalog.model().last().frame@ == cur_tab(pre).table.frame@
                &&& post.catalog.model().last().source == Source::User
                &&& r == Ok::<Option<AppAction>, AppError>(None)
            } else {
                noop(pre, post, r)
            }
        },
        AppAction::TableDismissModal => if has_tab(pre) {
            modal_step(pre, post, Modal::Hidden) && r == Ok::<Option<AppAction>, AppError>(None)
        } else {
            noop(pre, post, r)
        },
        AppAction::SheetShow => if has_tab(pre) {
            modal_step(pre, post, Modal::Sheet(SheetState { scroll: Scroll { position: 0 } })) && r
                == Ok::<Option<AppAction>, AppError>(None)
        } else {
            noop(pre, post, r)
        },
        AppAction::SheetScrollUp => if has_tab(pre) {
            match cur_tab(pre).modal {
                Modal::Sheet(s) => modal_step(
                    pre,
                    post,
                    Modal::Sheet(
                        SheetState {
                            scroll: Scroll {
                                position: (if s.scroll.position > 0 {
                                    s.scroll.position - 1
                                } else {
                                    0int
                                }) as usize,
                            },
                        },
                    ),
                ) && r == Ok::<Option<AppAction>, AppError>(None),
                _ => noop(pre, post, r),
            }
        } else {
            noop(pre, post, r)
        },
        AppAction::SheetScrollDown => if has_tab(pre) {
            match cur_tab(pre).modal {
                Modal::Sheet(s) => modal_step(
                    pre,
                    post,
                    Modal::Sheet(
                        SheetState {
                            scroll: Scroll {
                                position: (if s.scroll.position < usize::MAX {
                                    s.scroll.position + 1
                                } else {
                                    usize::MAX as int
                                }) as usize,
                            },
                        },
                    ),
                ) && r == Ok::<Option<AppAction>, AppError>(None),
                _ => noop(pre, post, r),
            }
        } else {
            noop(pre, post, r)
        },
        AppAction::TableScrollLeft | AppAction::TableScrollLeftColumn => if has_tab(pre) {
            table_step(
                pre,
                post,
                TableView {
                    offset: (if cur_tab(pre).table.offset > 0 {
                        cur_tab(pre).table.offset - 1
                    } else {
                        0int
                    }) as usize,
                    ..cur_tab(pre).table
                },
            ) && r == Ok::<Option<AppAction>, AppError>(None)
        } else {
            noop(pre, post, r)
        },
        AppAction::TableScrollRight | AppAction::TableScrollRightColumn => if has_tab(pre) {
            table_step(
                pre,
                post,
                TableView {
                    offset: (if cur_tab(pre).table.offset < cur_tab(
                        pre,
                    ).table.frame@.columns.len() {
                        cur_tab(pre).table.offset + 1
                    } else {
                        cur_tab(pre).table.offset as int
                    }) as usize,
                    ..cur_tab(pre).table
                },
            ) && r == Ok::<Option<AppAction>, AppError>(None)
        } else {
            noop(pre, post, r)
        },
        AppAction::TableScrollStart => if has_tab(pre) {
            table_step(pre, post, TableView { offset: 0, ..cur_tab(pre).table }) && r == Ok::<
                Option<AppAction>,
                AppError,
            >(None)
        } else {
            noop(pre, post, r)
        },
        AppAction::TableScrollEnd => if has_tab(pre) {
            table_step(
                pre,
                post,
                TableView {
                    offset: cur_tab(pre).table.frame@.columns.len() as usize,
                    ..cur_tab(pre).table
                },
            ) && r == Ok::<Option<AppAction>, AppError>(None)
        } else {
            noop(pre, post, r)
        },
        AppAction::TableToggleExpansion => if has_tab(pre) {
            table_step(
                pre,
                post,
                TableView { expanded: !cur_tab(pre).table.expanded, ..cur_tab(pre).table },
            ) && r == Ok::<Option<AppAction>, AppError>(None)
        } else {
            noop(pre, post, r)
        },
        AppAction::TableGotoFirst => if has_tab(pre) {
            table_step(
                pre,
                post,
                TableView {
                    selected: clamp_row(cur_tab(pre).table.frame@.height, 0) as usize,
                    ..cur_tab(pre).table
                },
            ) && r == Ok::<Option<AppAction>, AppError>(None)
        } else {
            noop(pre, post, r)
        },
        AppAction::TableGotoLast => if has_tab(pre) {
            table_step(
                pre,
                post,
                TableView {
                    selected: clamp_row(
                        cur_tab(pre).table.frame@.height,
                        cur_tab(pre).table.frame@.height as int - 1,
                    ) as usize,
                    ..cur_tab(pre).table
                },
            ) && r == Ok::<Option<AppAction>, AppError>(None)
        } else {
            noop(pre, post, r)
        },
        AppAction::TableGotoRandom => if has_tab(pre) && cur_tab(pre).table.frame@.height > 0 {
            &&& r == Ok::<Option<AppAction>, AppError>(None)
            &&& exists|k: usize|
                k < cur_tab(pre).table.frame@.height && #[trigger] random_step(pre, post, k)
        } else {
            noop(pre, post, r)
        },
        AppAction::TableGoUp(lines) => if has_tab(pre) {
            table_step(
                pre,
                post,
                TableView {
                    selected: (if lines <= cur_tab(pre).table.selected {
                        cur_tab(pre).table.selected - lines
                    } else {
                        0int
                    }) as usize,
                    ..cur_tab(pre).table
                },
            ) && r == Ok::<Option<AppAction>, AppError>(None)
        } else {
            noop(pre, post, r)
        },
        AppAction::TableGoUpHalfPage => if has_tab(pre) {
            table_step(
                pre,
                post,
                TableView {
                    selected: (if cur_tab(pre).table.rendered_rows / 2 <= cur_tab(
                        pre,
                    ).table.selected {
                        cur_tab(pre).table.selected - cur_tab(pre).table.rendered_rows / 2
                    } else {
                        0int
                    }) as usize,
                    ..cur_tab(pre).table
                },
            ) && r == Ok::<Option<AppAction>, AppError>(None)
        } else {
            noop(pre, post, r)
        },
        AppAction::TableGoUpFullPage => if has_tab(pre) {
            table_step(
                pre,
                post,
                TableView {
                    selected: (if cur_tab(pre).table.rendered_rows <= cur_tab(pre).table.selected {
                        cur_tab(pre).table.selected - cur_tab(pre).table.rendered_rows
                    } else {
                        0int
                    }) as usize,
                    ..cur_tab(pre).table
                },
            ) && r == Ok::<Option<AppAction>, AppError>(None)
        } else {
            noop(pre, post, r)
        },
        AppAction::TableGoDown(lines) => if has_tab(pre) {
            table_step(
                pre,
                post,
                TableView {
                    selected: clamp_row(
                        cur_tab(pre).table.frame@.height,
                        cur_tab(pre).table.selected + lines,
                    ) as usize,
                    ..cur_tab(pre).table
                },
            ) && r == Ok::<Option<AppAction>, AppError>(None)
        } else {
            noop(pre, post, r)
        },
        AppAction::TableGoDownHalfPage => if has_tab(pre) {
            table_step(
                pre,
                post,
                TableView {
                    selected: clamp_row(
                        cur_tab(pre).table.frame@.height,
                        cur_tab(pre).table.selected + cur_tab(pre).table.rendered_rows / 2,
                    ) as usize,
                    ..cur_tab(pre).table
                },
            ) && r == Ok::<Option<AppAction>, AppError>(None)
        } else {
            noop(pre, post, r)
        },
        AppAction::TableGoDownFullPage => if has_tab(pre) {
            table_step(
                pre,
                post,
                TableView {
                    selected: clamp_row(
                        cur_tab(pre).table.frame@.height,
                        cur_tab(pre).table.selected + cur_tab(pre).table.rendered_rows,
                    ) as usize,
                    ..cur_tab(pre).table
                },
            ) && r == Ok::<Option<AppAction>, AppError>(None)
        } else {
            noop(pre, post, r)
        },
        AppAction::TableSetDataFrame(df) => if has_tab(pre) {
            let tv = post.tabs@[pre.selected_tab as int].table;
            &&& r == Ok::<Option<AppAction>, AppError>(None)
            &&& tab_step(pre, post, PaneState { table: tv, ..cur_tab(pre) })
            &&& tv.frame@ == df@
            &&& tv.selected == clamp_row(df@.height, cur_tab(pre).table.selected as int)
            &&& tv.offset == 0
            &&& tv.expanded == cur_tab(pre).table.expanded
            &&& tv.rendered_rows == cur_tab(pre).table.rendered_rows
        } else {
            noop(pre, post, r)
        },
        AppAction::TableInferColumns(_) => if has_tab(pre) {
            &&& r == Ok::<Option<AppAction>, AppError>(None)
            &&& exists|df2: DataFrame| #[trigger] infer_step(pre, post, df2)
        } else {
            noop(pre, post, r)
        },
        AppAction::TableSelect(s) => {
            &&& unchanged(pre, post)
            &&& r matches Ok(f) && f matches Some(q) && q matches AppAction::TableQuery(t) && t@
                == "SELECT "@ + s@ + " FROM _"@
        },
        AppAction::TableOrder(s) => {
            &&& unchanged(pre, post)
            &&& r matches Ok(f) && f matches Some(q) && q matches AppAction::TableQuery(t) && t@
                == "SELECT * FROM _ ORDER BY "@ + s@
        },
        AppAction::TableFilter(s) => {
            &&& unchanged(pre, post)
            &&& r matches Ok(f) && f matches Some(q) && q matches AppAction::TableQuery(t) && t@
                == "SELECT * FROM _ where "@ + s@
        },
        AppAction::TableQuery(_) => {
            &&& unchanged(pre, post)
            &&& ((r matches Ok(f) && f matches Some(n) && n is TableSetDataFrame) || (r matches Err(
                e,
            ) && e is Sql))
        },
        AppAction::TableReset => {
            &&& unchanged(pre, post)
            &&& if has_tab(pre) {
                match cur_tab(pre).table_type {
                    TableType::Help => r == Ok::<Option<AppAction>, AppError>(None),
                    TableType::Name(n) => r matches Ok(f) && f matches Some(q) && q
                        matches AppAction::TableQuery(t) && t@ == "SELECT * FROM '"@ + n@ + "'"@,
                    TableType::Query(s) => r matches Ok(f) && f matches Some(q) && q
                        matches AppAction::TableQuery(t) && t@ == s@,
                }
            } else {
                r == Ok::<Option<AppAction>, AppError>(None)
            }
        },
        AppAction::SearchFuzzyShow => if has_tab(pre) {
            &&& r == Ok::<Option<AppAction>, AppError>(None)
            &&& tab_step(pre, post, PaneState { modal: post.tabs@[pre.selected_tab as int].modal, ..cur_tab(pre) })
            &&& post.tabs@[pre.selected_tab as int].modal matches Modal::SearchBar(sb)
                && sb.kind == crate::pane::SearchKind::Fuzzy && sb.rollback_frame@ == cur_tab(
                pre,
            ).table.frame@ && sb.latest is None && sb.input.text().len() == 0
        } else {
            noop(pre, post, r)
        },
        AppAction::SearchExactShow => if has_tab(pre) {
            &&& r == Ok::<Option<AppAction>, AppError>(None)
            &&& tab_step(pre, post, PaneState { modal: post.tabs@[pre.selected_tab as int].modal, ..cur_tab(pre) })
            &&& post.tabs@[pre.selected_tab as int].modal matches Modal::SearchBar(sb)
                && sb.kind == crate::pane::SearchKind::Exact && sb.rollback_frame@ == cur_tab(
                pre,
            ).table.frame@ && sb.latest is None && sb.input.text().len() == 0
        } else {
            noop(pre, post, r)
        },
        AppAction::SearchGotoNext | AppAction::SearchGotoPrev | AppAction::SearchGotoNextWord
            | AppAction::SearchGotoPrevWord | AppAction::SearchGotoStart
            | AppAction::SearchGotoEnd | AppAction::SearchDeleteNext
            | AppAction::SearchDeletePrev | AppAction::SearchDeleteNextWord
            | AppAction::SearchDeletePrevWord | AppAction::SearchInsert(_) => {
            &&& r == Ok::<Option<AppAction>, AppError>(None)
            &&& if has_tab(pre) {
                match cur_tab(pre).modal {
                    Modal::SearchBar(sb) => exists|b: InputState|
                        edit_rel(sb.input, a, b) && #[trigger] search_edit_step(pre, post, b),
                    _ => unchanged(pre, post),
                }
            } else {
                unchanged(pre, post)
            }
        },
        AppAction::SearchRollback => {
            &&& r == Ok::<Option<AppAction>, AppError>(None)
            &&& if has_tab(pre) {
                match cur_tab(pre).modal {
                    Modal::SearchBar(sb) => tab_step(
                        pre,
                        post,
                        PaneState {
                            table: TableView {
                                frame: sb.rollback_frame,
                                selected: clamp_row(
                                    sb.rollback_frame@.height,
                                    cur_tab(pre).table.selected as int,
                                ) as usize,
                                offset: 0,
                                ..cur_tab(pre).table
                            },
                            modal: Modal::Hidden,
                            ..cur_tab(pre)
                        },
                    ),
                    _ => modal_step(pre, post, Modal::Hidden),
                }
            } else {
                post == pre
            }
        },
        AppAction::SearchCommit => {
            &&& r == Ok::<Option<AppAction>, AppError>(None)
            &&& if has_tab(pre) {
                match cur_tab(pre).modal {
                    Modal::SearchBar(sb) => match sb.latest {
                        Some(df) => tab_step(
                            pre,
                            post,
                            PaneState {
                                table: TableView {
                                    frame: df,
                                    selected: clamp_row(
                                        df@.height,
                                        cur_tab(pre).table.selected as int,
                                    ) as usize,
                                    offset: 0,
                                    ..cur_tab(pre).table
                                },
                                modal: Modal::Hidden,
                                ..cur_tab(pre)
                            },
                        ),
                        None => modal_step(pre, post, Modal::Hidden),
                    },
                    _ => modal_step(pre, post, Modal::Hidden),
                }
            } else {
                post == pre
            }
        },
        AppAction::InlineQueryShow(kind) => if has_tab(pre) {
            &&& r == Ok::<Option<AppAction>, AppError>(None)
            &&& tab_step(pre, post, PaneState { modal: post.tabs@[pre.selected_tab as int].modal, ..cur_tab(pre) })
            &&& post.tabs@[pre.selected_tab as int].modal matches Modal::InlineQuery(q) && q.kind
                == kind && q.input.text().len() == 0
        } else {
            noop(pre, post, r)
        },
        AppAction::PaletteShow(text) => {
            &&& post == (App { palette: post.palette, ..pre })
            &&& post.palette matches Some(p) && p.input.text() == text@ && p.list.selected is None
            &&& r == Ok::<Option<AppAction>, AppError>(None)
        },
        AppAction::PaletteGotoNext | AppAction::PaletteGotoPrev | AppAction::PaletteGotoNextWord
            | AppAction::PaletteGotoPrevWord | AppAction::PaletteGotoStart
            | AppAction::PaletteGotoEnd | AppAction::PaletteDeleteNext
            | AppAction::PaletteDeletePrev | AppAction::PaletteDeleteNextWord
            | AppAction::PaletteDeletePrevWord => {
            &&& r == Ok::<Option<AppAction>, AppError>(None)
            &&& match pre.palette {
                Some(p) => {
                    &&& post == (App { palette: post.palette, ..pre })
                    &&& post.palette matches Some(p2) && p2.list == p.list && edit_rel(
                        p.input,
                        a,
                        p2.input,
                    )
                },
                None => post == pre,
            }
        },
        AppAction::PaletteInsert(c) => {
            &&& r == Ok::<Option<AppAction>, AppError>(None)
            &&& match pre.palette {
                Some(p) => {
                    &&& post == (App { palette: post.palette, ..pre })
                    &&& post.palette matches Some(p2) && p2.list.selected is None && edit_rel(
                        p.input,
                        a,
                        p2.input,
                    )
                },
                None => post == pre,
            }
        },
        AppAction::PaletteSelectPrevious => {
            &&& r == Ok::<Option<AppAction>, AppError>(None)
            &&& match pre.palette {
                Some(p) => {
                    &&& post == (App { palette: post.palette, ..pre })
                    &&& post.palette matches Some(p2) && p2.input == p.input && p2.list.selected
                        == (if pre.history@.len() == 0 {
                        Option::<usize>::None
                    } else {
                        match p.list.selected {
                            None => Some((pre.history@.len() - 1) as usize),
                            Some(i) => Some((if i > 0 {
                                i - 1
                            } else {
                                0
                            }) as usize),
                        }
                    })
                },
                None => post == pre,
            }
        },
        AppAction::PaletteSelectNext => {
            &&& r == Ok::<Option<AppAction>, AppError>(None)
            &&& match pre.palette {
                Some(p) => {
                    &&& post == (App { palette: post.palette, ..pre })
                    &&& post.palette matches Some(p2) && p2.input == p.input && p2.list.selected
                        == (if pre.history@.len() == 0 {
                        Option::<usize>::None
                    } else {
                        match p.list.selected {
                            None => Some(0usize),
                            Some(i) => Some((if i + 1 < pre.history@.len() {
                                i + 1
                            } else {
                                pre.history@.len() - 1
                            }) as usize),
                        }
                    })
                },
                None => post == pre,
            }
        },
        AppAction::PaletteDeselectOrDismiss => {
            &&& r == Ok::<Option<AppAction>, AppError>(None)
            &&& match pre.palette {
                Some(p) => if p.list.selected is Some {
                    &&& post == (App { palette: post.palette, ..pre })
                    &&& post.palette matches Some(p2) && p2.input == p.input && p2.list.selected
                        is None
                } else {
                    post == (App { palette: None, ..pre })
                },
                None => post == pre,
            }
        },
        AppAction::PaletteInsertSelectedOrCommit => {
            match pre.palette {
                Some(p) => match p.list.selected {
                    Some(si) => {
                        &&& r == Ok::<Option<AppAction>, AppError>(None)
                        &&& if si < pre.history@.len() {
                            &&& post == (App { palette: post.palette, ..pre })
                            &&& post.palette matches Some(p2) && p2.input.text()
                                == pre.history@[si as int]@ && p2.list.selected is None
                        } else {
                            post == pre
                        }
                    },
                    None => {
                        if p.input.text().len() == 0 {
                            &&& post == (App { palette: None, ..pre })
                            &&& r == Ok::<Option<AppAction>, AppError>(
                                Some(AppAction::PaletteDeselectOrDismiss),
                            )
                        } else {
                            &&& post == (App { palette: None, history: post.history, ..pre })
                            &&& post.history@.len() == pre.history@.len() + 1
                            &&& forall|j: int|
                                0 <= j < pre.history@.len() ==> post.history@[j]
                                    == pre.history@[j]
                            &&& post.history@.last()@ == p.input.text()
                            &&& parse_outcome(p.input.text(), r)
                        }
                    },
                },
                None => noop(pre, post, r),
            }
        },
        AppAction::TabNewQuery(q) => {
            if !is_free(pre.catalog.names(), q@) {
                (r matches Err(e) && e is Sql && post == pre) || {
                    &&& same_but_tabs(pre, post)
                    &&& post.tabs@.len() == pre.tabs@.len() + 1
                    &&& forall|j: int| 0 <= j < pre.tabs@.len() ==> post.tabs@[j] == pre.tabs@[j]
                    &&& post.tabs@.last().table_type matches TableType::Name(nm) && nm@ == q@
                    &&& post.tabs@.last().modal is Hidden
                    &&& post.tabs@.last().wf()
                    &&& r == Ok::<Option<AppAction>, AppError>(
                        Some(AppAction::TabSelect(pre.tabs@.len() as usize)),
                    )
                }
            } else {
                (r matches Err(e) && e is Sql && post == pre) || {
                    &&& same_but_tabs(pre, post)
                    &&& post.tabs@.len() == pre.tabs@.len() + 1
                    &&& forall|j: int| 0 <= j < pre.tabs@.len() ==> post.tabs@[j] == pre.tabs@[j]
                    &&& post.tabs@.last().table_type matches TableType::Query(s) && s@ == q@
                    &&& post.tabs@.last().modal is Hidden
                    &&& post.tabs@.last().wf()
                    &&& r == Ok::<Option<AppAction>, AppError>(
                        Some(AppAction::TabSelect(pre.tabs@.len() as usize)),
                    )
                }
            }
        },
        AppAction::TabSelect(i) => {
            &&& r == Ok::<Option<AppAction>, AppError>(None)
            &&& post == (App {
                selected_tab: (if pre.tabs@.len() == 0 {
                    0int
                } else if i < pre.tabs@.len() {
                    i as int
                } else {
                    pre.tabs@.len() - 1
                }) as usize,
                content: Content::Tabulars,
                ..pre
            })
        },
        AppAction::TabRemove(i) => {
            &&& r == Ok::<Option<AppAction>, AppError>(Some(AppAction::TabSelect(i)))
            &&& if i < pre.tabs@.len() {
                &&& post == (App {
                    tabs: post.tabs,
                    selected_tab: post.selected_tab,
                    running: post.running,
                    ..pre
                })
                &&& post.tabs@ == pre.tabs@.remove(i as int)
                &&& post.selected_tab == (if post.tabs@.len() == 0 {
                    0int
                } else if pre.selected_tab < post.tabs@.len() {
                    pre.selected_tab as int
                } else {
                    post.tabs@.len() - 1
                })
                &&& post.running == (if post.tabs@.len() == 0 {
                    false
                } else {
                    pre.running
                })
            } else {
                unchanged(pre, post)
            }
        },
        AppAction::TabPrev => {
            &&& unchanged(pre, post)
            &&& r == Ok::<Option<AppAction>, AppError>(
                Some(
                    AppAction::TabSelect(
                        (if pre.selected_tab > 0 {
                            pre.selected_tab - 1
                        } else {
                            0int
                        }) as usize,
                    ),
                ),
            )
        },
        AppAction::TabNext => {
            &&& unchanged(pre, post)
            &&& r == Ok::<Option<AppAction>, AppError>(
                Some(
                    AppAction::TabSelect(
                        (if pre.selected_tab < usize::MAX {
                            pre.selected_tab + 1
                        } else {
                            usize::MAX as int
                        }) as usize,
                    ),
                ),
            )
        },
        AppAction::TabRemoveOrQuit => {
            if pre.tabs@.len() <= 1 {
                post == (App { running: false, ..pre }) && r == Ok::<Option<AppAction>, AppError>(
                    None,
                )
            } else {
                &&& post == (App { tabs: post.tabs, selected_tab: post.selected_tab, ..pre })
                &&& post.tabs@ == pre.tabs@.remove(pre.selected_tab as int)
                &&& post.selected_tab == (if post.tabs@.len() == 0 {
                    0int
                } else if pre.selected_tab < post.tabs@.len() {
                    pre.selected_tab as int
                } else {
                    post.tabs@.len() - 1
                })
                &&& r == Ok::<Option<AppAction>, AppError>(
                    Some(AppAction::TabSelect(pre.selected_tab)),
                )
            }
        },
        AppAction::TabShowPanel => {
            &&& post == (App {
                side_panel: Some(SidePanelState { list: ListSelection { selected: None } }),
                ..pre
            })
            &&& r == Ok::<Option<AppAction>, AppError>(None)
        },
        AppAction::TabHidePanel => {
            post == (App { side_panel: None, ..pre }) && r == Ok::<Option<AppAction>, AppError>(
                None,
            )
        },
        AppAction::TabPanelPrev => {
            &&& r == Ok::<Option<AppAction>, AppError>(None)
            &&& match pre.side_panel {
                Some(sp) => post == (App {
                    side_panel: Some(
                        SidePanelState {
                            list: ListSelection {
                                selected: (if pre.tabs@.len() == 0 {
                                    Option::<usize>::None
                                } else {
                                    match sp.list.selected {
                                        None => Some((pre.tabs@.len() - 1) as usize),
                                        Some(i) => Some((if i > 0 {
                                            i - 1
                                        } else {
                                            0
                                        }) as usize),
                                    }
                                }),
                            },
                        },
                    ),
                    ..pre
                }),
                None => post == pre,
            }
        },
        AppAction::TabPanelNext => {
            &&& r == Ok::<Option<AppAction>, AppError>(None)
            &&& match pre.side_panel {
                Some(sp) => post == (App {
                    side_panel: Some(
                        SidePanelState {
                            list: ListSelection {
                                selected: (if pre.tabs@.len() == 0 {
                                    Option::<usize>::None
                                } else {
                                    match sp.list.selected {
                                        None => Some(0usize),
                                        Some(i) => Some((if i + 1 < pre.tabs@.len() {
                                            i + 1
                                        } else {
                                            pre.tabs@.len() - 1
                                        }) as usize),
                                    }
                                }),
                            },
                        },
                    ),
                    ..pre
                }),
                None => post == pre,
            }
        },
        AppAction::TabPanelSelect => {
            &&& post == (App { side_panel: None, ..pre })
            &&& match pre.side_panel {
                Some(sp) => match sp.list.selected {
                    Some(i) => r == Ok::<Option<AppAction>, AppError>(
                        Some(AppAction::TabSelect(i)),
                    ),
                    None => r == Ok::<Option<AppAction>, AppError>(None),
                },
                None => r == Ok::<Option<AppAction>, AppError>(None),
            }
        },
        AppAction::ExportDsv { .. } | AppAction::ExportParquet(_) | AppAction::ExportJson(_, _)
            | AppAction::ExportArrow(_) => {
            &&& post == pre
            &&& if has_tab(pre) {
                r == Ok::<Option<AppAction>, AppError>(None) || (r matches Err(e) && e is Io)
            } else {
                r matches Err(e) && e is NotFound
            }
        },
        AppAction::ImportDsv { .. } | AppAction::ImportParquet(_) | AppAction::ImportJson(_, _)
            | AppAction::ImportArrow(_) | AppAction::ImportSqlite(_) | AppAction::ImportFwf {
            ..
        } => {
            let src = import_source(a);
            if pre.catalog.model().len() >= CATALOG_CAP {
                unchanged(pre, post) && (r matches Err(e) && e is Unsupported)
            } else {
                (unchanged(pre, post) && (r matches Err(e) && (e is Io || e is Unsupported))) || {
                    &&& imports_applied(pre, post, src)
                    &&& r == Ok::<Option<AppAction>, AppError>(
                        Some(
                            AppAction::TabSelect(
                                (if post.tabs@.len() > 0 {
                                    post.tabs@.len() - 1
                                } else {
                                    0int
                                }) as usize,
                            ),
                        ),
                    )
                }
            }
        },
        AppAction::SchemaNamesSelectPrev => {
            &&& r == Ok::<Option<AppAction>, AppError>(None)
            &&& if pre.content == Content::Schema {
                post == (App {
                    schema_view: crate::schema_view::SchemaViewState {
                        names: ListSelection {
                            selected: (if pre.catalog.model().len() == 0 {
                                Option::<usize>::None
                            } else {
                                match pre.schema_view.names.selected {
                                    None => Some((pre.catalog.model().len() - 1) as usize),
                                    Some(i) => Some((if i > 0 {
                                        i - 1
                                    } else {
                                        0
                                    }) as usize),
                                }
                            }),
                        },
                        ..pre.schema_view
                    },
                    ..pre
                })
            } else {
                post == pre
            }
        },
        AppAction::SchemaNamesSelectNext => {
            &&& r == Ok::<Option<AppAction>, AppError>(None)
            &&& if pre.content == Content::Schema {
                post == (App {
                    schema_view: crate::schema_view::SchemaViewState {
                        names: ListSelection {
                            selected: (if pre.catalog.model().len() == 0 {
                                Option::<usize>::None
                            } else {
                                match pre.schema_view.names.selected {
                                    None => Some(0usize),
                                    Some(i) => Some((if i + 1 < pre.catalog.model().len() {
                                        i + 1
                                    } else {
                                        pre.catalog.model().len() - 1
                                    }) as usize),
                                }
                            }),
                        },
                        ..pre.schema_view
                    },
                    ..pre
                })
            } else {
                post == pre
            }
        },
        AppAction::SchemaNamesSelectFirst => {
            &&& r == Ok::<Option<AppAction>, AppError>(None)
            &&& if pre.content == Content::Schema {
                post == (App {
                    schema_view: crate::schema_view::SchemaViewState {
                        names: ListSelection {
                            selected: (if pre.catalog.model().len() == 0 {
                                Option::<usize>::None
                            } else {
                                Some(0usize)
                            }),
                        },
                        ..pre.schema_view
                    },
                    ..pre
                })
            } else {
                post == pre
            }
        },
        AppAction::SchemaNamesSelectLast => {
            &&& r == Ok::<Option<AppAction>, AppError>(None)
            &&& if pre.content == Content::Schema {
                post == (App {
                    schema_view: crate::schema_view::SchemaViewState {
                        names: ListSelection {
                            selected: (if pre.catalog.model().len() == 0 {
                                Option::<usize>::None
                            } else {
                                Some((pre.catalog.model().len() - 1) as usize)
                            }),
                        },
                        ..pre.schema_view
                    },
                    ..pre
                })
            } else {
                post == pre
            }
        },
        AppAction::SchemaFieldsScrollUp => {
            &&& r == Ok::<Option<AppAction>, AppError>(None)
            &&& if pre.content == Content::Schema {
                post == (App {
                    schema_view: crate::schema_view::SchemaViewState {
                        fields_scroll: Scroll {
                            position: (if pre.schema_view.fields_scroll.position > 0 {
                                pre.schema_view.fields_scroll.position - 1
                            } else {
                                0int
                            }) as usize,
                        },
                        ..pre.schema_view
                    },
                    ..pre
                })
            } else {
                post == pre
            }
        },
        AppAction::SchemaFieldsScrollDown => {
            &&& r == Ok::<Option<AppAction>, AppError>(None)
            &&& if pre.content == Content::Schema {
                post == (App {
                    schema_view: crate::schema_view::SchemaViewState {
                        fields_scroll: Scroll {
                            position: (if pre.schema_view.fields_scroll.position < usize::MAX {
                                pre.schema_view.fields_scroll.position + 1
                            } else {
                                usize::MAX as int
                            }) as usize,
                        },
                        ..pre.schema_view
                    },
                    ..pre
                })
            } else {
                post == pre
            }
        },
        AppAction::SchemaOpenTable => {
            &&& unchanged(pre, post)
            &&& match pre.schema_view.names.selected {
                Some(i) => if i < pre.catalog.model().len() {
                    match first_name_tab(pre.tabs@, pre.catalog.model()[i as int].name@) {
                        Some(t) => r == Ok::<Option<AppAction>, AppError>(
                            Some(AppAction::TabSelect(t as usize)),
                        ),
                        None => r matches Ok(f) && f matches Some(q) && q
                            matches AppAction::TabNewQuery(nm) && nm@ == pre.catalog.model()[
                            i as int
                        ].name@,
                    }
                } else {
                    r matches Err(e) && e is NotFound
                },
                None => r matches Err(e) && e is NotFound,
            }
        },
        AppAction::SchemaUnloadTable => {
            match pre.schema_view.names.selected {
                Some(i) => if i < pre.catalog.model().len() {
                    &&& post == (App { catalog: post.catalog, ..pre })
                    &&& post.catalog.model() == pre.catalog.model().remove(i as int)
                    &&& post.catalog.wf()
                    &&& r == Ok::<Option<AppAction>, AppError>(None)
                } else {
                    unchanged(pre, post) && (r matches Err(e) && e is NotFound)
                },
                None => unchanged(pre, post) && (r matches Err(e) && e is NotFound),
            }
        },
        AppAction::DataFrameInfoShow => if has_tab(pre) {
            modal_step(
                pre,
                post,
                Modal::DataFrameInfo(DataFrameInfoState { scroll: Scroll { position: 0 } }),
            ) && r == Ok::<Option<AppAction>, AppError>(None)
        } else {
            noop(pre, post, r)
        },
        AppAction::DataFrameInfoScrollUp => {
            &&& r == Ok::<Option<AppAction>, AppError>(None)
            &&& if has_tab(pre) {
                match cur_tab(pre).modal {
                    Modal::DataFrameInfo(s) => modal_step(
                        pre,
                        post,
                        Modal::DataFrameInfo(
                            DataFrameInfoState {
                                scroll: Scroll {
                                    position: (if s.scroll.position > 0 {
                                        s.scroll.position - 1
                                    } else {
                                        0int
                                    }) as usize,
                                },
                            },
                        ),
                    ),
                    _ => unchanged(pre, post),
                }
            } else {
                unchanged(pre, post)
            }
        },
        AppAction::DataFrameInfoScrollDown => {
            &&& r == Ok::<Option<AppAction>, AppError>(None)
            &&& if has_tab(pre) {
                match cur_tab(pre).modal {
                    Modal::DataFrameInfo(s) => modal_step(
                        pre,
                        post,
                        Modal::DataFrameInfo(
                            DataFrameInfoState {
                                scroll: Scroll {
                                    position: (if s.scroll.position < usize::MAX {
                                        s.scroll.position + 1
                                    } else {
                                        usize::MAX as int
                                    }) as usize,
                                },
                            },
                        ),
                    ),
                    _ => unchanged(pre, post),
                }
            } else {
                unchanged(pre, post)
            }
        },
        AppAction::ScatterPlot(_, _, _) => {
            if has_tab(pre) {
                (unchanged(pre, post) && (r matches Err(e) && (e is NotFound || e is Sql))) || {
                    &&& r == Ok::<Option<AppAction>, AppError>(None)
                    &&& tab_step(pre, post, PaneState { modal: post.tabs@[pre.selected_tab as int].modal, ..cur_tab(pre) })
                    &&& post.tabs@[pre.selected_tab as int].modal is ScatterPlot
                }
            } else {
                noop(pre, post, r)
            }
        },
        AppAction::HistogramPlot(_, _) => {
            if has_tab(pre) {
                (unchanged(pre, post) && (r matches Err(e) && e is NotFound)) || {
                    &&& r == Ok::<Option<AppAction>, AppError>(None)
                    &&& tab_step(pre, post, PaneState { modal: post.tabs@[pre.selected_tab as int].modal, ..cur_tab(pre) })
                    &&& post.tabs@[pre.selected_tab as int].modal is HistogramPlot
                }
            } else {
                noop(pre, post, r)
            }
        },
        AppAction::HistogramScrollUp => {
            &&& r == Ok::<Option<AppAction>, AppError>(None)
            &&& if has_tab(pre) {
                match cur_tab(pre).modal {
                    Modal::HistogramPlot(h) => modal_step(
                        pre,
                        post,
                        Modal::HistogramPlot(
                            HistogramPlotState {
                                scroll: Scroll {
                                    position: (if h.scroll.position > 0 {
                                        h.scroll.position - 1
                                    } else {
                                        0int
                                    }) as usize,
                                },
                                ..h
                            },
                        ),
                    ),
                    _ => unchanged(pre, post),
                }
            } else {
                unchanged(pre, post)
            }
        },
        AppAction::HistogramScrollDown => {
            &&& r == Ok::<Option<AppAction>, AppError>(None)
            &&& if has_tab(pre) {
                match cur_tab(pre).modal {
                    Modal::HistogramPlot(h) => modal_step(
                        pre,
                        post,
                        Modal::HistogramPlot(
                            HistogramPlotState {
                                scroll: Scroll {
                                    position: (if h.scroll.position < usize::MAX {
                                        h.scroll.position + 1
                                    } else {
                                        usize::MAX as int
                                    }) as usize,
                                },
                                ..h
                            },
                        ),
                    ),
                    _ => unchanged(pre, post),
                }
            } else {
                unchanged(pre, post)
            }
        },
        AppAction::ThemeSelectorShow => {
            &&& post == (App { theme_selector: post.theme_selector, ..pre })
            &&& post.theme_selector matches Some(ts) && ts.rollback_theme() == pre.theme
                && ts.list.selected is None && ts.input.text().len() == 0
            &&& r == Ok::<Option<AppAction>, AppError>(None)
        },
        AppAction::ThemeSelectorSelectPrev => {
            &&& r == Ok::<Option<AppAction>, AppError>(None)
            &&& match pre.theme_selector {
                Some(ts) => {
                    &&& post == (App { theme_selector: post.theme_selector, ..pre })
                    &&& post.theme_selector matches Some(ts2) && ts2.input == ts.input
                        && ts2.rollback_theme() == ts.rollback_theme() && ts2.list.selected == (
                    match ts.list.selected {
                        None => Some(1usize),
                        Some(i) => Some((if i > 0 {
                            i - 1
                        } else {
                            0
                        }) as usize),
                    })
                },
                None => post == pre,
            }
        },
        AppAction::ThemeSelectorSelectNext => {
            &&& r == Ok::<Option<AppAction>, AppError>(None)
            &&& match pre.theme_selector {
                Some(ts) => {
                    &&& post == (App { theme_selector: post.theme_selector, ..pre })
                    &&& post.theme_selector matches Some(ts2) && ts2.input == ts.input
                        && ts2.rollback_theme() == ts.rollback_theme() && ts2.list.selected == (
                    match ts.list.selected {
                        None => Some(0usize),
                        Some(i) => Some((if i + 1 < 2 {
                            i + 1
                        } else {
                            1
                        }) as usize),
                    })
                },
                None => post == pre,
            }
        },
        AppAction::ThemeSelectorRollback => {
            match pre.theme_selector {
                Some(ts) => {
                    &&& post == (App { theme_selector: None, ..pre })
                    &&& r == Ok::<Option<AppAction>, AppError>(
                        Some(AppAction::PreviewTheme(ts.rollback_theme())),
                    )
                },
                None => noop(pre, post, r),
            }
        },
        AppAction::ThemeSelectorCommit => {
            match pre.theme_selector {
                Some(_) => {
                    &&& post == (App { theme_selector: None, ..pre })
                    &&& r == Ok::<Option<AppAction>, AppError>(Some(AppAction::StoreConfig))
                },
                None => noop(pre, post, r),
            }
        },
        AppAction::ThemeSelectorHandleEvent(_) => {
            &&& r == Ok::<Option<AppAction>, AppError>(None)
            &&& match pre.theme_selector {
                Some(ts) => {
                    &&& post == (App { theme_selector: post.theme_selector, ..pre })
                    &&& post.theme_selector matches Some(ts2) && ts2.wf() && ts2.rollback_theme()
                        == ts.rollback_theme() && ts2.list == ts.list && crate::input::key_edit(
                        ts.input,
                        a->ThemeSelectorHandleEvent_0,
                        ts2.input,
                    )
                },
                None => post == pre,
            }
        },
    }
}

/// The source an import action reads from.
pub open spec fn import_source(a: AppAction) -> Source {
    match a {
        AppAction::ImportDsv { source, .. } => source,
        AppAction::ImportParquet(s) => s,
        AppAction::ImportJson(s, _) => s,
        AppAction::ImportArrow(s) => s,
        AppAction::ImportSqlite(s) => s,
        AppAction::ImportFwf { source, .. } => source,
        _ => Source::Derived,
    }
}


/// Whether the action navigates the selected tab's table.
pub open spec fn is_tab_nav(a: AppAction) -> bool {
    match a {
        AppAction::TableScrollLeft | AppAction::TableScrollLeftColumn
            | AppAction::TableScrollRight | AppAction::TableScrollRightColumn
            | AppAction::TableScrollStart | AppAction::TableScrollEnd
            | AppAction::TableToggleExpansion | AppAction::TableGotoFirst
            | AppAction::TableGotoLast | AppAction::TableGotoRandom | AppAction::TableGoUp(_)
            | AppAction::TableGoUpHalfPage | AppAction::TableGoUpFullPage
            | AppAction::TableGoDown(_) | AppAction::TableGoDownHalfPage
            | AppAction::TableGoDownFullPage | AppAction::TableSetDataFrame(_) => true,
        _ => false,
    }
}

/// Whether the action drives the selected tab's overlay.
pub open spec fn is_tab_modal(a: AppAction) -> bool {
    match a {
        AppAction::TableDismissModal | AppAction::SheetShow | AppAction::SheetScrollUp
            | AppAction::SheetScrollDown | AppAction::InlineQueryShow(_)
            | AppAction::DataFrameInfoShow | AppAction::DataFrameInfoScrollUp
            | AppAction::DataFrameInfoScrollDown | AppAction::HistogramScrollUp
            | AppAction::HistogramScrollDown => true,
        _ => false,
    }
}

/// Whether the action drives the selected tab's search overlay.
pub open spec fn is_tab_search(a: AppAction) -> bool {
    match a {
        AppAction::SearchFuzzyShow | AppAction::SearchExactShow | AppAction::SearchGotoNext
            | AppAction::SearchGotoPrev | AppAction::SearchGotoNextWord
            | AppAction::SearchGotoPrevWord | AppAction::SearchGotoStart
            | AppAction::SearchGotoEnd | AppAction::SearchDeleteNext
            | AppAction::SearchDeletePrev | AppAction::SearchDeleteNextWord
            | AppAction::SearchDeletePrevWord | AppAction::SearchInsert(_)
            | AppAction::SearchRollback | AppAction::SearchCommit => true,
        _ => false,
    }
}

/// Removing an element and putting another back in its place is an update.
proof fn lemma_remove_insert(s: Seq<PaneState>, i: int, x: PaneState)
    requires
        0 <= i < s.len(),
    ensures
        s.remove(i).insert(i, x) =~= s.update(i, x),
{
}

/// Applies a table navigation action to the selected tab.
#[verifier::rlimit(60)]
fn tab_nav_action(a: AppAction, app: &mut App) -> (r: AppResult<Option<AppAction>>)
    requires
        old(app).wf(),
        is_tab_nav(a),
    ensures
        final(app).wf(),
        step(a, *old(app), *final(app), r),
        r matches Ok(f) ==> f is None,
{
    if app.tabs.len() == 0 || app.selected_tab >= app.tabs.len() {
        return Ok(None);
    }
    let i = app.selected_tab;
    let ghost pre = *app;
    let mut t = app.tabs.remove(i);
    let ghost t0 = t;
    let ghost mut wit_row: usize = 0usize;
    proof {
        assert(t0 == cur_tab(pre));
    }
    match &a {
        AppAction::TableScrollLeft => t.table.scroll_left(),
        AppAction::TableScrollLeftColumn => t.table.scroll_left_column(),
        AppAction::TableScrollRight => t.table.scroll_right(),
        AppAction::TableScrollRightColumn => t.table.scroll_right_column(),
        AppAction::TableScrollStart => t.table.scroll_start(),
        AppAction::TableScrollEnd => t.table.scroll_end(),
        AppAction::TableToggleExpansion => {
            let _ = t.table.toggle_expansion();
        },
        AppAction::TableGotoFirst => t.table.select_first(),
        AppAction::TableGotoLast => t.table.select_last(),
        AppAction::TableGotoRandom => {
            let h = t.table.height();
            if h > 0 {
                let row = random_below(h);
                t.table.select(row);
                proof {
                    wit_row = t.table.selected;
                    assert(t.table.selected < t0.table.frame@.height);
                }
            }
        },
        AppAction::TableGoUp(lines) => t.table.select_up(*lines),
        AppAction::TableGoUpHalfPage => {
            let lines = t.table.rendered_rows() / 2;
            t.table.select_up(lines);
        },
        AppAction::TableGoUpFullPage => {
            let lines = t.table.rendered_rows();
            t.table.select_up(lines);
        },
        AppAction::TableGoDown(lines) => t.table.select_down(*lines),
        AppAction::TableGoDownHalfPage => {
            let lines = t.table.rendered_rows() / 2;
            t.table.select_down(lines);
        },
        AppAction::TableGoDownFullPage => {
            let lines = t.table.rendered_rows();
            t.table.select_down(lines);
        },
        AppAction::TableSetDataFrame(df) => {
            t.table.set_data_frame(df.duplicate());
        },
        _ => (),
    }
    let ghost t1 = t;
    app.tabs.insert(i, t);
    proof {
        lemma_remove_insert(pre.tabs@, i as int, t1);
        assert(app.tabs@ =~= pre.tabs@.update(i as int, t1));
        assert(*app == (App { tabs: app.tabs, ..pre }));
        assert(t1.wf());
        assert forall|j: int| 0 <= j < app.tabs@.len() implies (#[trigger] app.tabs@[j]).wf() by {
            if j != i as int {
                assert(app.tabs@[j] == pre.tabs@[j]);
            }
        }
        assert(app.wf());
        if t1 == t0 {
            assert(app.tabs@ =~= pre.tabs@);
        }
        if a is TableGotoRandom && t0.table.frame@.height > 0 {
            assert(random_step(pre, *app, wit_row));
        }
    }
    Ok(None)
}

/// Applies an overlay action to the selected tab.
#[verifier::rlimit(60)]
fn tab_modal_action(a: AppAction, app: &mut App) -> (r: AppResult<Option<AppAction>>)
    requires
        old(app).wf(),
        is_tab_modal(a),
    ensures
        final(app).wf(),
        step(a, *old(app), *final(app), r),
        r matches Ok(f) ==> f is None,
{
    if app.tabs.len() == 0 || app.selected_tab >= app.tabs.len() {
        return Ok(None);
    }
    let i = app.selected_tab;
    let ghost pre = *app;
    let mut t = app.tabs.remove(i);
    let ghost t0 = t;
    proof {
        assert(t0 == cur_tab(pre));
    }
    match &a {
        AppAction::TableDismissModal => {
            t.modal = Modal::Hidden;
        },
        AppAction::SheetShow => {
            t.show_sheet();
        },
        AppAction::SheetScrollUp => {
            match &mut t.modal {
                Modal::Sheet(s) => s.scroll_up(),
                _ => (),
            }
        },
        AppAction::SheetScrollDown => {
            match &mut t.modal {
                Modal::Sheet(s) => s.scroll_down(),
                _ => (),
            }
        },
        AppAction::InlineQueryShow(kind) => t.show_inline_query(*kind),
        AppAction::DataFrameInfoShow => t.show_data_frame_info(),
        AppAction::DataFrameInfoScrollUp => {
            match &mut t.modal {
                Modal::DataFrameInfo(s) => s.scroll.up(),
                _ => (),
            }
        },
        AppAction::DataFrameInfoScrollDown => {
            match &mut t.modal {
                Modal::DataFrameInfo(s) => s.scroll.down(),
                _ => (),
            }
        },
        AppAction::HistogramScrollUp => {
            match &mut t.modal {
                Modal::HistogramPlot(h) => h.scroll_up(),
                _ => (),
            }
        },
        AppAction::HistogramScrollDown => {
            match &mut t.modal {
                Modal::HistogramPlot(h) => h.scroll_down(),
                _ => (),
            }
        },
        _ => (),
    }
    let ghost t1 = t;
    app.tabs.insert(i, t);
    proof {
        lemma_remove_insert(pre.tabs@, i as int, t1);
        assert(app.tabs@ =~= pre.tabs@.update(i as int, t1));
        assert(*app == (App { tabs: app.tabs, ..pre }));
        assert(t1.wf());
        assert forall|j: int| 0 <= j < app.tabs@.len() implies (#[trigger] app.tabs@[j]).wf() by {
            if j != i as int {
                assert(app.tabs@[j] == pre.tabs@[j]);
            }
        }
        assert(app.wf());
        if t1 == t0 {
            assert(app.tabs@ =~= pre.tabs@);
        }
    }
    Ok(None)
}

/// Applies a search action to the selected tab.
#[verifier::rlimit(60)]
fn tab_search_action(a: AppAction, app: &mut App) -> (r: AppResult<Option<AppAction>>)
    requires
        old(app).wf(),
        is_tab_search(a),
    ensures
        final(app).wf(),
        step(a, *old(app), *final(app), r),
        r matches Ok(f) ==> f is None,
{
    if app.tabs.len() == 0 || app.selected_tab >= app.tabs.len() {
        return Ok(None);
    }
    let i = app.selected_tab;
    let ghost pre = *app;
    let mut t = app.tabs.remove(i);
    let ghost t0 = t;
    proof {
        assert(t0 == cur_tab(pre));
    }
    match &a {
        AppAction::SearchFuzzyShow => t.show_fuzzy_search(),
        AppAction::SearchExactShow => t.show_exact_search(),
        AppAction::SearchRollback => {
            let m = t.modal_take();
            match m {
                Modal::SearchBar(sb) => {
                    let df = sb.into_rollback_df();
                    t.table.set_data_frame(df);
                },
                _ => (),
            }
        },
        AppAction::SearchCommit => {
            let m = t.modal_take();
            match m {
                Modal::SearchBar(sb) => {
                    match sb.latest {
                        Some(df) => {
                            t.table.set_data_frame(df);
                        },
                        None => (),
                    }
                },
                _ => (),
            }
        },
        _ => {
            match &mut t.modal {
                Modal::SearchBar(sb) => {
                    match &a {
                        AppAction::SearchGotoNext => sb.input.goto_next(),
                        AppAction::SearchGotoPrev => sb.input.goto_prev(),
                        AppAction::SearchGotoNextWord => sb.input.goto_next_word(),
                        AppAction::SearchGotoPrevWord => sb.input.goto_prev_word(),
                        AppAction::SearchGotoStart => sb.input.goto_start(),
                        AppAction::SearchGotoEnd => sb.input.goto_end(),
                        AppAction::SearchDeleteNext => sb.input.delete_next(),
                        AppAction::SearchDeletePrev => sb.input.delete_prev(),
                        AppAction::SearchDeleteNextWord => sb.input.delete_next_word(),
                        AppAction::SearchDeletePrevWord => sb.input.delete_prev_word(),
                        AppAction::SearchInsert(c) => sb.input.insert(*c),
                        _ => (),
                    }
                },
                _ => (),
            }
            proof {
                if t0.modal is SearchBar {
                    assert(edit_rel(t0.modal->SearchBar_0.input, a, t.modal->SearchBar_0.input));
                }
            }
        },
    }
    let ghost t1 = t;
    app.tabs.insert(i, t);
    proof {
        lemma_remove_insert(pre.tabs@, i as int, t1);
        assert(app.tabs@ =~= pre.tabs@.update(i as int, t1));
        assert(*app == (App { tabs: app.tabs, ..pre }));
        assert(t1.wf());
        assert forall|j: int| 0 <= j < app.tabs@.len() implies (#[trigger] app.tabs@[j]).wf() by {
            if j != i as int {
                assert(app.tabs@[j] == pre.tabs@[j]);
            }
        }
        assert(app.wf());
        if t1 == t0 {
            assert(app.tabs@ =~= pre.tabs@);
        }
        if (a is SearchGotoNext || a is SearchGotoPrev || a is SearchGotoNextWord
            || a is SearchGotoPrevWord || a is SearchGotoStart || a is SearchGotoEnd
            || a is SearchDeleteNext || a is SearchDeletePrev || a is SearchDeleteNextWord
            || a is SearchDeletePrevWord || a is SearchInsert) && t0.modal is SearchBar {
            assert(search_edit_step(pre, *app, t1.modal->SearchBar_0.input));
        }
    }
    Ok(None)
}


/// The catalog entry at offset `j` past the old length, for stating loop
/// facts.
pub open spec fn old_model_entry(pre: App, post: App, j: int) -> TableInfo {
    post.catalog.model()[pre.catalog.model().len() + j]
}

/// Copies a source tag.
fn clone_source(s: &Source) -> (r: Source)
    ensures
        r == *s,
{
    match s {
        Source::File(p) => Source::File(p.clone()),
        Source::Stdin => Source::Stdin,
        Source::User => Source::User,
        Source::Derived => Source::Derived,
    }
}

/// The column-selection query the `select` command rewrites to.
fn build_select_query(s: &str) -> (r: String)
    ensures
        r@ == "SELECT "@ + s@ + " FROM _"@,
{
    let mut q = "SELECT ".to_owned();
    q.append(s);
    q.append(" FROM _");
    q
}

/// The ordering query the `order` command rewrites to.
fn build_order_query(s: &str) -> (r: String)
    ensures
        r@ == "SELECT * FROM _ ORDER BY "@ + s@,
{
    let mut q = "SELECT * FROM _ ORDER BY ".to_owned();
    q.append(s);
    q
}

/// The filtering query the `filter` command rewrites to.
fn build_filter_query(s: &str) -> (r: String)
    ensures
        r@ == "SELECT * FROM _ where "@ + s@,
{
    let mut q = "SELECT * FROM _ where ".to_owned();
    q.append(s);
    q
}

/// The whole-table query a named tab resets to.
fn build_name_query(n: &str) -> (r: String)
    ensures
        r@ == "SELECT * FROM '"@ + n@ + "'"@,
{
    let mut q = "SELECT * FROM '".to_owned();
    q.append(n);
    q.append("'");
    q
}

/// `first_help_tab` names the least index of a help tab.
proof fn lemma_first_help_tab(tabs: Seq<PaneState>)
    ensures
        match first_help_tab(tabs) {
            Some(i) => 0 <= i < tabs.len() && tabs[i].table_type is Help && forall|j: int|
                0 <= j < i ==> !((#[trigger] tabs[j]).table_type is Help),
            None => forall|j: int| 0 <= j < tabs.len() ==> !((#[trigger] tabs[j]).table_type
                is Help),
        },
    decreases tabs.len(),
{
    if tabs.len() > 0 && !(tabs[0].table_type is Help) {
        let t = tabs.drop_first();
        lemma_first_help_tab(t);
        assert(forall|j: int| 0 <= j < t.len() ==> t[j] == tabs[j + 1]);
        match first_help_tab(t) {
            Some(i) => {
                assert forall|j: int| 0 <= j < i + 1 implies !((#[trigger] tabs[j]).table_type
                    is Help) by {
                    if j > 0 {
                        assert(tabs[j] == t[j - 1]);
                    }
                }
            },
            None => {
                assert forall|j: int| 0 <= j < tabs.len() implies !((
                #[trigger] tabs[j]).table_type is Help) by {
                    if j > 0 {
                        assert(tabs[j] == t[j - 1]);
                    }
                }
            },
        }
    }
}

/// Finds the first help tab.
fn find_help_tab(tabs: &Vec<PaneState>) -> (r: Option<usize>)
    ensures
        match r {
            Some(i) => first_help_tab(tabs@) == Some(i as int),
            None => first_help_tab(tabs@) is None,
        },
{
    proof {
        lemma_first_help_tab(tabs@);
    }
    let n = tabs.len();
    let mut i: usize = 0;
    while i < n
        invariant
            0 <= i <= n == tabs@.len(),
            forall|j: int| 0 <= j < i ==> !((#[trigger] tabs@[j]).table_type is Help),
            first_help_tab(tabs@) matches Some(k) ==> i <= k,
        decreases n - i,
    {
        let is_help = match &tabs[i].table_type {
            TableType::Help => true,
            _ => false,
        };
        proof {
            lemma_first_help_tab(tabs@);
        }
        if is_help {
            return Some(i);
        }
        i = i + 1;
    }
    proof {
        lemma_first_help_tab(tabs@);
    }
    None
}

/// `first_name_tab` names the least index of a tab with the name.
proof fn lemma_first_name_tab(tabs: Seq<PaneState>, name: Seq<char>)
    ensures
        match first_name_tab(tabs, name) {
            Some(i) => 0 <= i < tabs.len() && (tabs[i].table_type matches TableType::Name(n) && n@
                == name) && forall|j: int|
                0 <= j < i ==> !((#[trigger] tabs[j]).table_type matches TableType::Name(n) && n@
                    == name),
            None => forall|j: int|
                0 <= j < tabs.len() ==> !((#[trigger] tabs[j]).table_type
                    matches TableType::Name(n) && n@ == name),
        },
    decreases tabs.len(),
{
    if tabs.len() > 0 && !(tabs[0].table_type matches TableType::Name(n) && n@ == name) {
        let t = tabs.drop_first();
        lemma_first_name_tab(t, name);
        assert(forall|j: int| 0 <= j < t.len() ==> t[j] == tabs[j + 1]);
        match first_name_tab(t, name) {
            Some(i) => {
                assert forall|j: int| 0 <= j < i + 1 implies !((
                #[trigger] tabs[j]).table_type matches TableType::Name(n) && n@ == name) by {
                    if j > 0 {
                        assert(tabs[j] == t[j - 1]);
                    }
                }
            },
            None => {
                assert forall|j: int| 0 <= j < tabs.len() implies !((
                #[trigger] tabs[j]).table_type matches TableType::Name(n) && n@ == name) by {
                    if j > 0 {
                        assert(tabs[j] == t[j - 1]);
                    }
                }
            },
        }
    }
}

/// Finds the first tab holding the catalog name.
fn find_name_tab(tabs: &Vec<PaneState>, name: &str) -> (r: Option<usize>)
    ensures
        match r {
            Some(i) => first_name_tab(tabs@, name@) == Some(i as int),
            None => first_name_tab(tabs@, name@) is None,
        },
{
    proof {
        lemma_first_name_tab(tabs@, name@);
    }
    let n = tabs.len();
    let mut i: usize = 0;
    while i < n
        invariant
            0 <= i <= n == tabs@.len(),
            forall|j: int|
                0 <= j < i ==> !((#[trigger] tabs@[j]).table_type matches TableType::Name(nm)
                    && nm@ == name@),
            first_name_tab(tabs@, name@) matches Some(k) ==> i <= k,
        decreases n - i,
    {
        let matches_name = match &tabs[i].table_type {
            TableType::Name(nm) => crate::text::str_eq(nm.as_str(), name),
            _ => false,
        };
        proof {
            lemma_first_name_tab(tabs@, name@);
        }
        if matches_name {
            return Some(i);
        }
        i = i + 1;
    }
    proof {
        lemma_first_name_tab(tabs@, name@);
    }
    None
}

/// Registers each read frame in order and opens one tab per frame, the tab
/// holding the registered name and its own copy of the frame.
#[verifier::rlimit(60)]
pub fn register_frames(app: &mut App, frames: Vec<(String, DataFrame)>, source: Source) -> (r:
    AppResult<Option<AppAction>>)
    requires
        old(app).wf(),
        old(app).catalog.model().len() + frames@.len() <= CATALOG_CAP,
    ensures
        final(app).wf(),
        imports_applied(*old(app), *final(app), source),
        final(app).tabs@.len() == old(app).tabs@.len() + frames@.len(),
        forall|j: int|
            0 <= j < frames@.len() ==> {
                let e = final(app).catalog.model()[old(app).catalog.model().len() + j];
                &&& e.frame@ == (#[trigger] frames@[j]).1@
                &&& e.name@ == staged_name(
                    frames@[j].0@,
                    crate::sql::assigned_stage(
                        final(app).catalog.names().take(old(app).catalog.model().len() + j),
                        frames@[j].0@,
                    ),
                )
            },
        r == Ok::<Option<AppAction>, AppError>(
            Some(
                AppAction::TabSelect(
                    (if final(app).tabs@.len() > 0 {
                        final(app).tabs@.len() - 1
                    } else {
                        0int
                    }) as usize,
                ),
            ),
        ),
{
    let ghost pre = *app;
    let ghost orig = frames@;
    let mut remaining = frames;
    let mut k: usize = 0;
    while remaining.len() > 0
        invariant
            app.wf(),
            k + remaining@.len() == orig.len(),
            remaining@ == orig.skip(k as int),
            pre.catalog.model().len() + orig.len() <= CATALOG_CAP,
            app.catalog.model().len() == pre.catalog.model().len() + k,
            app.tabs@.len() == pre.tabs@.len() + k,
            *app == (App { tabs: app.tabs, catalog: app.catalog, ..pre }),
            forall|j: int| 0 <= j < pre.tabs@.len() ==> app.tabs@[j] == pre.tabs@[j],
            forall|j: int|
                0 <= j < pre.catalog.model().len() ==> app.catalog.model()[j]
                    == pre.catalog.model()[j],
            forall|j: int|
                pre.tabs@.len() <= j < app.tabs@.len() ==> {
                    let e = app.catalog.model()[pre.catalog.model().len() + (j - pre.tabs@.len())];
                    &&& (#[trigger] app.tabs@[j]).table_type matches TableType::Name(nm) && nm@
                        == e.name@
                    &&& app.tabs@[j].table.frame@ == e.frame@
                    &&& app.tabs@[j].table.selected == 0
                    &&& app.tabs@[j].modal is Hidden
                    &&& app.tabs@[j].wf()
                    &&& e.source == source
                },
            forall|j: int|
                0 <= j < k ==> {
                    let e = app.catalog.model()[pre.catalog.model().len() + j];
                    &&& e.frame@ == (#[trigger] orig[j]).1@
                    &&& e.name@ == staged_name(
                        orig[j].0@,
                        crate::sql::assigned_stage(
                            app.catalog.names().take(pre.catalog.model().len() + j),
                            orig[j].0@,
                        ),
                    )
                },
        decreases remaining@.len(),
    {
        let (name, df) = remaining.remove(0);
        proof {
            assert(orig[k as int] == (name, df));
            assert(remaining@ =~= orig.skip(k + 1));
        }
        proof {
            app.catalog.lemma_names();
        }
        let ghost names_before = app.catalog.names();
        let df_copy = df.duplicate();
        let assigned = app.catalog.register(name.as_str(), df, clone_source(&source));
        let assigned_for_tab = assigned.clone();
        app.tabs.push(PaneState::new(df_copy, TableType::Name(assigned_for_tab)));
        k = k + 1;
        proof {
            let plen = pre.catalog.model().len() as int;
            assert(app.catalog.names() == names_before.push(assigned@));
            assert(names_before.len() == plen + (k - 1));
            assert forall|m: int| 0 <= m <= names_before.len() implies app.catalog.names().take(m)
                =~= names_before.take(m) by {
                assert forall|t: int| 0 <= t < m implies app.catalog.names().take(m)[t]
                    == names_before.take(m)[t] by {
                    assert(app.catalog.names()[t] == names_before[t]);
                }
            }
            assert(names_before.take(names_before.len() as int) =~= names_before);
            assert(app.catalog.names().take(plen + (k - 1)) =~= names_before);
            assert(app.tabs@.last().table.frame@ == orig[k - 1].1@);
            assert(app.catalog.model()[plen + (k - 1)].name@ == assigned@);
            assert(assigned@ == staged_name(
                orig[k - 1].0@,
                crate::sql::assigned_stage(names_before, orig[k - 1].0@),
            ));
            assert forall|j: int|
                0 <= j < k implies {
                let e = app.catalog.model()[plen + j];
                &&& e.frame@ == (#[trigger] orig[j]).1@
                &&& e.name@ == staged_name(
                    orig[j].0@,
                    crate::sql::assigned_stage(app.catalog.names().take(plen + j), orig[j].0@),
                )
            } by {
                if j < k - 1 {
                    assert(app.catalog.model()[plen + j] == old_model_entry(pre, *app, j));
                    assert(app.catalog.names().take(plen + j) =~= names_before.take(plen + j));
                } else {
                    assert(app.catalog.names().take(plen + j) =~= names_before);
                }
            }
            assert(app.wf());
        }
    }
    proof {
        assert(app.tabs@.len() == pre.tabs@.len() + orig.len());
        assert(imports_applied(pre, *app, source));
    }
    let last = if app.tabs.len() > 0 {
        app.tabs.len() - 1
    } else {
        0
    };
    Ok(Some(AppAction::TabSelect(last)))
}


/// Whether the action edits or drives the palette (without committing).
pub open spec fn is_palette_local(a: AppAction) -> bool {
    match a {
        AppAction::PaletteGotoNext | AppAction::PaletteGotoPrev | AppAction::PaletteGotoNextWord
            | AppAction::PaletteGotoPrevWord | AppAction::PaletteGotoStart
            | AppAction::PaletteGotoEnd | AppAction::PaletteDeleteNext
            | AppAction::PaletteDeletePrev | AppAction::PaletteDeleteNextWord
            | AppAction::PaletteDeletePrevWord | AppAction::PaletteInsert(_)
            | AppAction::PaletteSelectPrevious | AppAction::PaletteSelectNext
            | AppAction::PaletteDeselectOrDismiss => true,
        _ => false,
    }
}

/// Applies a palette keystroke.
#[verifier::rlimit(60)]
fn palette_action(a: AppAction, app: &mut App) -> (r: AppResult<Option<AppAction>>)
    requires
        old(app).wf(),
        is_palette_local(a),
    ensures
        final(app).wf(),
        step(a, *old(app), *final(app), r),
        r matches Ok(f) ==> f is None,
{
    let ghost pre = *app;
    let hist_len = app.history.len();
    match &a {
        AppAction::PaletteDeselectOrDismiss => {
            let sel: Option<Option<usize>> = match &app.palette {
                Some(p) => Some(p.list.selected()),
                None => None,
            };
            match sel {
                Some(Some(_)) => {
                    match &mut app.palette {
                        Some(p) => p.list.select(None),
                        None => (),
                    }
                },
                Some(None) => {
                    app.palette = None;
                },
                None => (),
            }
            return Ok(None);
        },
        _ => (),
    }
    match &mut app.palette {
        Some(p) => {
            match &a {
                AppAction::PaletteGotoNext => p.input.goto_next(),
                AppAction::PaletteGotoPrev => p.input.goto_prev(),
                AppAction::PaletteGotoNextWord => p.input.goto_next_word(),
                AppAction::PaletteGotoPrevWord => p.input.goto_prev_word(),
                AppAction::PaletteGotoStart => p.input.goto_start(),
                AppAction::PaletteGotoEnd => p.input.goto_end(),
                AppAction::PaletteDeleteNext => p.input.delete_next(),
                AppAction::PaletteDeletePrev => p.input.delete_prev(),
                AppAction::PaletteDeleteNextWord => p.input.delete_next_word(),
                AppAction::PaletteDeletePrevWord => p.input.delete_prev_word(),
                AppAction::PaletteInsert(c) => {
                    p.input.insert(*c);
                    p.list.select(None);
                },
                AppAction::PaletteSelectPrevious => p.list.select_previous(hist_len),
                AppAction::PaletteSelectNext => p.list.select_next(hist_len),
                _ => (),
            }
        },
        None => (),
    }
    Ok(None)
}

/// Commits the palette: a highlighted history entry is copied into the
/// input; otherwise the typed line goes to the history and is parsed.
#[verifier::rlimit(60)]
fn palette_commit(app: &mut App) -> (r: AppResult<Option<AppAction>>)
    requires
        old(app).wf(),
    ensures
        final(app).wf(),
        step(AppAction::PaletteInsertSelectedOrCommit, *old(app), *final(app), r),
        match r {
            Ok(Some(n)) => action_rank(n) < 4,
            _ => true,
        },
{
    let ghost pre = *app;
    let selection: Option<Option<usize>> = match &app.palette {
        Some(p) => Some(p.list.selected()),
        None => None,
    };
    match selection {
        None => Ok(None),
        Some(Some(si)) => {
            if si < app.history.len() {
                let cmd = app.history[si].clone();
                match &mut app.palette {
                    Some(p) => {
                        p.set_input(cmd);
                        p.list.select(None);
                    },
                    None => (),
                }
            }
            Ok(None)
        },
        Some(None) => {
            let taken = app.palette.take();
            let cmd: String = match taken {
                Some(p) => p.input.value().to_owned(),
                None => String::new(),
            };
            if cmd.as_str().is_empty() {
                Ok(Some(AppAction::PaletteDeselectOrDismiss))
            } else {
                app.history.push(cmd.clone());
                match parse_into_action(cmd.as_str()) {
                    Ok(f) => Ok(Some(f)),
                    Err(e) => Err(e),
                }
            }
        },
    }
}

/// Whether the action drives the theme selector.
pub open spec fn is_theme_local(a: AppAction) -> bool {
    match a {
        AppAction::ThemeSelectorShow | AppAction::ThemeSelectorSelectPrev
            | AppAction::ThemeSelectorSelectNext | AppAction::ThemeSelectorRollback
            | AppAction::ThemeSelectorCommit | AppAction::ThemeSelectorHandleEvent(_) => true,
        _ => false,
    }
}

/// Applies a theme selector action.
#[verifier::rlimit(60)]
fn theme_action(a: AppAction, app: &mut App) -> (r: AppResult<Option<AppAction>>)
    requires
        old(app).wf(),
        is_theme_local(a),
    ensures
        final(app).wf(),
        step(a, *old(app), *final(app), r),
        match r {
            Ok(Some(n)) => action_rank(n) < 2,
            _ => true,
        },
{
    let ghost pre = *app;
    match &a {
        AppAction::ThemeSelectorShow => {
            app.theme_selector = Some(ThemeSelectorState::new(app.theme));
            Ok(None)
        },
        AppAction::ThemeSelectorSelectPrev => {
            match &mut app.theme_selector {
                Some(ts) => {
                    let sel = ts.list.selected();
                    match sel {
                        None => ts.list.select(Some(1)),
                        Some(i) => ts.list.select(Some(if i > 0 {
                            i - 1
                        } else {
                            0
                        })),
                    }
                },
                None => (),
            }
            Ok(None)
        },
        AppAction::ThemeSelectorSelectNext => {
            match &mut app.theme_selector {
                Some(ts) => {
                    let sel = ts.list.selected();
                    match sel {
                        None => ts.list.select(Some(0)),
                        Some(i) => ts.list.select(Some(if i < 1 {
                            i + 1
                        } else {
                            1
                        })),
                    }
                },
                None => (),
            }
            Ok(None)
        },
        AppAction::ThemeSelectorRollback => {
            let taken = app.theme_selector.take();
            match taken {
                Some(ts) => Ok(Some(AppAction::PreviewTheme(ts.into_rollback_theme()))),
                None => Ok(None),
            }
        },
        AppAction::ThemeSelectorCommit => {
            let taken = app.theme_selector.take();
            match taken {
                Some(_) => Ok(Some(AppAction::StoreConfig)),
                None => Ok(None),
            }
        },
        AppAction::ThemeSelectorHandleEvent(key) => {
            match &mut app.theme_selector {
                Some(ts) => ts.handle(*key),
                None => (),
            }
            Ok(None)
        },
        _ => {
            proof {
                assert(false);
            }
            Ok(None)
        },
    }
}

/// Whether the action drives the schema browser's lists.
pub open spec fn is_schema_local(a: AppAction) -> bool {
    match a {
        AppAction::SchemaNamesSelectPrev | AppAction::SchemaNamesSelectNext
            | AppAction::SchemaNamesSelectFirst | AppAction::SchemaNamesSelectLast
            | AppAction::SchemaFieldsScrollUp | AppAction::SchemaFieldsScrollDown => true,
        _ => false,
    }
}

/// Applies a schema browser action.
#[verifier::rlimit(60)]
fn schema_action(a: AppAction, app: &mut App) -> (r: AppResult<Option<AppAction>>)
    requires
        old(app).wf(),
        is_schema_local(a),
    ensures
        final(app).wf(),
        step(a, *old(app), *final(app), r),
        r matches Ok(f) ==> f is None,
{
    let ghost pre = *app;
    let in_schema = match app.content {
        Content::Schema => true,
        Content::Tabulars => false,
    };
    if !in_schema {
        return Ok(None);
    }
    let cat_len = app.catalog.len();
    match &a {
        AppAction::SchemaNamesSelectPrev => app.schema_view.names.select_previous(cat_len),
        AppAction::SchemaNamesSelectNext => app.schema_view.names.select_next(cat_len),
        AppAction::SchemaNamesSelectFirst => {
            if cat_len == 0 {
                app.schema_view.names.select(None);
            } else {
                app.schema_view.names.select(Some(0));
            }
        },
        AppAction::SchemaNamesSelectLast => {
            if cat_len == 0 {
                app.schema_view.names.select(None);
            } else {
                app.schema_view.names.select(Some(cat_len - 1));
            }
        },
        AppAction::SchemaFieldsScrollUp => app.schema_view.fields_scroll.up(),
        AppAction::SchemaFieldsScrollDown => app.schema_view.fields_scroll.down(),
        _ => (),
    }
    Ok(None)
}

/// Opens the selected schema row's table: the tab holding it is selected,
/// or a new named tab is asked for.
fn schema_open_table(app: &mut App) -> (r: AppResult<Option<AppAction>>)
    requires
        old(app).wf(),
    ensures
        final(app).wf(),
        step(AppAction::SchemaOpenTable, *old(app), *final(app), r),
        match r {
            Ok(Some(n)) => action_rank(n) < 4,
            _ => true,
        },
{
    let ghost pre = *app;
    let sel = app.schema_view.names.selected();
    match sel {
        None => Err(AppError::NotFound("no table is selected".to_owned())),
        Some(i) => {
            let name: String = match app.catalog.get_by_index(i) {
                Some(e) => e.name.clone(),
                None => {
                    return Err(AppError::NotFound("no table is selected".to_owned()));
                },
            };
            proof {
                assert(name@ == pre.catalog.model()[i as int].name@);
            }
            match find_name_tab(&app.tabs, name.as_str()) {
                Some(t) => {
                    proof {
                        lemma_first_name_tab(pre.tabs@, name@);
                    }
                    Ok(Some(AppAction::TabSelect(t)))
                },
                None => Ok(Some(AppAction::TabNewQuery(name))),
            }
        },
    }
}

/// Unloads the selected schema row's table from the catalog; tabs holding
/// it keep their frames.
fn schema_unload_table(app: &mut App) -> (r: AppResult<Option<AppAction>>)
    requires
        old(app).wf(),
    ensures
        final(app).wf(),
        step(AppAction::SchemaUnloadTable, *old(app), *final(app), r),
        r matches Ok(f) ==> f is None,
{
    let ghost pre = *app;
    let sel = app.schema_view.names.selected();
    match sel {
        None => Err(AppError::NotFound("no table is selected".to_owned())),
        Some(i) => {
            let name: String = match app.catalog.get_by_index(i) {
                Some(e) => e.name.clone(),
                None => {
                    return Err(AppError::NotFound("no table is selected".to_owned()));
                },
            };
            proof {
                assert(name@ == pre.catalog.model()[i as int].name@);
            }
            app.catalog.unregister(name.as_str());
            proof {
                assert(app.catalog.model() == pre.catalog.model().remove(i as int));
            }
            Ok(None)
        },
    }
}


/// Runs a query through the engine against the catalog, the selected tab's
/// frame standing in for `_`.
fn run_query<E: SqlEngine>(app: &mut App, env: &mut E, query: &str) -> (r: AppResult<
    Option<AppAction>,
>)
    requires
        old(app).wf(),
    ensures
        final(app).wf(),
        *final(app) == *old(app),
        match r {
            Ok(Some(n)) => n is TableSetDataFrame && action_rank(n) < 2,
            Ok(None) => false,
            Err(e) => e is Sql,
        },
{
    let current: Option<&DataFrame> = if app.tabs.len() > 0 && app.selected_tab < app.tabs.len() {
        Some(&app.tabs[app.selected_tab].table.frame)
    } else {
        None
    };
    match app.catalog.execute(env, query, current) {
        Ok(df) => Ok(Some(AppAction::TableSetDataFrame(df))),
        Err(e) => Err(e),
    }
}

/// Creates a tab from a query: a catalog name opens as a named tab over its
/// whole table, anything else runs as a query tab.
#[verifier::rlimit(60)]
fn tab_new_query<E: SqlEngine>(q: String, app: &mut App, env: &mut E) -> (r: AppResult<
    Option<AppAction>,
>)
    requires
        old(app).wf(),
    ensures
        final(app).wf(),
        step(AppAction::TabNewQuery(q), *old(app), *final(app), r),
        match r {
            Ok(Some(n)) => action_rank(n) < 3,
            Ok(None) => true,
            Err(_) => true,
        },
{
    let ghost pre = *app;
    if !app.catalog.is_name_free(q.as_str()) {
        let query = build_name_query(q.as_str());
        let df = match run_query(app, env, query.as_str()) {
            Ok(Some(AppAction::TableSetDataFrame(df))) => df,
            Ok(_) => {
                return Err(AppError::Sql("the query engine returned nothing".to_owned()));
            },
            Err(e) => {
                return Err(e);
            },
        };
        let old_len = app.tabs.len();
        app.tabs.push(PaneState::new(df, TableType::Name(q)));
        proof {
            assert(forall|j: int| 0 <= j < pre.tabs@.len() ==> app.tabs@[j] == pre.tabs@[j]);
            assert(app.wf());
        }
        Ok(Some(AppAction::TabSelect(old_len)))
    } else {
        let df = match run_query(app, env, q.as_str()) {
            Ok(Some(AppAction::TableSetDataFrame(df))) => df,
            Ok(_) => {
                return Err(AppError::Sql("the query engine returned nothing".to_owned()));
            },
            Err(e) => {
                return Err(e);
            },
        };
        let old_len = app.tabs.len();
        app.tabs.push(PaneState::new(df, TableType::Query(q)));
        proof {
            assert(forall|j: int| 0 <= j < pre.tabs@.len() ==> app.tabs@[j] == pre.tabs@[j]);
            assert(app.wf());
        }
        Ok(Some(AppAction::TabSelect(old_len)))
    }
}

/// Selects the help tab, opening one over the commands table first if none
/// is open.
fn help_action(app: &mut App) -> (r: AppResult<Option<AppAction>>)
    requires
        old(app).wf(),
    ensures
        final(app).wf(),
        step(AppAction::Help, *old(app), *final(app), r),
        match r {
            Ok(Some(n)) => action_rank(n) < 2,
            _ => true,
        },
{
    let ghost pre = *app;
    match find_help_tab(&app.tabs) {
        Some(i) => {
            proof {
                lemma_first_help_tab(pre.tabs@);
            }
            Ok(Some(AppAction::TabSelect(i)))
        },
        None => {
            let old_len = app.tabs.len();
            let df = commands_help_data_frame();
            app.tabs.push(PaneState::new(df, TableType::Help));
            proof {
                assert(forall|j: int| 0 <= j < pre.tabs@.len() ==> app.tabs@[j] == pre.tabs@[j]);
                assert(app.wf());
            }
            Ok(Some(AppAction::TabSelect(old_len)))
        },
    }
}

/// Registers the selected tab's frame in the catalog under the given name;
/// a taken name is refused.
#[verifier::rlimit(60)]
fn register_action(name: String, app: &mut App) -> (r: AppResult<Option<AppAction>>)
    requires
        old(app).wf(),
    ensures
        final(app).wf(),
        step(AppAction::RegisterDataFrame(name), *old(app), *final(app), r),
        r matches Ok(f) ==> f is None,
{
    let ghost pre = *app;
    if !app.catalog.is_name_free(name.as_str()) {
        let mut msg = "a data frame named '".to_owned();
        msg.append(name.as_str());
        msg.append("' already exists");
        return Err(AppError::NameInUse(msg));
    }
    if app.catalog.len() >= CATALOG_CAP {
        return Err(AppError::Unsupported("the catalog is full".to_owned()));
    }
    if app.tabs.len() == 0 || app.selected_tab >= app.tabs.len() {
        return Ok(None);
    }
    let df = app.tabs[app.selected_tab].table.frame.duplicate();
    proof {
        crate::sql::lemma_assigned_stage(pre.catalog.names(), name@);
        assert(staged_name(name@, 1) == name@);
        assert(crate::sql::assigned_stage(pre.catalog.names(), name@) == 1) by {
            let st = crate::sql::assigned_stage(pre.catalog.names(), name@);
            if st != 1 {
                assert(!is_free(pre.catalog.names(), staged_name(name@, 1nat)));
            }
        }
    }
    let assigned = app.catalog.register(name.as_str(), df, Source::User);
    proof {
        assert(assigned@ == name@);
        assert(app.catalog.names() =~= pre.catalog.names().push(name@));
    }
    Ok(None)
}

/// Writes the selected tab's frame out through the format layer.
fn export_action<E: FormatIo>(a: &AppAction, app: &mut App, env: &mut E) -> (r: AppResult<
    Option<AppAction>,
>)
    requires
        old(app).wf(),
        a is ExportDsv || a is ExportParquet || a is ExportJson || a is ExportArrow,
    ensures
        final(app).wf(),
        step(*a, *old(app), *final(app), r),
        r matches Ok(f) ==> f is None,
{
    if app.tabs.len() == 0 || app.selected_tab >= app.tabs.len() {
        return Err(AppError::NotFound("unable to export the data frame".to_owned()));
    }
    let frame = &app.tabs[app.selected_tab].table.frame;
    let outcome: Result<(), String> = match a {
        AppAction::ExportDsv { destination, separator, quote, header } => env.write_dsv(
            destination.as_str(),
            *separator,
            *quote,
            *header,
            frame,
        ),
        AppAction::ExportParquet(path) => env.write_parquet(path.as_str(), frame),
        AppAction::ExportJson(path, fmt) => env.write_json(path.as_str(), *fmt, frame),
        AppAction::ExportArrow(path) => env.write_arrow(path.as_str(), frame),
        _ => Ok(()),
    };
    match outcome {
        Ok(()) => Ok(None),
        Err(m) => Err(AppError::Io(m)),
    }
}

/// Reads frames through the format layer and registers them, one tab each.
#[verifier::rlimit(60)]
fn import_action<E: FormatIo>(a: &AppAction, app: &mut App, env: &mut E) -> (r: AppResult<
    Option<AppAction>,
>)
    requires
        old(app).wf(),
        a is ImportDsv || a is ImportParquet || a is ImportJson || a is ImportArrow || a
            is ImportSqlite || a is ImportFwf,
    ensures
        final(app).wf(),
        step(*a, *old(app), *final(app), r),
        match r {
            Ok(Some(n)) => action_rank(n) < 2,
            _ => true,
        },
{
    let ghost pre = *app;
    if app.catalog.len() >= CATALOG_CAP {
        return Err(AppError::Unsupported("the catalog is full".to_owned()));
    }
    let source: Source = match a {
        AppAction::ImportDsv { source, .. } => clone_source(source),
        AppAction::ImportParquet(s) => clone_source(s),
        AppAction::ImportJson(s, _) => clone_source(s),
        AppAction::ImportArrow(s) => clone_source(s),
        AppAction::ImportSqlite(s) => clone_source(s),
        AppAction::ImportFwf { source, .. } => clone_source(source),
        _ => Source::Derived,
    };
    let path: String = match &source {
        Source::File(p) => p.clone(),
        _ => String::new(),
    };
    let outcome: Result<Vec<(String, DataFrame)>, String> = match a {
        AppAction::ImportDsv { separator, has_header, quote, .. } => env.read_dsv(
            path.as_str(),
            *separator,
            *quote,
            *has_header,
        ),
        AppAction::ImportParquet(_) => env.read_parquet(path.as_str()),
        AppAction::ImportJson(_, fmt) => env.read_json(path.as_str(), *fmt),
        AppAction::ImportArrow(_) => env.read_arrow(path.as_str()),
        AppAction::ImportSqlite(_) => env.read_sqlite(path.as_str()),
        AppAction::ImportFwf { widths, separator_length, flexible_width, has_header, .. } => env
            .read_fwf(path.as_str(), widths, *separator_length, *flexible_width, *has_header),
        _ => Err("not an import".to_owned()),
    };
    let frames = match outcome {
        Ok(frames) => frames,
        Err(m) => {
            return Err(AppError::Io(m));
        },
    };
    if frames.len() > CATALOG_CAP - app.catalog.len() {
        return Err(AppError::Unsupported("the catalog is full".to_owned()));
    }
    let r = register_frames(app, frames, source);
    proof {
        assert(import_source(*a) == source);
    }
    r
}

/// Opens a scatter plot over the selected tab: the frame is split by the
/// grouping columns outside, one partition per group.
#[verifier::rlimit(60)]
fn scatter_action<E: FormatIo>(
    x: String,
    y: String,
    group_by: Vec<String>,
    app: &mut App,
    env: &mut E,
) -> (r: AppResult<Option<AppAction>>)
    requires
        old(app).wf(),
    ensures
        final(app).wf(),
        step(AppAction::ScatterPlot(x, y, group_by), *old(app), *final(app), r),
        r matches Ok(f) ==> f is None,
{
    let ghost pre = *app;
    if app.tabs.len() == 0 || app.selected_tab >= app.tabs.len() {
        return Ok(None);
    }
    let i = app.selected_tab;
    if app.tabs[i].table.frame.column(x.as_str()).is_none() {
        return Err(AppError::NotFound("the x axis column is not in the data frame".to_owned()));
    }
    if app.tabs[i].table.frame.column(y.as_str()).is_none() {
        return Err(AppError::NotFound("the y axis column is not in the data frame".to_owned()));
    }
    let partitions: Vec<DataFrame> = if group_by.len() == 0 {
        let mut parts: Vec<DataFrame> = Vec::new();
        parts.push(app.tabs[i].table.frame.duplicate());
        parts
    } else {
        match env.partition(&app.tabs[i].table.frame, &group_by, true) {
            Ok(parts) => parts,
            Err(m) => {
                return Err(AppError::Sql(m));
            },
        }
    };
    let mut t = app.tabs.remove(i);
    let ghost t1pre = t;
    t.show_scatter_plot(ScatterPlotState::new(x, y, group_by, partitions));
    let ghost t1 = t;
    app.tabs.insert(i, t);
    proof {
        lemma_remove_insert(pre.tabs@, i as int, t1);
        assert(app.tabs@ =~= pre.tabs@.update(i as int, t1));
        assert(*app == (App { tabs: app.tabs, ..pre }));
        assert forall|j: int| 0 <= j < app.tabs@.len() implies (#[trigger] app.tabs@[j]).wf() by {
            if j != i as int {
                assert(app.tabs@[j] == pre.tabs@[j]);
            }
        }
        assert(app.wf());
    }
    Ok(None)
}

/// Opens a histogram over the selected tab's column.
#[verifier::rlimit(60)]
fn histogram_action(col: String, buckets: usize, app: &mut App) -> (r: AppResult<
    Option<AppAction>,
>)
    requires
        old(app).wf(),
    ensures
        final(app).wf(),
        step(AppAction::HistogramPlot(col, buckets), *old(app), *final(app), r),
        r matches Ok(f) ==> f is None,
{
    let ghost pre = *app;
    if app.tabs.len() == 0 || app.selected_tab >= app.tabs.len() {
        return Ok(None);
    }
    let i = app.selected_tab;
    if app.tabs[i].table.frame.column(col.as_str()).is_none() {
        return Err(AppError::NotFound("the column is not in the data frame".to_owned()));
    }
    let mut t = app.tabs.remove(i);
    t.show_histogram_plot(HistogramPlotState::new(col, buckets));
    let ghost t1 = t;
    app.tabs.insert(i, t);
    proof {
        lemma_remove_insert(pre.tabs@, i as int, t1);
        assert(app.tabs@ =~= pre.tabs@.update(i as int, t1));
        assert(*app == (App { tabs: app.tabs, ..pre }));
        assert forall|j: int| 0 <= j < app.tabs@.len() implies (#[trigger] app.tabs@[j]).wf() by {
            if j != i as int {
                assert(app.tabs@[j] == pre.tabs@[j]);
            }
        }
        assert(app.wf());
    }
    Ok(None)
}

/// Re-reads the selected tab's column types through the format layer.
#[verifier::rlimit(60)]
fn infer_action<E: FormatIo>(ti: &TypeInferer, app: &mut App, env: &mut E) -> (r: AppResult<
    Option<AppAction>,
>)
    requires
        old(app).wf(),
    ensures
        final(app).wf(),
        step(AppAction::TableInferColumns(*ti), *old(app), *final(app), r),
        r matches Ok(f) ==> f is None,
{
    let ghost pre = *app;
    if app.tabs.len() == 0 || app.selected_tab >= app.tabs.len() {
        return Ok(None);
    }
    let i = app.selected_tab;
    let df2 = env.infer_columns(ti, &app.tabs[i].table.frame);
    let ghost w = df2;
    let mut t = app.tabs.remove(i);
    t.table.replace_frame(df2);
    let ghost t1 = t;
    app.tabs.insert(i, t);
    proof {
        lemma_remove_insert(pre.tabs@, i as int, t1);
        assert(app.tabs@ =~= pre.tabs@.update(i as int, t1));
        assert(*app == (App { tabs: app.tabs, ..pre }));
        assert forall|j: int| 0 <= j < app.tabs@.len() implies (#[trigger] app.tabs@[j]).wf() by {
            if j != i as int {
                assert(app.tabs@[j] == pre.tabs@[j]);
            }
        }
        assert(app.wf());
        assert(infer_step(pre, *app, w));
    }
    Ok(None)
}


/// Applies one action to the state: the heart of the event loop. At most
/// one follow-up action comes back, and it always ranks below the action
/// applied, so chains of follow-ups reach quiescence.
#[verifier::rlimit(100)]
pub fn execute<E: SqlEngine + FormatIo>(action: AppAction, app: &mut App, env: &mut E) -> (r:
    AppResult<Option<AppAction>>)
    requires
        old(app).wf(),
    ensures
        final(app).wf(),
        step(action, *old(app), *final(app), r),
        match r {
            Ok(Some(f)) => action_rank(f) < action_rank(action),
            _ => true,
        },
{
    let ghost pre = *app;
    match action {
        AppAction::NoAction => Ok(None),
        AppAction::ToggleBorders => {
            app.borders = !app.borders;
            Ok(None)
        },
        AppAction::DismissError => {
            app.error = None;
            Ok(None)
        },
        AppAction::DismissErrorAndShowPalette => {
            app.error = None;
            app.palette = Some(PaletteState::with_text(String::new()));
            Ok(None)
        },
        AppAction::SwitchToSchema => {
            app.content = Content::Schema;
            Ok(None)
        },
        AppAction::SwitchToTabulars => {
            app.content = Content::Tabulars;
            Ok(None)
        },
        AppAction::Quit => {
            app.running = false;
            Ok(None)
        },
        AppAction::TabRename(_, _) => Err(
            AppError::Unsupported("renaming tabs is reserved".to_owned()),
        ),
        AppAction::GoToLineShow => {
            let row: usize = if app.tabs.len() > 0 && app.selected_tab < app.tabs.len() {
                app.tabs[app.selected_tab].table.selected()
            } else {
                0
            };
            app.go_to_line = Some(GoToLineState::new(row));
            Ok(None)
        },
        AppAction::GotoLine(n) => {
            let in_tabulars = match app.content {
                Content::Tabulars => true,
                Content::Schema => false,
            };
            if in_tabulars && app.tabs.len() > 0 && app.selected_tab < app.tabs.len() {
                let i = app.selected_tab;
                let mut t = app.tabs.remove(i);
                t.table.select(n);
                let ghost t1 = t;
                app.tabs.insert(i, t);
                proof {
                    lemma_remove_insert(pre.tabs@, i as int, t1);
                    assert(app.tabs@ =~= pre.tabs@.update(i as int, t1));
                    assert(*app == (App { tabs: app.tabs, ..pre }));
                    assert forall|j: int| 0 <= j < app.tabs@.len() implies (
                    #[trigger] app.tabs@[j]).wf() by {
                        if j != i as int {
                            assert(app.tabs@[j] == pre.tabs@[j]);
                        }
                    }
                    assert(app.wf());
                }
            } else if !in_tabulars {
                app.schema_view.names.select(Some(n));
            }
            Ok(None)
        },
        AppAction::PreviewTheme(t) => {
            app.theme = t;
            Ok(None)
        },
        AppAction::StoreConfig => {
            match env.store_config(app.theme.id()) {
                Ok(()) => Ok(None),
                Err(m) => Err(AppError::Io(m)),
            }
        },
        AppAction::Help => help_action(app),
        AppAction::RegisterDataFrame(name) => register_action(name, app),
        AppAction::TableDismissModal | AppAction::SheetShow | AppAction::SheetScrollUp
            | AppAction::SheetScrollDown | AppAction::InlineQueryShow(_)
            | AppAction::DataFrameInfoShow | AppAction::DataFrameInfoScrollUp
            | AppAction::DataFrameInfoScrollDown | AppAction::HistogramScrollUp
            | AppAction::HistogramScrollDown => tab_modal_action(action, app),
        AppAction::TableScrollLeft | AppAction::TableScrollLeftColumn
            | AppAction::TableScrollRight | AppAction::TableScrollRightColumn
            | AppAction::TableScrollStart | AppAction::TableScrollEnd
            | AppAction::TableToggleExpansion | AppAction::TableGotoFirst
            | AppAction::TableGotoLast | AppAction::TableGotoRandom | AppAction::TableGoUp(_)
            | AppAction::TableGoUpHalfPage | AppAction::TableGoUpFullPage
            | AppAction::TableGoDown(_) | AppAction::TableGoDownHalfPage
            | AppAction::TableGoDownFullPage | AppAction::TableSetDataFrame(_)
            => tab_nav_action(action, app),
        AppAction::SearchFuzzyShow | AppAction::SearchExactShow | AppAction::SearchGotoNext
            | AppAction::SearchGotoPrev | AppAction::SearchGotoNextWord
            | AppAction::SearchGotoPrevWord | AppAction::SearchGotoStart
            | AppAction::SearchGotoEnd | AppAction::SearchDeleteNext
            | AppAction::SearchDeletePrev | AppAction::SearchDeleteNextWord
            | AppAction::SearchDeletePrevWord | AppAction::SearchInsert(_)
            | AppAction::SearchRollback | AppAction::SearchCommit
            => tab_search_action(action, app),
        AppAction::TableInferColumns(ti) => infer_action(&ti, app, env),
        AppAction::TableSelect(s) => {
            let q = build_select_query(s.as_str());
            Ok(Some(AppAction::TableQuery(q)))
        },
        AppAction::TableOrder(s) => {
            let q = build_order_query(s.as_str());
            Ok(Some(AppAction::TableQuery(q)))
        },
        AppAction::TableFilter(s) => {
            let q = build_filter_query(s.as_str());
            Ok(Some(AppAction::TableQuery(q)))
        },
        AppAction::TableQuery(q) => run_query(app, env, q.as_str()),
        AppAction::TableReset => {
            if app.tabs.len() == 0 || app.selected_tab >= app.tabs.len() {
                return Ok(None);
            }
            match &app.tabs[app.selected_tab].table_type {
                TableType::Help => Ok(None),
                TableType::Name(n) => {
                    let q = build_name_query(n.as_str());
                    Ok(Some(AppAction::TableQuery(q)))
                },
                TableType::Query(s) => Ok(Some(AppAction::TableQuery(s.clone()))),
            }
        },
        AppAction::PaletteShow(text) => {
            app.palette = Some(PaletteState::with_text(text));
            Ok(None)
        },
        AppAction::PaletteGotoNext | AppAction::PaletteGotoPrev | AppAction::PaletteGotoNextWord
            | AppAction::PaletteGotoPrevWord | AppAction::PaletteGotoStart
            | AppAction::PaletteGotoEnd | AppAction::PaletteDeleteNext
            | AppAction::PaletteDeletePrev | AppAction::PaletteDeleteNextWord
            | AppAction::PaletteDeletePrevWord | AppAction::PaletteInsert(_)
            | AppAction::PaletteSelectPrevious | AppAction::PaletteSelectNext
            | AppAction::PaletteDeselectOrDismiss => palette_action(action, app),
        AppAction::PaletteInsertSelectedOrCommit => palette_commit(app),
        AppAction::TabNewQuery(q) => tab_new_query(q, app, env),
        AppAction::TabSelect(i) => {
            if app.tabs.len() == 0 {
                app.selected_tab = 0;
            } else if i < app.tabs.len() {
                app.selected_tab = i;
            } else {
                app.selected_tab = app.tabs.len() - 1;
            }
            app.content = Content::Tabulars;
            Ok(None)
        },
        AppAction::TabRemove(i) => {
            if i < app.tabs.len() {
                app.tabs.remove(i);
                if app.tabs.len() == 0 {
                    app.selected_tab = 0;
                    app.running = false;
                } else if app.selected_tab >= app.tabs.len() {
                    app.selected_tab = app.tabs.len() - 1;
                }
                proof {
                    assert forall|j: int| 0 <= j < app.tabs@.len() implies (
                    #[trigger] app.tabs@[j]).wf() by {
                        assert(app.tabs@ == pre.tabs@.remove(i as int));
                        if j < i {
                            assert(app.tabs@[j] == pre.tabs@[j]);
                        } else {
                            assert(app.tabs@[j] == pre.tabs@[j + 1]);
                        }
                    }
                    assert(app.wf());
                }
            }
            Ok(Some(AppAction::TabSelect(i)))
        },
        AppAction::TabPrev => {
            let i = app.selected_tab;
            Ok(Some(AppAction::TabSelect(if i > 0 {
                i - 1
            } else {
                0
            })))
        },
        AppAction::TabNext => {
            let i = app.selected_tab;
            Ok(Some(AppAction::TabSelect(if i < usize::MAX {
                i + 1
            } else {
                usize::MAX
            })))
        },
        AppAction::TabRemoveOrQuit => {
            if app.tabs.len() <= 1 {
                app.running = false;
                Ok(None)
            } else {
                let i = app.selected_tab;
                proof {
                    assert(i < pre.tabs@.len());
                }
                app.tabs.remove(i);
                if app.selected_tab >= app.tabs.len() {
                    app.selected_tab = app.tabs.len() - 1;
                }
                proof {
                    assert forall|j: int| 0 <= j < app.tabs@.len() implies (
                    #[trigger] app.tabs@[j]).wf() by {
                        assert(app.tabs@ == pre.tabs@.remove(i as int));
                        if j < i {
                            assert(app.tabs@[j] == pre.tabs@[j]);
                        } else {
                            assert(app.tabs@[j] == pre.tabs@[j + 1]);
                        }
                    }
                    assert(app.wf());
                }
                Ok(Some(AppAction::TabSelect(i)))
            }
        },
        AppAction::TabShowPanel => {
            app.side_panel = Some(SidePanelState { list: ListSelection::new() });
            Ok(None)
        },
        AppAction::TabHidePanel => {
            app.side_panel = None;
            Ok(None)
        },
        AppAction::TabPanelPrev => {
            let tabs_len = app.tabs.len();
            match &mut app.side_panel {
                Some(sp) => sp.list.select_previous(tabs_len),
                None => (),
            }
            Ok(None)
        },
        AppAction::TabPanelNext => {
            let tabs_len = app.tabs.len();
            match &mut app.side_panel {
                Some(sp) => sp.list.select_next(tabs_len),
                None => (),
            }
            Ok(None)
        },
        AppAction::TabPanelSelect => {
            let taken = app.side_panel.take();
            match taken {
                Some(sp) => match sp.list.selected {
                    Some(i) => Ok(Some(AppAction::TabSelect(i))),
                    None => Ok(None),
                },
                None => Ok(None),
            }
        },
        AppAction::ExportDsv { destination, separator, quote, header } => export_action(
            &AppAction::ExportDsv { destination, separator, quote, header },
            app,
            env,
        ),
        AppAction::ExportParquet(p) => export_action(&AppAction::ExportParquet(p), app, env),
        AppAction::ExportJson(p, f) => export_action(&AppAction::ExportJson(p, f), app, env),
        AppAction::ExportArrow(p) => export_action(&AppAction::ExportArrow(p), app, env),
        AppAction::ImportDsv { source, separator, has_header, quote } => import_action(
            &AppAction::ImportDsv { source, separator, has_header, quote },
            app,
            env,
        ),
        AppAction::ImportParquet(s) => import_action(&AppAction::ImportParquet(s), app, env),
        AppAction::ImportJson(s, f) => import_action(&AppAction::ImportJson(s, f), app, env),
        AppAction::ImportArrow(s) => import_action(&AppAction::ImportArrow(s), app, env),
        AppAction::ImportSqlite(s) => import_action(&AppAction::ImportSqlite(s), app, env),
        AppAction::ImportFwf { source, widths, separator_length, flexible_width, has_header }
            => import_action(
            &AppAction::ImportFwf { source, widths, separator_length, flexible_width, has_header },
            app,
            env,
        ),
        AppAction::SchemaNamesSelectPrev | AppAction::SchemaNamesSelectNext
            | AppAction::SchemaNamesSelectFirst | AppAction::SchemaNamesSelectLast
            | AppAction::SchemaFieldsScrollUp | AppAction::SchemaFieldsScrollDown
            => schema_action(action, app),
        AppAction::SchemaOpenTable => schema_open_table(app),
        AppAction::SchemaUnloadTable => schema_unload_table(app),
        AppAction::ScatterPlot(x, y, gb) => scatter_action(x, y, gb, app, env),
        AppAction::HistogramPlot(col, buckets) => histogram_action(col, buckets, app),
        AppAction::ThemeSelectorShow | AppAction::ThemeSelectorSelectPrev
            | AppAction::ThemeSelectorSelectNext | AppAction::ThemeSelectorRollback
            | AppAction::ThemeSelectorCommit | AppAction::ThemeSelectorHandleEvent(_)
            => theme_action(action, app),
    }
}

/// The reducer's whole run on one action: from `pre`, applying `a` and then
/// chasing each follow-up in turn ends in `post`. Each link is one `step`;
/// a failing step puts its message in the error banner and ends the chain.
pub open spec fn steps_to(a: AppAction, pre: App, post: App) -> bool
    decreases action_rank(a),
{
    exists|mid: App, r: AppResult<Option<AppAction>>|
        #[trigger] step(a, pre, mid, r) && match r {
            Ok(Some(f)) => action_rank(f) < action_rank(a) && steps_to(f, mid, post),
            Ok(None) => post == mid,
            Err(e) => {
                &&& post == (App { error: post.error, ..mid })
                &&& post.error matches Some(m) && m@ == e.text()
            },
        }
}

/// Feeds one action and every follow-up it spawns through the reducer until
/// quiescence; an error along the way lands in the error banner.
pub fn run_action<E: SqlEngine + FormatIo>(first: AppAction, app: &mut App, env: &mut E)
    requires
        old(app).wf(),
    ensures
        final(app).wf(),
        steps_to(first, *old(app), *final(app)),
{
    let ghost pre0 = *app;
    let mut pending: Option<AppAction> = Some(first);
    while pending.is_some()
        invariant
            app.wf(),
            match pending {
                Some(a) => forall|z: App|
                    #[trigger] steps_to(a, *app, z) ==> steps_to(first, pre0, z),
                None => steps_to(first, pre0, *app),
            },
        decreases (match pending {
            Some(a) => action_rank(a) + 1,
            None => 0nat,
        }),
    {
        let a = match pending.take() {
            Some(a) => a,
            None => {
                return ;
            },
        };
        let ghost app0 = *app;
        let ghost rank_before = action_rank(a);
        match execute(a, app, env) {
            Ok(next) => {
                proof {
                    match &next {
                        Some(f) => {
                            assert(action_rank(*f) < rank_before);
                            assert forall|z: App| #[trigger] steps_to(*f, *app, z) implies
                                steps_to(first, pre0, z) by {
                                assert(step(
                                    a,
                                    app0,
                                    *app,
                                    Ok::<Option<AppAction>, AppError>(Some(*f)),
                                ));
                                assert(steps_to(a, app0, z));
                            }
                        },
                        None => {
                            assert(step(a, app0, *app, Ok::<Option<AppAction>, AppError>(None)));
                            assert(steps_to(a, app0, *app));
                            assert(steps_to(first, pre0, *app));
                        },
                    }
                }
                pending = next;
            },
            Err(e) => {
                let msg = e.message();
                let ghost app1 = *app;
                app.error = Some(msg);
                proof {
                    assert(step(a, app0, app1, Err::<Option<AppAction>, AppError>(e)));
                    assert(*app == (App { error: app.error, ..app1 }));
                    assert(steps_to(a, app0, *app));
                    assert(steps_to(first, pre0, *app));
                }
            },
        }
    }
}

} // verus!