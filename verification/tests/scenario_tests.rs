//! End-to-end scenarios: the reducer driven with a test environment that
//! stands in for the SQL engine, the format readers and writers, and the
//! configuration store.
use std::collections::HashMap;

use tabiew::action::{AppAction, JsonFormat};
use tabiew::app::{App, Content};
use tabiew::errors::AppError;
use tabiew::executor::{execute, run_action, FormatIo};
use tabiew::frame::{Column, DataFrame, Dtype};
use tabiew::pane::{Modal, PaneState, TableType};
use tabiew::sql::{Catalog, Source, SqlEngine, TableInfo};
use tabiew::type_inferer::TypeInferer;

/// The outside world of the tests: in-memory files, a last stored theme, and
/// a tiny query engine that serves whole tables and one fixed filter.
struct TestEnv {
    files: HashMap<String, Vec<u8>>,
    stored_theme: Option<String>,
}

impl TestEnv {
    fn new() -> Self {
        TestEnv { files: HashMap::new(), stored_theme: None }
    }
}

fn int_column(name: &str, values: &[i64]) -> Column {
    Column::new(
        name.to_owned(),
        Dtype::Int,
        values.iter().map(|v| Some(v.to_string())).collect(),
    )
}

fn str_column(name: &str, values: &[&str]) -> Column {
    Column::new(
        name.to_owned(),
        Dtype::Str,
        values.iter().map(|v| Some((*v).to_string())).collect(),
    )
}

fn two_column_frame() -> DataFrame {
    DataFrame::new(vec![int_column("a", &[1, 2, 3]), int_column("b", &[10, 20, 30])]).unwrap()
}

fn csv_encode(frame: &DataFrame) -> Vec<u8> {
    let mut out = String::new();
    let cols = frame.columns();
    for (i, c) in cols.iter().enumerate() {
        if i > 0 {
            out.push(',');
        }
        out.push_str(&c.name);
    }
    out.push('\n');
    for row in 0..frame.height() {
        for (i, c) in cols.iter().enumerate() {
            if i > 0 {
                out.push(',');
            }
            if let Some(v) = &c.values[row] {
                out.push_str(v);
            }
        }
        out.push('\n');
    }
    out.into_bytes()
}

fn csv_decode(bytes: &[u8]) -> DataFrame {
    let text = String::from_utf8(bytes.to_vec()).unwrap();
    let mut lines = text.lines();
    let header: Vec<&str> = lines.next().unwrap_or("").split(',').collect();
    let mut columns: Vec<Vec<Option<String>>> = header.iter().map(|_| Vec::new()).collect();
    for line in lines {
        for (i, cell) in line.split(',').enumerate() {
            if i < columns.len() {
                columns[i].push(Some(cell.to_owned()));
            }
        }
    }
    DataFrame::new(
        header
            .iter()
            .zip(columns)
            .map(|(name, values)| Column::new((*name).to_owned(), Dtype::Str, values))
            .collect(),
    )
    .unwrap()
}

impl SqlEngine for TestEnv {
    fn run_sql(
        &mut self,
        catalog: &Catalog,
        query: &str,
        current: Option<&DataFrame>,
    ) -> Result<DataFrame, String> {
        if let Some(name) = query
            .strip_prefix("SELECT * FROM '")
            .and_then(|rest| rest.strip_suffix("'"))
        {
            return match catalog.get(name) {
                Some(info) => Ok(info.frame.duplicate()),
                None => Err(format!("table '{name}' was not found")),
            };
        }
        if query == "SELECT * FROM _ where a > 1" {
            let frame = current.ok_or("no current frame stands in for _")?;
            let a = frame.column("a").ok_or("no column a")?;
            let keep: Vec<usize> = a
                .values
                .iter()
                .enumerate()
                .filter(|(_, v)| {
                    v.as_deref().and_then(|s| s.parse::<i64>().ok()).map_or(false, |x| x > 1)
                })
                .map(|(i, _)| i)
                .collect();
            let cols = frame
                .columns()
                .iter()
                .map(|c| {
                    Column::new(
                        c.name.clone(),
                        c.dtype,
                        keep.iter().map(|&i| c.values[i].clone()).collect(),
                    )
                })
                .collect();
            return DataFrame::new(cols).map_err(|e| e.message());
        }
        Err(format!("the test engine does not serve: {query}"))
    }
}

impl FormatIo for TestEnv {
    fn read_dsv(
        &mut self,
        path: &str,
        _separator: char,
        _quote: char,
        _has_header: bool,
    ) -> Result<Vec<(String, DataFrame)>, String> {
        let bytes = self.files.get(path).ok_or("no such file")?;
        let name = path.rsplit('/').next().unwrap_or(path).trim_end_matches(".csv");
        Ok(vec![(name.to_owned(), csv_decode(bytes))])
    }

    fn read_parquet(&mut self, _path: &str) -> Result<Vec<(String, DataFrame)>, String> {
        Err("no parquet reader in the tests".to_owned())
    }

    fn read_json(
        &mut self,
        _path: &str,
        _fmt: JsonFormat,
    ) -> Result<Vec<(String, DataFrame)>, String> {
        Err("no json reader in the tests".to_owned())
    }

    fn read_arrow(&mut self, _path: &str) -> Result<Vec<(String, DataFrame)>, String> {
        Err("no arrow reader in the tests".to_owned())
    }

    fn read_sqlite(&mut self, _path: &str) -> Result<Vec<(String, DataFrame)>, String> {
        Err("no sqlite reader in the tests".to_owned())
    }

    fn read_fwf(
        &mut self,
        _path: &str,
        _widths: &Vec<usize>,
        _separator_length: usize,
        _flexible_width: bool,
        _has_header: bool,
    ) -> Result<Vec<(String, DataFrame)>, String> {
        Err("no fixed-width reader in the tests".to_owned())
    }

    fn write_dsv(
        &mut self,
        path: &str,
        _separator: char,
        _quote: char,
        _header: bool,
        frame: &DataFrame,
    ) -> Result<(), String> {
        self.files.insert(path.to_owned(), csv_encode(frame));
        Ok(())
    }

    fn write_parquet(&mut self, _path: &str, _frame: &DataFrame) -> Result<(), String> {
        Err("no parquet writer in the tests".to_owned())
    }

    fn write_json(
        &mut self,
        _path: &str,
        _fmt: JsonFormat,
        _frame: &DataFrame,
    ) -> Result<(), String> {
        Err("no json writer in the tests".to_owned())
    }

    fn write_arrow(&mut self, _path: &str, _frame: &DataFrame) -> Result<(), String> {
        Err("no arrow writer in the tests".to_owned())
    }

    fn store_config(&mut self, theme_id: &str) -> Result<(), String> {
        self.stored_theme = Some(theme_id.to_owned());
        Ok(())
    }

    fn infer_columns(&mut self, _inferer: &TypeInferer, frame: &DataFrame) -> DataFrame {
        frame.duplicate()
    }

    fn partition(
        &mut self,
        frame: &DataFrame,
        _by: &Vec<String>,
        _stable: bool,
    ) -> Result<Vec<DataFrame>, String> {
        Ok(vec![frame.duplicate()])
    }
}

fn type_keys(app: &mut App, env: &mut TestEnv, text: &str) {
    for c in text.chars() {
        run_action(AppAction::PaletteInsert(c), app, env);
    }
}

#[test]
fn quit_from_a_single_empty_session() {
    // One tab over an empty frame; typing ":q" and committing quits.
    let mut app = App::new();
    let mut env = TestEnv::new();
    assert!(app.is_running());
    run_action(AppAction::PaletteShow(String::new()), &mut app, &mut env);
    type_keys(&mut app, &mut env, "q");
    run_action(AppAction::PaletteInsertSelectedOrCommit, &mut app, &mut env);
    assert!(!app.is_running());
    assert_eq!(app.history, vec!["q".to_owned()]);
}

#[test]
fn no_action_leaves_the_state_equal() {
    let mut app = App::new();
    let mut env = TestEnv::new();
    let before = App::new();
    let r = execute(AppAction::NoAction, &mut app, &mut env).unwrap();
    assert_eq!(r, None);
    assert_eq!(app, before);
}

#[test]
fn filter_on_current_frame() {
    // "F a > 1" rewrites to a filter over `_` and shrinks the frame.
    let mut app = App::new();
    let mut env = TestEnv::new();
    app.tabs[0].table.set_data_frame(two_column_frame());
    run_action(AppAction::PaletteShow(String::new()), &mut app, &mut env);
    type_keys(&mut app, &mut env, "F a > 1");
    run_action(AppAction::PaletteInsertSelectedOrCommit, &mut app, &mut env);
    assert!(app.error.is_none());
    let frame = &app.tabs[0].table.frame;
    assert_eq!(frame.height(), 2);
    let a = frame.column("a").unwrap();
    assert_eq!(a.values, vec![Some("2".to_owned()), Some("3".to_owned())]);
}

#[test]
fn register_name_disambiguation() {
    // `register t`, then an import whose suggested name is also `t`:
    // the catalog ends with the ordered names ["t", "t_2"].
    let mut app = App::new();
    let mut env = TestEnv::new();
    app.tabs[0].table.set_data_frame(two_column_frame());
    run_action(AppAction::RegisterDataFrame("t".to_owned()), &mut app, &mut env);
    assert!(app.error.is_none());
    env.files.insert("/data/t.csv".to_owned(), csv_encode(&two_column_frame()));
    run_action(
        AppAction::ImportDsv {
            source: Source::File("/data/t.csv".to_owned()),
            separator: ',',
            has_header: true,
            quote: '"',
        },
        &mut app,
        &mut env,
    );
    assert!(app.error.is_none());
    let names: Vec<String> = app.catalog.schema().iter().map(|e| e.name.clone()).collect();
    assert_eq!(names, vec!["t".to_owned(), "t_2".to_owned()]);
    // the import opened a tab named t_2 and selected it
    assert_eq!(app.selected_tab, 1);
    assert_eq!(app.tabs[1].table_type, TableType::Name("t_2".to_owned()));
}

#[test]
fn register_skips_taken_suffixes() {
    // With "x" and "x_2" both present, registering "x" yields "x_3".
    let mut app = App::new();
    let mut env = TestEnv::new();
    app.tabs[0].table.set_data_frame(two_column_frame());
    app.catalog.register("x", two_column_frame(), Source::User);
    app.catalog.register("x_2", two_column_frame(), Source::User);
    let assigned = app.catalog.register("x", two_column_frame(), Source::User);
    assert_eq!(assigned, "x_3");
    let _ = &mut env;
}

#[test]
fn register_conflict_is_an_error() {
    let mut app = App::new();
    let mut env = TestEnv::new();
    app.tabs[0].table.set_data_frame(two_column_frame());
    run_action(AppAction::RegisterDataFrame("t".to_owned()), &mut app, &mut env);
    let r = execute(AppAction::RegisterDataFrame("t".to_owned()), &mut app, &mut env);
    assert!(matches!(r, Err(AppError::NameInUse(_))));
}

#[test]
fn schema_jump_to_tab() {
    // Opening a schema row absent from the tabs creates a named tab; doing
    // it again selects the existing tab without creating another.
    let mut app = App::new();
    let mut env = TestEnv::new();
    app.catalog.register("orders", two_column_frame(), Source::User);
    run_action(AppAction::SwitchToSchema, &mut app, &mut env);
    assert_eq!(app.content, Content::Schema);
    run_action(AppAction::SchemaNamesSelectNext, &mut app, &mut env);
    run_action(AppAction::SchemaOpenTable, &mut app, &mut env);
    assert!(app.error.is_none());
    assert_eq!(app.tabs.len(), 2);
    assert_eq!(app.tabs[1].table_type, TableType::Name("orders".to_owned()));
    assert_eq!(app.selected_tab, 1);
    run_action(AppAction::SwitchToSchema, &mut app, &mut env);
    run_action(AppAction::SchemaOpenTable, &mut app, &mut env);
    assert_eq!(app.tabs.len(), 2);
    assert_eq!(app.selected_tab, 1);
}

#[test]
fn search_commit_and_rollback() {
    // A committed search keeps the matcher's last result; a rolled-back
    // search restores the frame shown when it opened.
    let mut app = App::new();
    let mut env = TestEnv::new();
    let original = DataFrame::new(vec![int_column("n", &[0, 1, 2, 3, 4, 5, 6, 7, 8, 9])]).unwrap();
    app.tabs[0].table.set_data_frame(original.clone());
    run_action(AppAction::SearchFuzzyShow, &mut app, &mut env);
    for c in "abc".chars() {
        run_action(AppAction::SearchInsert(c), &mut app, &mut env);
    }
    let result = DataFrame::new(vec![int_column("n", &[3, 7])]).unwrap();
    match &mut app.tabs[0].modal {
        Modal::SearchBar(sb) => sb.push_result(result.clone()),
        other => panic!("expected a search bar, found {other:?}"),
    }
    run_action(AppAction::SearchCommit, &mut app, &mut env);
    assert_eq!(app.tabs[0].table.frame, result);
    assert_eq!(app.tabs[0].modal, Modal::Hidden);

    app.tabs[0].table.set_data_frame(original.clone());
    run_action(AppAction::SearchFuzzyShow, &mut app, &mut env);
    for c in "abc".chars() {
        run_action(AppAction::SearchInsert(c), &mut app, &mut env);
    }
    run_action(AppAction::SearchRollback, &mut app, &mut env);
    assert_eq!(app.tabs[0].table.frame, original);
    assert_eq!(app.tabs[0].modal, Modal::Hidden);
}

#[test]
fn search_tick_adopts_latest_result() {
    let mut app = App::new();
    let mut env = TestEnv::new();
    app.tabs[0].table.set_data_frame(two_column_frame());
    run_action(AppAction::SearchExactShow, &mut app, &mut env);
    let narrowed = DataFrame::new(vec![int_column("a", &[2]), int_column("b", &[20])]).unwrap();
    match &mut app.tabs[0].modal {
        Modal::SearchBar(sb) => sb.push_result(narrowed.clone()),
        other => panic!("expected a search bar, found {other:?}"),
    }
    app.tabs[0].tick();
    assert_eq!(app.tabs[0].table.frame, narrowed);
    assert!(matches!(app.tabs[0].modal, Modal::SearchBar(_)));
}

#[test]
fn csv_round_trip() {
    // Import, export, and import again: the frame comes back equal.
    let mut app = App::new();
    let mut env = TestEnv::new();
    let original = DataFrame::new(vec![
        str_column("name", &["ada", "grace", "edsger"]),
        str_column("city", &["london", "arlington", "rotterdam"]),
    ])
    .unwrap();
    env.files.insert("/in/people.csv".to_owned(), csv_encode(&original));
    run_action(
        AppAction::ImportDsv {
            source: Source::File("/in/people.csv".to_owned()),
            separator: ',',
            has_header: true,
            quote: '"',
        },
        &mut app,
        &mut env,
    );
    assert!(app.error.is_none());
    let imported = app.tabs[app.selected_tab].table.frame.clone();
    run_action(
        AppAction::ExportDsv {
            destination: "/out/people.csv".to_owned(),
            separator: ',',
            quote: '"',
            header: true,
        },
        &mut app,
        &mut env,
    );
    assert!(app.error.is_none());
    run_action(
        AppAction::ImportDsv {
            source: Source::File("/out/people.csv".to_owned()),
            separator: ',',
            has_header: true,
            quote: '"',
        },
        &mut app,
        &mut env,
    );
    assert!(app.error.is_none());
    let reimported = &app.tabs[app.selected_tab].table.frame;
    assert_eq!(*reimported, imported);
}

#[test]
fn last_tab_removal_quits() {
    let mut app = App::new();
    let mut env = TestEnv::new();
    run_action(AppAction::TabRemoveOrQuit, &mut app, &mut env);
    assert!(!app.is_running());
}

#[test]
fn tab_select_clamps_to_last() {
    let mut app = App::new();
    let mut env = TestEnv::new();
    run_action(AppAction::Help, &mut app, &mut env);
    assert_eq!(app.tabs.len(), 2);
    run_action(AppAction::TabSelect(99), &mut app, &mut env);
    assert_eq!(app.selected_tab, 1);
    run_action(AppAction::TabSelect(0), &mut app, &mut env);
    assert_eq!(app.selected_tab, 0);
}

#[test]
fn goto_line_on_empty_frame_is_a_no_op() {
    let mut app = App::new();
    let mut env = TestEnv::new();
    assert_eq!(app.tabs[0].table.frame.height(), 0);
    run_action(AppAction::GotoLine(0), &mut app, &mut env);
    assert_eq!(app.tabs[0].table.selected(), 0);
    assert_eq!(app.tabs[0].table.frame.height(), 0);
}

#[test]
fn goto_random_stays_in_range() {
    let mut app = App::new();
    let mut env = TestEnv::new();
    app.tabs[0].table.set_data_frame(two_column_frame());
    for _ in 0..32 {
        run_action(AppAction::TableGotoRandom, &mut app, &mut env);
        assert!(app.tabs[0].table.selected() < 3);
    }
}

#[test]
fn go_up_down_clamp_and_move() {
    let mut app = App::new();
    let mut env = TestEnv::new();
    app.tabs[0].table.set_data_frame(two_column_frame());
    run_action(AppAction::TableGoDown(10), &mut app, &mut env);
    assert_eq!(app.tabs[0].table.selected(), 2);
    run_action(AppAction::TableGoUp(1), &mut app, &mut env);
    assert_eq!(app.tabs[0].table.selected(), 1);
    run_action(AppAction::TableGoUp(100), &mut app, &mut env);
    assert_eq!(app.tabs[0].table.selected(), 0);
}

#[test]
fn table_reset_reruns_the_named_query() {
    // Resetting a named tab yields the same frame as running the whole-table
    // query against the catalog directly.
    let mut app = App::new();
    let mut env = TestEnv::new();
    app.catalog.register("t", two_column_frame(), Source::User);
    run_action(AppAction::TabNewQuery("t".to_owned()), &mut app, &mut env);
    assert!(app.error.is_none());
    assert_eq!(app.tabs[1].table_type, TableType::Name("t".to_owned()));
    // drift away from the original frame, then reset
    app.tabs[1].table.set_data_frame(DataFrame::empty());
    run_action(AppAction::TableReset, &mut app, &mut env);
    assert!(app.error.is_none());
    let direct = app
        .catalog
        .execute(&mut env, "SELECT * FROM 't'", None)
        .unwrap();
    assert_eq!(app.tabs[1].table.frame, direct);
}

#[test]
fn theme_commit_stores_and_rollback_restores() {
    let mut app = App::new();
    let mut env = TestEnv::new();
    run_action(AppAction::ThemeSelectorShow, &mut app, &mut env);
    run_action(AppAction::ThemeSelectorCommit, &mut app, &mut env);
    assert_eq!(env.stored_theme.as_deref(), Some("builtin_tango_dark"));
    run_action(
        AppAction::PreviewTheme(tabiew::theme::Theme::FlexokiDark),
        &mut app,
        &mut env,
    );
    run_action(AppAction::ThemeSelectorShow, &mut app, &mut env);
    run_action(
        AppAction::PreviewTheme(tabiew::theme::Theme::BuiltinTangoDark),
        &mut app,
        &mut env,
    );
    run_action(AppAction::ThemeSelectorRollback, &mut app, &mut env);
    assert_eq!(app.theme, tabiew::theme::Theme::FlexokiDark);
}

#[test]
fn help_opens_once_and_reselects() {
    let mut app = App::new();
    let mut env = TestEnv::new();
    run_action(AppAction::Help, &mut app, &mut env);
    assert_eq!(app.tabs.len(), 2);
    assert_eq!(app.tabs[1].table_type, TableType::Help);
    assert_eq!(app.tabs[1].table.frame.height(), 22);
    assert_eq!(app.tabs[1].table.frame.width(), 4);
    run_action(AppAction::TabSelect(0), &mut app, &mut env);
    run_action(AppAction::Help, &mut app, &mut env);
    assert_eq!(app.tabs.len(), 2);
    assert_eq!(app.selected_tab, 1);
}

#[test]
fn unregister_keeps_tabs() {
    let mut app = App::new();
    let mut env = TestEnv::new();
    app.catalog.register("t", two_column_frame(), Source::User);
    run_action(AppAction::TabNewQuery("t".to_owned()), &mut app, &mut env);
    assert_eq!(app.tabs.len(), 2);
    app.catalog.unregister("t");
    assert_eq!(app.catalog.len(), 0);
    assert_eq!(app.tabs.len(), 2);
    assert_eq!(app.tabs[1].table.frame.height(), 3);
}

#[test]
fn table_info_counts_nulls_and_size() {
    let frame = DataFrame::new(vec![Column::new(
        "c".to_owned(),
        Dtype::Str,
        vec![Some("ab".to_owned()), None, Some("xyz".to_owned())],
    )])
    .unwrap();
    let info = TableInfo::new("t".to_owned(), frame, Source::Stdin);
    assert_eq!(info.total_null(), 1);
    // two cells of two and three characters, plus the one-character name
    assert_eq!(info.total_est_size(), 6);
    assert_eq!(info.height(), 3);
    assert_eq!(info.width(), 1);
    assert_eq!(info.source().display_path(), "stdin");
}

#[test]
fn frame_rejects_bad_columns() {
    assert!(DataFrame::new(vec![int_column("a", &[1]), int_column("a", &[2])]).is_err());
    assert!(DataFrame::new(vec![int_column("a", &[1, 2]), int_column("b", &[2])]).is_err());
}

#[test]
fn sql_error_lands_in_the_banner() {
    let mut app = App::new();
    let mut env = TestEnv::new();
    run_action(AppAction::TableQuery("DROP TABLE x".to_owned()), &mut app, &mut env);
    assert!(app.error.is_some());
    run_action(AppAction::DismissError, &mut app, &mut env);
    assert!(app.error.is_none());
}

#[test]
fn export_without_a_reader_reports_io() {
    let mut app = App::new();
    let mut env = TestEnv::new();
    app.tabs[0].table.set_data_frame(two_column_frame());
    let r = execute(AppAction::ExportParquet("/p".to_owned()), &mut app, &mut env);
    assert!(matches!(r, Err(AppError::Io(_))));
}

#[test]
fn schema_open_without_selection_is_not_found() {
    let mut app = App::new();
    let mut env = TestEnv::new();
    let r = execute(AppAction::SchemaOpenTable, &mut app, &mut env);
    assert!(matches!(r, Err(AppError::NotFound(_))));
}

#[test]
fn tab_rename_is_reserved() {
    let mut app = App::new();
    let mut env = TestEnv::new();
    let r = execute(AppAction::TabRename(0, "x".to_owned()), &mut app, &mut env);
    assert!(matches!(r, Err(AppError::Unsupported(_))));
}

#[test]
fn palette_recalls_history() {
    let mut app = App::new();
    let mut env = TestEnv::new();
    run_action(AppAction::PaletteShow(String::new()), &mut app, &mut env);
    type_keys(&mut app, &mut env, "help");
    run_action(AppAction::PaletteInsertSelectedOrCommit, &mut app, &mut env);
    assert_eq!(app.history, vec!["help".to_owned()]);
    // reopen, pick the entry from the history, and find it in the input
    run_action(AppAction::PaletteShow(String::new()), &mut app, &mut env);
    run_action(AppAction::PaletteSelectPrevious, &mut app, &mut env);
    run_action(AppAction::PaletteInsertSelectedOrCommit, &mut app, &mut env);
    let palette = app.palette.as_ref().expect("the palette stays open");
    assert_eq!(palette.input.value(), "help");
    assert_eq!(palette.list.selected, None);
}

#[test]
fn empty_palette_commit_dismisses() {
    let mut app = App::new();
    let mut env = TestEnv::new();
    run_action(AppAction::PaletteShow(String::new()), &mut app, &mut env);
    run_action(AppAction::PaletteInsertSelectedOrCommit, &mut app, &mut env);
    assert!(app.palette.is_none());
    assert!(app.history.is_empty());
}

#[test]
fn removing_the_last_tab_quits() {
    let mut app = App::new();
    let mut env = TestEnv::new();
    run_action(AppAction::TabRemove(0), &mut app, &mut env);
    assert_eq!(app.tabs.len(), 0);
    assert!(!app.is_running());
}

#[test]
fn help_table_holds_the_registry_rows() {
    let mut app = App::new();
    let mut env = TestEnv::new();
    run_action(AppAction::Help, &mut app, &mut env);
    let frame = &app.tabs[1].table.frame;
    let cell = |col: usize, row: usize| frame.columns()[col].values[row].clone().unwrap();
    assert_eq!(cell(0, 0), "query");
    assert_eq!(cell(1, 0), "Q");
    assert_eq!(cell(2, 0), "Q <query>");
    assert_eq!(cell(3, 0), "Query the data in Structured Query Language (SQL).");
    assert_eq!(cell(0, 2), "goto");
    assert_eq!(cell(1, 2), "-");
    assert_eq!(cell(0, 21), "import");
    assert_eq!(cell(2, 21), "import <format>[options] <path>");
}
