//! The command grammar: heads and aliases, numeric arguments, the import and
//! export sub-grammars with their options, and the failure kinds.
use tabiew::action::{AppAction, JsonFormat};
use tabiew::command::parse_into_action;
use tabiew::command::{entries, Prefix};
use tabiew::errors::AppError;
use tabiew::pane::InlineQueryType;
use tabiew::sql::Source;
use tabiew::type_inferer::TypeInferer;

#[test]
fn parse_query_short_and_long() {
    let a = parse_into_action("Q SELECT * FROM t").unwrap();
    assert_eq!(a, AppAction::TableQuery("SELECT * FROM t".to_owned()));
    let b = parse_into_action("query SELECT * FROM t").unwrap();
    assert_eq!(a, b);
}

#[test]
fn parse_aliases_agree() {
    assert_eq!(
        parse_into_action("q").unwrap(),
        parse_into_action("quit").unwrap()
    );
    assert_eq!(
        parse_into_action("S a, b").unwrap(),
        parse_into_action("select a, b").unwrap()
    );
    assert_eq!(
        parse_into_action("F a > 1").unwrap(),
        parse_into_action("filter a > 1").unwrap()
    );
    assert_eq!(
        parse_into_action("O a DESC").unwrap(),
        parse_into_action("order a DESC").unwrap()
    );
}

#[test]
fn parse_navigation_commands() {
    assert_eq!(parse_into_action("q").unwrap(), AppAction::Quit);
    assert_eq!(parse_into_action("goto 10").unwrap(), AppAction::GotoLine(9));
    assert_eq!(parse_into_action("goto 0").unwrap(), AppAction::GotoLine(0));
    assert_eq!(parse_into_action("goto +5").unwrap(), AppAction::GotoLine(4));
    assert_eq!(parse_into_action("goup +2").unwrap(), AppAction::TableGoUp(2));
    assert_eq!(parse_into_action("goto").unwrap(), AppAction::GoToLineShow);
    assert_eq!(parse_into_action("goup page").unwrap(), AppAction::TableGoUpFullPage);
    assert_eq!(parse_into_action("goup half").unwrap(), AppAction::TableGoUpHalfPage);
    assert_eq!(parse_into_action("goup 7").unwrap(), AppAction::TableGoUp(7));
    assert_eq!(parse_into_action("godown page").unwrap(), AppAction::TableGoDownFullPage);
    assert_eq!(parse_into_action("godown half").unwrap(), AppAction::TableGoDownHalfPage);
    assert_eq!(parse_into_action("godown 3").unwrap(), AppAction::TableGoDown(3));
    assert_eq!(parse_into_action("reset").unwrap(), AppAction::TableReset);
    assert_eq!(parse_into_action("help").unwrap(), AppAction::Help);
    assert_eq!(parse_into_action("schema").unwrap(), AppAction::SwitchToSchema);
    assert_eq!(parse_into_action("rand").unwrap(), AppAction::TableGotoRandom);
    assert_eq!(parse_into_action("theme").unwrap(), AppAction::ThemeSelectorShow);
    assert_eq!(parse_into_action("tab 2").unwrap(), AppAction::TabSelect(2));
    assert_eq!(parse_into_action("tabr 1").unwrap(), AppAction::TabRemove(1));
    assert_eq!(
        parse_into_action("tabn SELECT 1").unwrap(),
        AppAction::TabNewQuery("SELECT 1".to_owned())
    );
    assert_eq!(
        parse_into_action("register sales").unwrap(),
        AppAction::RegisterDataFrame("sales".to_owned())
    );
}

#[test]
fn parse_filter_and_order_popups() {
    assert_eq!(
        parse_into_action("F").unwrap(),
        AppAction::InlineQueryShow(InlineQueryType::Filter)
    );
    assert_eq!(
        parse_into_action("O").unwrap(),
        AppAction::InlineQueryShow(InlineQueryType::Order)
    );
    assert_eq!(
        parse_into_action("filter a > 1").unwrap(),
        AppAction::TableFilter("a > 1".to_owned())
    );
}

#[test]
fn parse_infer() {
    let a = parse_into_action("infer int float").unwrap();
    let mut ti = TypeInferer::new();
    ti.ints = true;
    ti.floats = true;
    assert_eq!(a, AppAction::TableInferColumns(ti));
    assert_eq!(
        parse_into_action("infer all").unwrap(),
        AppAction::TableInferColumns(TypeInferer::all())
    );
    assert!(matches!(
        parse_into_action("infer int bogus"),
        Err(AppError::Parse(_))
    ));
}

#[test]
fn parse_scatter_and_hist() {
    assert_eq!(
        parse_into_action("scatter x y g1 g2").unwrap(),
        AppAction::ScatterPlot(
            "x".to_owned(),
            "y".to_owned(),
            vec!["g1".to_owned(), "g2".to_owned()]
        )
    );
    // POSIX word splitting honors quotes
    assert_eq!(
        parse_into_action("scatter \"col a\" y").unwrap(),
        AppAction::ScatterPlot("col a".to_owned(), "y".to_owned(), vec![])
    );
    assert!(matches!(
        parse_into_action("scatter onlyone"),
        Err(AppError::Parse(_))
    ));
    assert_eq!(
        parse_into_action("hist price").unwrap(),
        AppAction::HistogramPlot("price".to_owned(), 38)
    );
    assert_eq!(
        parse_into_action("hist price 10").unwrap(),
        AppAction::HistogramPlot("price".to_owned(), 10)
    );
    assert!(matches!(
        parse_into_action("hist a b c"),
        Err(AppError::Parse(_))
    ));
}

#[test]
fn parse_export() {
    assert_eq!(
        parse_into_action("export csv /tmp/out.csv").unwrap(),
        AppAction::ExportDsv {
            destination: "/tmp/out.csv".to_owned(),
            separator: ',',
            quote: '"',
            header: true,
        }
    );
    assert_eq!(
        parse_into_action("export tsv /t.tsv").unwrap(),
        AppAction::ExportDsv {
            destination: "/t.tsv".to_owned(),
            separator: '\t',
            quote: '"',
            header: true,
        }
    );
    assert_eq!(
        parse_into_action("export json /f").unwrap(),
        AppAction::ExportJson("/f".to_owned(), JsonFormat::Json)
    );
    assert_eq!(
        parse_into_action("export jsonl /f").unwrap(),
        AppAction::ExportJson("/f".to_owned(), JsonFormat::JsonLine)
    );
    assert_eq!(
        parse_into_action("export parquet /f").unwrap(),
        AppAction::ExportParquet("/f".to_owned())
    );
    assert_eq!(
        parse_into_action("export arrow /f").unwrap(),
        AppAction::ExportArrow("/f".to_owned())
    );
    assert!(matches!(
        parse_into_action("export bmp /f"),
        Err(AppError::UnsupportedFormat(_))
    ));
    assert!(matches!(
        parse_into_action("export csvnopath"),
        Err(AppError::Parse(_))
    ));
}

#[test]
fn parse_import() {
    assert_eq!(
        parse_into_action("import csv /data/a.csv").unwrap(),
        AppAction::ImportDsv {
            source: Source::File("/data/a.csv".to_owned()),
            separator: ',',
            has_header: true,
            quote: '"',
        }
    );
    assert_eq!(
        parse_into_action("import csv [nh ;] /d.csv").unwrap(),
        AppAction::ImportDsv {
            source: Source::File("/d.csv".to_owned()),
            separator: ';',
            has_header: false,
            quote: '"',
        }
    );
    // a second character argument fills the quote
    assert_eq!(
        parse_into_action("import csv [; '] /d.csv").unwrap(),
        AppAction::ImportDsv {
            source: Source::File("/d.csv".to_owned()),
            separator: ';',
            has_header: true,
            quote: '\'',
        }
    );
    assert!(matches!(
        parse_into_action("import csv [nh nh] /d.csv"),
        Err(AppError::Parse(_))
    ));
    assert_eq!(
        parse_into_action("import parquet /p").unwrap(),
        AppAction::ImportParquet(Source::File("/p".to_owned()))
    );
    assert_eq!(
        parse_into_action("import json /p").unwrap(),
        AppAction::ImportJson(Source::File("/p".to_owned()), JsonFormat::Json)
    );
    assert_eq!(
        parse_into_action("import jsonl /p").unwrap(),
        AppAction::ImportJson(Source::File("/p".to_owned()), JsonFormat::JsonLine)
    );
    assert_eq!(
        parse_into_action("import arrow /p").unwrap(),
        AppAction::ImportArrow(Source::File("/p".to_owned()))
    );
    assert_eq!(
        parse_into_action("import sqlite /p").unwrap(),
        AppAction::ImportSqlite(Source::File("/p".to_owned()))
    );
    assert!(matches!(
        parse_into_action("import bmp /p"),
        Err(AppError::Parse(_))
    ));
    assert!(matches!(parse_into_action("import csv"), Err(AppError::Parse(_))));
}

#[test]
fn parse_import_fwf_with_options() {
    assert_eq!(
        parse_into_action("import fwf [1 4 5 nh] /p").unwrap(),
        AppAction::ImportFwf {
            source: Source::File("/p".to_owned()),
            widths: vec![4, 5],
            separator_length: 1,
            flexible_width: false,
            has_header: false,
        }
    );
    assert_eq!(
        parse_into_action("import fwf /p").unwrap(),
        AppAction::ImportFwf {
            source: Source::File("/p".to_owned()),
            widths: vec![],
            separator_length: 0,
            flexible_width: false,
            has_header: true,
        }
    );
    assert_eq!(
        parse_into_action("import fwf [fw 2] /p").unwrap(),
        AppAction::ImportFwf {
            source: Source::File("/p".to_owned()),
            widths: vec![],
            separator_length: 2,
            flexible_width: true,
            has_header: true,
        }
    );
}

#[test]
fn parse_unknown_command() {
    assert!(matches!(parse_into_action("frobnicate"), Err(AppError::Parse(_))));
    assert!(matches!(parse_into_action(""), Err(AppError::Parse(_))));
    assert!(matches!(parse_into_action("goto xyz"), Err(AppError::Parse(_))));
    assert!(matches!(parse_into_action("tab many"), Err(AppError::Parse(_))));
}

#[test]
fn registry_lists_every_command() {
    let list = entries();
    assert_eq!(list.len(), 22);
    let with_short = list
        .iter()
        .filter(|e| matches!(e.prefix, Prefix::ShortAndLong(_, _)))
        .count();
    assert_eq!(with_short, 5);
    assert_eq!(list[0].prefix.short(), Some("Q"));
    assert_eq!(list[0].prefix.long(), Some("query"));
    assert_eq!(list[1].prefix.long(), Some("quit"));
}
