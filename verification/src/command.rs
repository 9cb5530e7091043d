//! The command grammar: a command line splits at its first space into a head
//! and the rest; the head picks the entry, and the entry's argument shape
//! turns the rest into an action. Import and export carry their own
//! sub-grammars with options.
use vstd::prelude::*;

use crate::action::{action_rank, AppAction, JsonFormat};
use crate::errors::{AppError, AppResult};
use crate::frame::{Column, DataFrame, Dtype};
use crate::input::skip_spaces;
use crate::pane::InlineQueryType;
use crate::sql::Source;
use crate::text::{
    first_space, parse_usize, parse_usize_spec, split_first_space, str_eq,
};
use crate::type_inferer::{inferer_none, TypeInferer};

verus! {

/// The head of a command line: what stands before the first space.
pub open spec fn cmd_head(cmd: Seq<char>) -> Seq<char> {
    match first_space(cmd) {
        Some(i) => cmd.subrange(0, i),
        None => cmd,
    }
}

/// The rest of a command line: what stands after the first space.
pub open spec fn cmd_rest(cmd: Seq<char>) -> Seq<char> {
    match first_space(cmd) {
        Some(i) => cmd.subrange(i + 1, cmd.len() as int),
        None => Seq::empty(),
    }
}

/// The pieces of a split on every single space, empty pieces kept.
pub open spec fn split_all(s: Seq<char>) -> Seq<Seq<char>>
    decreases s.len(),
{
    match first_space(s) {
        Some(i) => if 0 <= i < s.len() {
            seq![s.subrange(0, i)] + split_all(s.subrange(i + 1, s.len() as int))
        } else {
            seq![s]
        },
        None => seq![s],
    }
}

/// Splits on every single space, keeping empty pieces.
fn split_raw(s: &str) -> (r: Vec<String>)
    ensures
        r.deep_view() == split_all(s@),
    decreases s@.len(),
{
    proof {
        crate::text::lemma_first_space(s@);
    }
    match crate::text::first_space_exec(s) {
        Some(i) => {
            let n = s.unicode_len();
            let head = s.substring_char(0, i);
            let rest = s.substring_char(i + 1, n);
            let mut r: Vec<String> = Vec::new();
            r.push(head.to_owned());
            let mut tail = split_raw(rest);
            r.append(&mut tail);
            proof {
                assert(r.deep_view() =~= split_all(s@));
            }
            r
        },
        None => {
            let mut r: Vec<String> = Vec::new();
            r.push(s.to_owned());
            proof {
                assert(r.deep_view() =~= split_all(s@));
            }
            r
        },
    }
}

/// One step of the `infer` argument fold: a type word switches its flag on.
pub open spec fn infer_update(acc: TypeInferer, word: Seq<char>) -> Option<TypeInferer> {
    if word == "int"@ {
        Some(TypeInferer { ints: true, ..acc })
    } else if word == "float"@ {
        Some(TypeInferer { floats: true, ..acc })
    } else if word == "boolean"@ {
        Some(TypeInferer { booleans: true, ..acc })
    } else if word == "date"@ {
        Some(TypeInferer { dates: true, ..acc })
    } else if word == "datetime"@ {
        Some(TypeInferer { datetimes: true, ..acc })
    } else if word == "all"@ {
        Some(TypeInferer { ints: true, floats: true, booleans: true, dates: true, datetimes: true })
    } else {
        None
    }
}

/// The `infer` arguments folded from position `k` on.
pub open spec fn infer_fold(words: Seq<Seq<char>>, k: int, acc: TypeInferer) -> Option<TypeInferer>
    decreases words.len() - k,
{
    if k < 0 || k >= words.len() {
        Some(acc)
    } else {
        match infer_update(acc, words[k]) {
            Some(next) => infer_fold(words, k + 1, next),
            None => None,
        }
    }
}

/// Options of a delimiter-separated import, each given at most once: the
/// separator and quote characters and whether a header row is present.
#[derive(Debug, Clone, Copy, PartialEq, Eq, Structural, Default)]
pub struct CsvImportArgs {
    pub separator: Option<char>,
    pub quote: Option<char>,
    pub has_header: Option<bool>,
}

impl CsvImportArgs {
    /// No option given yet.
    pub fn new() -> (r: CsvImportArgs)
        ensures
            r == csv_args_none(),
    {
        CsvImportArgs { separator: None, quote: None, has_header: None }
    }

    /// Reads one option word into the arguments: `nh` or `no-header` once;
    /// `\t` or a single ASCII character fills the separator first, the quote
    /// second.
    pub fn update(self, arg: &str) -> (r: AppResult<CsvImportArgs>)
        ensures
            match r {
                Ok(a) => csv_update(self, arg@) == Some(a),
                Err(e) => csv_update(self, arg@) is None && e is Parse,
            },
    {
        if str_eq(arg, "no-header") || str_eq(arg, "nh") {
            if self.has_header.is_none() {
                Ok(CsvImportArgs { has_header: Some(false), ..self })
            } else {
                Err(AppError::Parse("no-header is allowed only once".to_owned()))
            }
        } else if str_eq(arg, "\\t") {
            proof {
                reveal_strlit("\\t");
            }
            if self.separator.is_none() {
                Ok(CsvImportArgs { separator: Some('\t'), ..self })
            } else if self.quote.is_none() {
                Ok(CsvImportArgs { quote: Some('\t'), ..self })
            } else {
                Err(AppError::Parse("more than two character arguments provided".to_owned()))
            }
        } else if arg.unicode_len() == 1 {
            let c = arg.get_char(0);
            let u = c as u32;
            if u <= 127 {
                proof {
                    assert(arg@ =~= seq![c]);
                }
                if self.separator.is_none() {
                    Ok(CsvImportArgs { separator: Some(c), ..self })
                } else if self.quote.is_none() {
                    Ok(CsvImportArgs { quote: Some(c), ..self })
                } else {
                    Err(AppError::Parse("more than two character arguments provided".to_owned()))
                }
            } else {
                Err(AppError::Parse("invalid argument".to_owned()))
            }
        } else {
            proof {
                reveal_strlit("\\t");
                if arg@.len() == 1 {
                    assert(arg@ =~= seq![arg@[0]]);
                }
            }
            Err(AppError::Parse("invalid argument".to_owned()))
        }
    }
}

/// The empty delimiter-separated options.
pub open spec fn csv_args_none() -> CsvImportArgs {
    CsvImportArgs { separator: None, quote: None, has_header: None }
}

/// One step of the delimiter-separated option fold.
pub open spec fn csv_update(acc: CsvImportArgs, word: Seq<char>) -> Option<CsvImportArgs> {
    if word == "no-header"@ || word == "nh"@ {
        if acc.has_header is None {
            Some(CsvImportArgs { has_header: Some(false), ..acc })
        } else {
            None
        }
    } else if word == "\\t"@ {
        if acc.separator is None {
            Some(CsvImportArgs { separator: Some('\t'), ..acc })
        } else if acc.quote is None {
            Some(CsvImportArgs { quote: Some('\t'), ..acc })
        } else {
            None
        }
    } else if word.len() == 1 && word[0] as u32 <= 127 {
        if acc.separator is None {
            Some(CsvImportArgs { separator: Some(word[0]), ..acc })
        } else if acc.quote is None {
            Some(CsvImportArgs { quote: Some(word[0]), ..acc })
        } else {
            None
        }
    } else {
        None
    }
}

/// The delimiter-separated options folded from position `k` on.
pub open spec fn csv_fold(words: Seq<Seq<char>>, k: int, acc: CsvImportArgs) -> Option<
    CsvImportArgs,
>
    decreases words.len() - k,
{
    if k < 0 || k >= words.len() {
        Some(acc)
    } else {
        match csv_update(acc, words[k]) {
            Some(next) => csv_fold(words, k + 1, next),
            None => None,
        }
    }
}

/// The mathematical shape of the fixed-width options.
pub ghost struct FwfArgsModel {
    pub widths: Seq<usize>,
    pub separator_length: Option<usize>,
    pub flexible_width: Option<bool>,
    pub has_header: Option<bool>,
}

/// Options of a fixed-width import: the flags at most once each; the first
/// integer is the separator length, the rest are column widths in order.
#[derive(Debug, Clone, PartialEq, Default)]
pub struct FwfImportArgs {
    pub widths: Vec<usize>,
    pub separator_length: Option<usize>,
    pub flexible_width: Option<bool>,
    pub has_header: Option<bool>,
}

impl View for FwfImportArgs {
    type V = FwfArgsModel;

    open spec fn view(&self) -> FwfArgsModel {
        FwfArgsModel {
            widths: self.widths@,
            separator_length: self.separator_length,
            flexible_width: self.flexible_width,
            has_header: self.has_header,
        }
    }
}

impl FwfImportArgs {
    /// No option given yet.
    pub fn new() -> (r: FwfImportArgs)
        ensures
            r@ == fwf_args_none(),
    {
        let r = FwfImportArgs {
            widths: Vec::new(),
            separator_length: None,
            flexible_width: None,
            has_header: None,
        };
        proof {
            assert(r@.widths =~= fwf_args_none().widths);
        }
        r
    }

    /// Reads one option word into the arguments.
    pub fn update(self, arg: &str) -> (r: AppResult<FwfImportArgs>)
        ensures
            match r {
                Ok(a) => fwf_update(self@, arg@) == Some(a@),
                Err(e) => fwf_update(self@, arg@) is None && e is Parse,
            },
    {
        if str_eq(arg, "flexible-width") || str_eq(arg, "fw") {
            if self.flexible_width.is_none() {
                Ok(FwfImportArgs { flexible_width: Some(true), ..self })
            } else {
                Err(AppError::Parse("flexible-width is allowed only once".to_owned()))
            }
        } else if str_eq(arg, "no-header") || str_eq(arg, "nh") {
            if self.has_header.is_none() {
                Ok(FwfImportArgs { has_header: Some(false), ..self })
            } else {
                Err(AppError::Parse("no-header is allowed only once".to_owned()))
            }
        } else {
            match parse_usize(arg) {
                Some(w) => {
                    if self.separator_length.is_none() {
                        Ok(FwfImportArgs { separator_length: Some(w), ..self })
                    } else {
                        let mut widths = self.widths;
                        widths.push(w);
                        Ok(FwfImportArgs { widths, ..self })
                    }
                },
                None => Err(AppError::Parse("invalid argument".to_owned())),
            }
        }
    }
}

/// The empty fixed-width options.
pub open spec fn fwf_args_none() -> FwfArgsModel {
    FwfArgsModel {
        widths: Seq::empty(),
        separator_length: None,
        flexible_width: None,
        has_header: None,
    }
}

/// One step of the fixed-width option fold.
pub open spec fn fwf_update(acc: FwfArgsModel, word: Seq<char>) -> Option<FwfArgsModel> {
    if word == "flexible-width"@ || word == "fw"@ {
        if acc.flexible_width is None {
            Some(FwfArgsModel { flexible_width: Some(true), ..acc })
        } else {
            None
        }
    } else if word == "no-header"@ || word == "nh"@ {
        if acc.has_header is None {
            Some(FwfArgsModel { has_header: Some(false), ..acc })
        } else {
            None
        }
    } else {
        match parse_usize_spec(word) {
            Some(w) => {
                if acc.separator_length is None {
                    Some(FwfArgsModel { separator_length: Some(w), ..acc })
                } else {
                    Some(FwfArgsModel { widths: acc.widths.push(w), ..acc })
                }
            },
            None => None,
        }
    }
}

/// The fixed-width options folded from position `k` on.
pub open spec fn fwf_fold(words: Seq<Seq<char>>, k: int, acc: FwfArgsModel) -> Option<FwfArgsModel>
    decreases words.len() - k,
{
    if k < 0 || k >= words.len() {
        Some(acc)
    } else {
        match fwf_update(acc, words[k]) {
            Some(next) => fwf_fold(words, k + 1, next),
            None => None,
        }
    }
}

/// What shell-words splitting yields on the text, when it parses: the words
/// with quotes and escapes honored.
pub uninterp spec fn shell_split_of(s: Seq<char>) -> Option<Seq<Seq<char>>>;

/// Relies on shell_words::split: POSIX-shell word splitting depends on the
/// input text alone.
#[verifier::external_body]
fn shell_split(s: &str) -> (r: Result<Vec<String>, String>)
    ensures
        match r {
            Ok(v) => shell_split_of(s@) == Some(v.deep_view()),
            Err(_) => shell_split_of(s@) is None,
        },
{
    shell_words::split(s).map_err(|e| format!("{e}"))
}

/// What parsing an export command line yields: a format word, a space, and
/// the destination path.
pub open spec fn export_post(rest: Seq<char>, r: AppResult<AppAction>) -> bool {
    match first_space(rest) {
        None => r matches Err(e) && e is Parse,
        Some(i) => {
            let fmt = rest.subrange(0, i);
            let path = rest.subrange(i + 1, rest.len() as int);
            if fmt == "csv"@ {
                r matches Ok(a) && a matches AppAction::ExportDsv {
                    destination,
                    separator,
                    quote,
                    header,
                } && destination@ == path && separator == ',' && quote == '"' && header == true
            } else if fmt == "tsv"@ {
                r matches Ok(a) && a matches AppAction::ExportDsv {
                    destination,
                    separator,
                    quote,
                    header,
                } && destination@ == path && separator == '\t' && quote == '"' && header == true
            } else if fmt == "parquet"@ {
                r matches Ok(a) && a matches AppAction::ExportParquet(d) && d@ == path
            } else if fmt == "json"@ {
                r matches Ok(a) && a matches AppAction::ExportJson(d, f) && d@ == path && f
                    == JsonFormat::Json
            } else if fmt == "jsonl"@ {
                r matches Ok(a) && a matches AppAction::ExportJson(d, f) && d@ == path && f
                    == JsonFormat::JsonLine
            } else if fmt == "arrow"@ {
                r matches Ok(a) && a matches AppAction::ExportArrow(d) && d@ == path
            } else {
                r matches Err(e) && e is UnsupportedFormat
            }
        },
    }
}

/// The end of the import format token: the first space or opening bracket.
pub open spec fn fmt_end(s: Seq<char>) -> int
    decreases s.len(),
{
    if s.len() == 0 {
        0
    } else if s[0] == ' ' || s[0] == '[' {
        0
    } else {
        1 + fmt_end(s.drop_first())
    }
}

/// `fmt_end` names the least index holding a space or bracket.
proof fn lemma_fmt_end(s: Seq<char>)
    ensures
        0 <= fmt_end(s) <= s.len(),
        fmt_end(s) < s.len() ==> (s[fmt_end(s)] == ' ' || s[fmt_end(s)] == '['),
        forall|j: int| 0 <= j < fmt_end(s) ==> s[j] != ' ' && s[j] != '[',
    decreases s.len(),
{
    if s.len() > 0 && s[0] != ' ' && s[0] != '[' {
        let t = s.drop_first();
        lemma_fmt_end(t);
        assert(forall|j: int| 0 <= j < t.len() ==> t[j] == s[j + 1]);
        assert(fmt_end(s) == 1 + fmt_end(t));
        if fmt_end(s) < s.len() {
            assert(s[fmt_end(s)] == t[fmt_end(t)]);
        }
        assert forall|j: int| 0 <= j < fmt_end(s) implies s[j] != ' ' && s[j] != '[' by {
            if j > 0 {
                assert(s[j] == t[j - 1]);
            }
        }
    }
}

/// The index of the first closing bracket at or after `j`, if any.
pub open spec fn find_close(s: Seq<char>, j: nat) -> Option<int>
    decreases s.len() - j,
{
    if j >= s.len() {
        None
    } else if s[j as int] == ']' {
        Some(j as int)
    } else {
        find_close(s, (j + 1) as nat)
    }
}

/// What parsing the tail of an import command line with bracketed options
/// yields for a delimiter-separated file.
pub open spec fn import_csv_post(opts: Seq<char>, path: Seq<char>, r: AppResult<
    AppAction,
>) -> bool {
    match csv_fold(crate::text::space_words(opts), 0, csv_args_none()) {
        Some(args) => r matches Ok(a) && a matches AppAction::ImportDsv {
            source,
            separator,
            has_header,
            quote,
        } && source matches Source::File(p) && p@ == path && separator == (match args.separator {
            Some(c) => c,
            None => ',',
        }) && quote == (match args.quote {
            Some(c) => c,
            None => '"',
        }) && has_header == (match args.has_header {
            Some(b) => b,
            None => true,
        }),
        None => r matches Err(e) && e is Parse,
    }
}

/// The same for a fixed-width file.
pub open spec fn import_fwf_post(opts: Seq<char>, path: Seq<char>, r: AppResult<
    AppAction,
>) -> bool {
    match fwf_fold(crate::text::space_words(opts), 0, fwf_args_none()) {
        Some(args) => r matches Ok(a) && a matches AppAction::ImportFwf {
            source,
            widths,
            separator_length,
            flexible_width,
            has_header,
        } && source matches Source::File(p) && p@ == path && widths@ == args.widths
            && separator_length == (match args.separator_length {
            Some(w) => w,
            None => 0,
        }) && flexible_width == (match args.flexible_width {
            Some(b) => b,
            None => false,
        }) && has_header == (match args.has_header {
            Some(b) => b,
            None => true,
        }),
        None => r matches Err(e) && e is Parse,
    }
}

/// Whether a format word takes bracketed options.
pub open spec fn fmt_takes_opts(fmt: Seq<char>) -> bool {
    fmt == "csv"@ || fmt == "fwf"@
}

/// What parsing the rest of an import command yields. The format word ends
/// at the first space or bracket; `csv` and `fwf` may carry bracketed
/// options; the path is what follows the next run of spaces.
pub open spec fn import_post(rest: Seq<char>, r: AppResult<AppAction>) -> bool {
    let fe = fmt_end(rest);
    let fmt = rest.subrange(0, fe);
    let known = fmt == "csv"@ || fmt == "parquet"@ || fmt == "json"@ || fmt == "jsonl"@ || fmt
        == "arrow"@ || fmt == "sqlite"@ || fmt == "fwf"@;
    if !known {
        r matches Err(e) && e is Parse
    } else {
        let ns = skip_spaces(rest, fe as nat);
        if fmt_takes_opts(fmt) && ns < rest.len() && rest[ns as int] == '[' {
            match find_close(rest, (ns + 1) as nat) {
                None => r matches Err(e) && e is Parse,
                Some(ce) => {
                    let opts = rest.subrange(ns as int + 1, ce);
                    if fmt == "csv"@ && opts.len() == 0 {
                        r matches Err(e) && e is Parse
                    } else if ce + 1 >= rest.len() || rest[ce + 1] != ' ' {
                        r matches Err(e) && e is Parse
                    } else {
                        let path = rest.subrange(
                            skip_spaces(rest, (ce + 1) as nat) as int,
                            rest.len() as int,
                        );
                        if fmt == "csv"@ {
                            import_csv_post(opts, path, r)
                        } else {
                            import_fwf_post(opts, path, r)
                        }
                    }
                },
            }
        } else if fe < rest.len() && rest[fe] == ' ' {
            let path = rest.subrange(skip_spaces(rest, fe as nat) as int, rest.len() as int);
            if fmt == "csv"@ {
                import_csv_post(Seq::empty(), path, r)
            } else if fmt == "fwf"@ {
                import_fwf_post(Seq::empty(), path, r)
            } else if fmt == "parquet"@ {
                r matches Ok(a) && a matches AppAction::ImportParquet(s) && s matches Source::File(
                    p,
                ) && p@ == path
            } else if fmt == "json"@ {
                r matches Ok(a) && a matches AppAction::ImportJson(s, f) && s
                    matches Source::File(p) && p@ == path && f == JsonFormat::Json
            } else if fmt == "jsonl"@ {
                r matches Ok(a) && a matches AppAction::ImportJson(s, f) && s
                    matches Source::File(p) && p@ == path && f == JsonFormat::JsonLine
            } else if fmt == "arrow"@ {
                r matches Ok(a) && a matches AppAction::ImportArrow(s) && s matches Source::File(
                    p,
                ) && p@ == path
            } else {
                r matches Ok(a) && a matches AppAction::ImportSqlite(s) && s matches Source::File(
                    p,
                ) && p@ == path
            }
        } else {
            r matches Err(e) && e is Parse
        }
    }
}

/// What parsing a whole command line yields, by its head and rest.
pub open spec fn parse_post(h: Seq<char>, rest: Seq<char>, r: AppResult<AppAction>) -> bool {
    if h == "Q"@ || h == "query"@ {
        r matches Ok(a) && a matches AppAction::TableQuery(s) && s@ == rest
    } else if h == "q"@ || h == "quit"@ {
        r == Ok::<AppAction, AppError>(AppAction::Quit)
    } else if h == "goto"@ {
        if rest.len() == 0 {
            r == Ok::<AppAction, AppError>(AppAction::GoToLineShow)
        } else {
            match parse_usize_spec(rest) {
                Some(n) => r == Ok::<AppAction, AppError>(
                    AppAction::GotoLine(
                        if n > 0 {
                            (n - 1) as usize
                        } else {
                            0
                        },
                    ),
                ),
                None => r matches Err(e) && e is Parse,
            }
        }
    } else if h == "goup"@ {
        if rest == "page"@ {
            r == Ok::<AppAction, AppError>(AppAction::TableGoUpFullPage)
        } else if rest == "half"@ {
            r == Ok::<AppAction, AppError>(AppAction::TableGoUpHalfPage)
        } else {
            match parse_usize_spec(rest) {
                Some(n) => r == Ok::<AppAction, AppError>(AppAction::TableGoUp(n)),
                None => r matches Err(e) && e is Parse,
            }
        }
    } else if h == "godown"@ {
        if rest == "page"@ {
            r == Ok::<AppAction, AppError>(AppAction::TableGoDownFullPage)
        } else if rest == "half"@ {
            r == Ok::<AppAction, AppError>(AppAction::TableGoDownHalfPage)
        } else {
            match parse_usize_spec(rest) {
                Some(n) => r == Ok::<AppAction, AppError>(AppAction::TableGoDown(n)),
                None => r matches Err(e) && e is Parse,
            }
        }
    } else if h == "reset"@ {
        r == Ok::<AppAction, AppError>(AppAction::TableReset)
    } else if h == "help"@ {
        r == Ok::<AppAction, AppError>(AppAction::Help)
    } else if h == "S"@ || h == "select"@ {
        r matches Ok(a) && a matches AppAction::TableSelect(s) && s@ == rest
    } else if h == "F"@ || h == "filter"@ {
        if rest.len() == 0 {
            r == Ok::<AppAction, AppError>(AppAction::InlineQueryShow(InlineQueryType::Filter))
        } else {
            r matches Ok(a) && a matches AppAction::TableFilter(s) && s@ == rest
        }
    } else if h == "O"@ || h == "order"@ {
        if rest.len() == 0 {
            r == Ok::<AppAction, AppError>(AppAction::InlineQueryShow(InlineQueryType::Order))
        } else {
            r matches Ok(a) && a matches AppAction::TableOrder(s) && s@ == rest
        }
    } else if h == "schema"@ {
        r == Ok::<AppAction, AppError>(AppAction::SwitchToSchema)
    } else if h == "rand"@ {
        r == Ok::<AppAction, AppError>(AppAction::TableGotoRandom)
    } else if h == "tabn"@ {
        r matches Ok(a) && a matches AppAction::TabNewQuery(s) && s@ == rest
    } else if h == "tabr"@ {
        match parse_usize_spec(rest) {
            Some(n) => r == Ok::<AppAction, AppError>(AppAction::TabRemove(n)),
            None => r matches Err(e) && e is Parse,
        }
    } else if h == "tab"@ {
        match parse_usize_spec(rest) {
            Some(n) => r == Ok::<AppAction, AppError>(AppAction::TabSelect(n)),
            None => r matches Err(e) && e is Parse,
        }
    } else if h == "infer"@ {
        match infer_fold(split_all(rest), 0, inferer_none()) {
            Some(ti) => r == Ok::<AppAction, AppError>(AppAction::TableInferColumns(ti)),
            None => r matches Err(e) && e is Parse,
        }
    } else if h == "register"@ {
        r matches Ok(a) && a matches AppAction::RegisterDataFrame(s) && s@ == rest
    } else if h == "scatter"@ {
        match shell_split_of(rest) {
            None => r matches Err(e) && e is Parse,
            Some(words) => if words.len() < 2 {
                r matches Err(e) && e is Parse
            } else {
                r matches Ok(a) && a matches AppAction::ScatterPlot(x, y, gb) && x@ == words[0]
                    && y@ == words[1] && gb.deep_view() == words.skip(2)
            },
        }
    } else if h == "hist"@ {
        match shell_split_of(rest) {
            None => r matches Err(e) && e is Parse,
            Some(words) => if words.len() == 1 {
                r matches Ok(a) && a matches AppAction::HistogramPlot(c, b) && c@ == words[0] && b
                    == 38
            } else if words.len() == 2 {
                match parse_usize_spec(words[1]) {
                    Some(b) => r matches Ok(a) && a matches AppAction::HistogramPlot(c, bb) && c@
                        == words[0] && bb == b,
                    None => r matches Err(e) && e is Parse,
                }
            } else {
                r matches Err(e) && e is Parse
            },
        }
    } else if h == "theme"@ {
        r == Ok::<AppAction, AppError>(AppAction::ThemeSelectorShow)
    } else if h == "export"@ {
        export_post(rest, r)
    } else if h == "import"@ {
        import_post(rest, r)
    } else {
        r matches Err(e) && e is Parse
    }
}

/// Builds an error message from three pieces.
fn error_message(before: &str, mid: &str, after: &str) -> (r: String)
    ensures
        r@ == before@ + mid@ + after@,
{
    let mut s = before.to_owned();
    s.append(mid);
    s.append(after);
    s
}

/// Parses one command line into the action it asks for: the head picks the
/// command, the rest is read by that command's argument shape.
pub fn parse_into_action(cmd: &str) -> (r: AppResult<AppAction>)
    ensures
        parse_post(cmd_head(cmd@), cmd_rest(cmd@), r),
        r matches Ok(a) ==> action_rank(a) <= 3,
{
    let (head, rest) = split_first_space(cmd);
    proof {
        assert(head@ == cmd_head(cmd@));
        assert(rest@ == cmd_rest(cmd@));
    }
    if str_eq(head, "Q") || str_eq(head, "query") {
        Ok(AppAction::TableQuery(rest.to_owned()))
    } else if str_eq(head, "q") || str_eq(head, "quit") {
        Ok(AppAction::Quit)
    } else if str_eq(head, "goto") {
        if rest.is_empty() {
            Ok(AppAction::GoToLineShow)
        } else {
            match parse_usize(rest) {
                Some(n) => Ok(AppAction::GotoLine(if n > 0 {
                    n - 1
                } else {
                    0
                })),
                None => Err(AppError::Parse(error_message("cannot read a line number from '", rest, "'"))),
            }
        }
    } else if str_eq(head, "goup") {
        if str_eq(rest, "page") {
            Ok(AppAction::TableGoUpFullPage)
        } else if str_eq(rest, "half") {
            Ok(AppAction::TableGoUpHalfPage)
        } else {
            match parse_usize(rest) {
                Some(n) => Ok(AppAction::TableGoUp(n)),
                None => Err(AppError::Parse(error_message("cannot read a line count from '", rest, "'"))),
            }
        }
    } else if str_eq(head, "godown") {
        if str_eq(rest, "page") {
            Ok(AppAction::TableGoDownFullPage)
        } else if str_eq(rest, "half") {
            Ok(AppAction::TableGoDownHalfPage)
        } else {
            match parse_usize(rest) {
                Some(n) => Ok(AppAction::TableGoDown(n)),
                None => Err(AppError::Parse(error_message("cannot read a line count from '", rest, "'"))),
            }
        }
    } else if str_eq(head, "reset") {
        Ok(AppAction::TableReset)
    } else if str_eq(head, "help") {
        Ok(AppAction::Help)
    } else if str_eq(head, "S") || str_eq(head, "select") {
        Ok(AppAction::TableSelect(rest.to_owned()))
    } else if str_eq(head, "F") || str_eq(head, "filter") {
        if rest.is_empty() {
            Ok(AppAction::InlineQueryShow(InlineQueryType::Filter))
        } else {
            Ok(AppAction::TableFilter(rest.to_owned()))
        }
    } else if str_eq(head, "O") || str_eq(head, "order") {
        if rest.is_empty() {
            Ok(AppAction::InlineQueryShow(InlineQueryType::Order))
        } else {
            Ok(AppAction::TableOrder(rest.to_owned()))
        }
    } else if str_eq(head, "schema") {
        Ok(AppAction::SwitchToSchema)
    } else if str_eq(head, "rand") {
        Ok(AppAction::TableGotoRandom)
    } else if str_eq(head, "tabn") {
        Ok(AppAction::TabNewQuery(rest.to_owned()))
    } else if str_eq(head, "tabr") {
        match parse_usize(rest) {
            Some(n) => Ok(AppAction::TabRemove(n)),
            None => Err(AppError::Parse(error_message("cannot read a tab index from '", rest, "'"))),
        }
    } else if str_eq(head, "tab") {
        match parse_usize(rest) {
            Some(n) => Ok(AppAction::TabSelect(n)),
            None => Err(AppError::Parse(error_message("cannot read a tab index from '", rest, "'"))),
        }
    } else if str_eq(head, "infer") {
        parse_infer(rest)
    } else if str_eq(head, "register") {
        Ok(AppAction::RegisterDataFrame(rest.to_owned()))
    } else if str_eq(head, "scatter") {
        parse_scatter(rest)
    } else if str_eq(head, "hist") {
        parse_hist(rest)
    } else if str_eq(head, "theme") {
        Ok(AppAction::ThemeSelectorShow)
    } else if str_eq(head, "export") {
        parse_export(rest)
    } else if str_eq(head, "import") {
        parse_import(rest)
    } else {
        Err(AppError::Parse(error_message("invalid command '", cmd, "'")))
    }
}

/// Parses the `infer` arguments: type words folded into the flag set.
fn parse_infer(rest: &str) -> (r: AppResult<AppAction>)
    ensures
        match infer_fold(split_all(rest@), 0, inferer_none()) {
            Some(ti) => r == Ok::<AppAction, AppError>(AppAction::TableInferColumns(ti)),
            None => r matches Err(e) && e is Parse,
        },
        r matches Ok(a) ==> action_rank(a) <= 3,
{
    let words = split_raw(rest);
    let ghost wmodel = words.deep_view();
    let n = words.len();
    let mut acc = TypeInferer::new();
    let mut k: usize = 0;
    while k < n
        invariant
            0 <= k <= n == wmodel.len(),
            words.deep_view() == wmodel,
            n == words@.len(),
            wmodel == split_all(rest@),
            infer_fold(wmodel, 0, inferer_none()) == infer_fold(wmodel, k as int, acc),
        decreases n - k,
    {
        let w = &words[k];
        proof {
            assert(wmodel[k as int] == w@);
        }
        if str_eq(w.as_str(), "int") {
            acc = TypeInferer { ints: true, ..acc };
        } else if str_eq(w.as_str(), "float") {
            acc = TypeInferer { floats: true, ..acc };
        } else if str_eq(w.as_str(), "boolean") {
            acc = TypeInferer { booleans: true, ..acc };
        } else if str_eq(w.as_str(), "date") {
            acc = TypeInferer { dates: true, ..acc };
        } else if str_eq(w.as_str(), "datetime") {
            acc = TypeInferer { datetimes: true, ..acc };
        } else if str_eq(w.as_str(), "all") {
            acc = TypeInferer::all();
        } else {
            return Err(AppError::Parse(error_message("invalid type '", w.as_str(), "'")));
        }
        k = k + 1;
    }
    Ok(AppAction::TableInferColumns(acc))
}

/// Parses the `scatter` arguments: two axes, then any grouping columns,
/// split as a POSIX shell would.
fn parse_scatter(rest: &str) -> (r: AppResult<AppAction>)
    ensures
        match shell_split_of(rest@) {
            None => r matches Err(e) && e is Parse,
            Some(words) => if words.len() < 2 {
                r matches Err(e) && e is Parse
            } else {
                r matches Ok(a) && a matches AppAction::ScatterPlot(x, y, gb) && x@ == words[0]
                    && y@ == words[1] && gb.deep_view() == words.skip(2)
            },
        },
        r matches Ok(a) ==> action_rank(a) <= 3,
{
    let words = match shell_split(rest) {
        Ok(w) => w,
        Err(m) => {
            return Err(AppError::Parse(m));
        },
    };
    if words.len() < 2 {
        return Err(AppError::Parse("scatter requires two axes".to_owned()));
    }
    let ghost wmodel = words.deep_view();
    let n = words.len();
    let x = words[0].clone();
    let y = words[1].clone();
    let mut gb: Vec<String> = Vec::new();
    let mut k: usize = 2;
    while k < n
        invariant
            2 <= k <= n == wmodel.len(),
            words.deep_view() == wmodel,
            n == words@.len(),
            gb@.len() == k - 2,
            forall|t: int| 0 <= t < gb@.len() ==> (#[trigger] gb@[t])@ == wmodel[t + 2],
        decreases n - k,
    {
        proof {
            assert(wmodel[k as int] == words@[k as int]@);
        }
        gb.push(words[k].clone());
        k = k + 1;
    }
    proof {
        assert forall|t: int| 0 <= t < gb.deep_view().len() implies gb.deep_view()[t]
            == wmodel.skip(2)[t] by {
            assert(gb.deep_view()[t] == gb@[t]@);
        }
        assert(gb.deep_view() =~= wmodel.skip(2));
        assert(x@ == wmodel[0]);
        assert(y@ == wmodel[1]);
    }
    Ok(AppAction::ScatterPlot(x, y, gb))
}

/// Parses the `hist` arguments: a column and an optional bucket count,
/// split as a POSIX shell would.
fn parse_hist(rest: &str) -> (r: AppResult<AppAction>)
    ensures
        match shell_split_of(rest@) {
            None => r matches Err(e) && e is Parse,
            Some(words) => if words.len() == 1 {
                r matches Ok(a) && a matches AppAction::HistogramPlot(c, b) && c@ == words[0] && b
                    == 38
            } else if words.len() == 2 {
                match parse_usize_spec(words[1]) {
                    Some(b) => r matches Ok(a) && a matches AppAction::HistogramPlot(c, bb) && c@
                        == words[0] && bb == b,
                    None => r matches Err(e) && e is Parse,
                }
            } else {
                r matches Err(e) && e is Parse
            },
        },
        r matches Ok(a) ==> action_rank(a) <= 3,
{
    let words = match shell_split(rest) {
        Ok(w) => w,
        Err(m) => {
            return Err(AppError::Parse(m));
        },
    };
    if words.len() == 1 {
        Ok(AppAction::HistogramPlot(words[0].clone(), 38))
    } else if words.len() == 2 {
        match parse_usize(words[1].as_str()) {
            Some(b) => Ok(AppAction::HistogramPlot(words[0].clone(), b)),
            None => Err(AppError::Parse("cannot read the bucket count".to_owned())),
        }
    } else {
        Err(AppError::Parse("histogram should be supplied with only one column".to_owned()))
    }
}

/// Parses the `export` arguments: a format word, a space, and the path.
fn parse_export(rest: &str) -> (r: AppResult<AppAction>)
    ensures
        export_post(rest@, r),
        r matches Ok(a) ==> action_rank(a) <= 3,
{
    proof {
        crate::text::lemma_first_space(rest@);
    }
    let has_space = crate::text::first_space_exec(rest);
    if has_space.is_none() {
        return Err(AppError::Parse("export should provide format and path".to_owned()));
    }
    let (fmt, path) = split_first_space(rest);
    if str_eq(fmt, "csv") {
        Ok(
            AppAction::ExportDsv {
                destination: path.to_owned(),
                separator: ',',
                quote: '"',
                header: true,
            },
        )
    } else if str_eq(fmt, "tsv") {
        Ok(
            AppAction::ExportDsv {
                destination: path.to_owned(),
                separator: '\t',
                quote: '"',
                header: true,
            },
        )
    } else if str_eq(fmt, "parquet") {
        Ok(AppAction::ExportParquet(path.to_owned()))
    } else if str_eq(fmt, "json") {
        Ok(AppAction::ExportJson(path.to_owned(), JsonFormat::Json))
    } else if str_eq(fmt, "jsonl") {
        Ok(AppAction::ExportJson(path.to_owned(), JsonFormat::JsonLine))
    } else if str_eq(fmt, "arrow") {
        Ok(AppAction::ExportArrow(path.to_owned()))
    } else {
        Err(
            AppError::UnsupportedFormat(
                "unsupported format; supported ones: csv, tsv, parquet, json, jsonl, and arrow".to_owned(),
            ),
        )
    }
}

/// Finds the end of the import format token.
fn find_fmt_end(s: &str) -> (r: usize)
    ensures
        r == fmt_end(s@),
{
    proof {
        lemma_fmt_end(s@);
    }
    let n = s.unicode_len();
    let mut i: usize = 0;
    while i < n
        invariant
            0 <= i <= n == s@.len(),
            forall|j: int| 0 <= j < i ==> s@[j] != ' ' && s@[j] != '[',
            i <= fmt_end(s@),
        decreases n - i,
    {
        let c = s.get_char(i);
        proof {
            lemma_fmt_end(s@);
        }
        if c == ' ' || c == '[' {
            proof {
                assert(fmt_end(s@) <= i);
            }
            return i;
        }
        i = i + 1;
    }
    proof {
        lemma_fmt_end(s@);
    }
    n
}

/// Finds the first non-space at or after `j`.
fn find_nonspace(s: &str, j: usize) -> (r: usize)
    requires
        j <= s@.len(),
    ensures
        r == skip_spaces(s@, j as nat),
        j <= r <= s@.len(),
{
    let n = s.unicode_len();
    let mut k: usize = j;
    while k < n && s.get_char(k) == ' '
        invariant
            j <= k <= n == s@.len(),
            skip_spaces(s@, j as nat) == skip_spaces(s@, k as nat),
        decreases n - k,
    {
        k = k + 1;
    }
    k
}

/// Finds the first closing bracket at or after `j`.
fn find_close_exec(s: &str, j: usize) -> (r: Option<usize>)
    requires
        j <= s@.len(),
    ensures
        match r {
            Some(i) => find_close(s@, j as nat) == Some(i as int) && j <= i < s@.len(),
            None => find_close(s@, j as nat) is None,
        },
{
    let n = s.unicode_len();
    let mut k: usize = j;
    while k < n && s.get_char(k) != ']'
        invariant
            j <= k <= n == s@.len(),
            find_close(s@, j as nat) == find_close(s@, k as nat),
        decreases n - k,
    {
        k = k + 1;
    }
    if k < n {
        Some(k)
    } else {
        None
    }
}

/// Folds the bracketed options of a delimiter-separated import.
fn fold_csv_opts(opts: &str) -> (r: AppResult<CsvImportArgs>)
    ensures
        match r {
            Ok(a) => csv_fold(crate::text::space_words(opts@), 0, csv_args_none()) == Some(a),
            Err(e) => csv_fold(crate::text::space_words(opts@), 0, csv_args_none()) is None && e
                is Parse,
        },
{
    let words = crate::text::split_spaces(opts);
    let ghost wmodel = words.deep_view();
    let n = words.len();
    let mut acc = CsvImportArgs::new();
    let mut k: usize = 0;
    while k < n
        invariant
            0 <= k <= n == wmodel.len(),
            words.deep_view() == wmodel,
            n == words@.len(),
            wmodel == crate::text::space_words(opts@),
            csv_fold(wmodel, 0, csv_args_none()) == csv_fold(wmodel, k as int, acc),
        decreases n - k,
    {
        proof {
            assert(wmodel[k as int] == words@[k as int]@);
        }
        match acc.update(words[k].as_str()) {
            Ok(next) => {
                acc = next;
            },
            Err(e) => {
                return Err(e);
            },
        }
        k = k + 1;
    }
    Ok(acc)
}

/// Folds the bracketed options of a fixed-width import.
fn fold_fwf_opts(opts: &str) -> (r: AppResult<FwfImportArgs>)
    ensures
        match r {
            Ok(a) => fwf_fold(crate::text::space_words(opts@), 0, fwf_args_none()) == Some(a@),
            Err(e) => fwf_fold(crate::text::space_words(opts@), 0, fwf_args_none()) is None && e
                is Parse,
        },
{
    let words = crate::text::split_spaces(opts);
    let ghost wmodel = words.deep_view();
    let n = words.len();
    let mut acc = FwfImportArgs::new();
    let mut k: usize = 0;
    while k < n
        invariant
            0 <= k <= n == wmodel.len(),
            words.deep_view() == wmodel,
            n == words@.len(),
            wmodel == crate::text::space_words(opts@),
            fwf_fold(wmodel, 0, fwf_args_none()) == fwf_fold(wmodel, k as int, acc@),
        decreases n - k,
    {
        proof {
            assert(wmodel[k as int] == words@[k as int]@);
        }
        match acc.update(words[k].as_str()) {
            Ok(next) => {
                acc = next;
            },
            Err(e) => {
                return Err(e);
            },
        }
        k = k + 1;
    }
    Ok(acc)
}

/// Parses the `import` arguments: a format word, optional bracketed options
/// for `csv` and `fwf`, and the path.
fn parse_import(rest: &str) -> (r: AppResult<AppAction>)
    ensures
        import_post(rest@, r),
        r matches Ok(a) ==> action_rank(a) <= 3,
{
    proof {
        lemma_fmt_end(rest@);
    }
    let n = rest.unicode_len();
    let fe = find_fmt_end(rest);
    let fmt = rest.substring_char(0, fe);
    let is_csv = str_eq(fmt, "csv");
    let is_fwf = str_eq(fmt, "fwf");
    let known = is_csv || is_fwf || str_eq(fmt, "parquet") || str_eq(fmt, "json") || str_eq(
        fmt,
        "jsonl",
    ) || str_eq(fmt, "arrow") || str_eq(fmt, "sqlite");
    if !known {
        return Err(AppError::Parse("import should provide format and path".to_owned()));
    }
    let ns = find_nonspace(rest, fe);
    if (is_csv || is_fwf) && ns < n && rest.get_char(ns) == '[' {
        match find_close_exec(rest, ns + 1) {
            None => Err(AppError::Parse("import options are not closed".to_owned())),
            Some(ce) => {
                let opts = rest.substring_char(ns + 1, ce);
                if is_csv && opts.is_empty() {
                    return Err(AppError::Parse("empty import options".to_owned()));
                }
                if ce + 1 >= n {
                    return Err(AppError::Parse("import should provide format and path".to_owned()));
                }
                if rest.get_char(ce + 1) != ' ' {
                    return Err(AppError::Parse("import should provide format and path".to_owned()));
                }
                let ps = find_nonspace(rest, ce + 1);
                let path = rest.substring_char(ps, n);
                if is_csv {
                    match fold_csv_opts(opts) {
                        Ok(args) => Ok(
                            AppAction::ImportDsv {
                                source: Source::File(path.to_owned()),
                                separator: match args.separator {
                                    Some(c) => c,
                                    None => ',',
                                },
                                has_header: match args.has_header {
                                    Some(b) => b,
                                    None => true,
                                },
                                quote: match args.quote {
                                    Some(c) => c,
                                    None => '"',
                                },
                            },
                        ),
                        Err(e) => Err(e),
                    }
                } else {
                    match fold_fwf_opts(opts) {
                        Ok(args) => Ok(
                            AppAction::ImportFwf {
                                source: Source::File(path.to_owned()),
                                widths: args.widths,
                                separator_length: match args.separator_length {
                                    Some(w) => w,
                                    None => 0,
                                },
                                flexible_width: match args.flexible_width {
                                    Some(b) => b,
                                    None => false,
                                },
                                has_header: match args.has_header {
                                    Some(b) => b,
                                    None => true,
                                },
                            },
                        ),
                        Err(e) => Err(e),
                    }
                }
            },
        }
    } else if fe < n && rest.get_char(fe) == ' ' {
        let ps = find_nonspace(rest, fe);
        let path = rest.substring_char(ps, n);
        if is_csv {
            proof {
                assert(crate::text::space_words(Seq::<char>::empty()) =~= Seq::<Seq<char>>::empty());
            }
            Ok(
                AppAction::ImportDsv {
                    source: Source::File(path.to_owned()),
                    separator: ',',
                    has_header: true,
                    quote: '"',
                },
            )
        } else if is_fwf {
            proof {
                assert(crate::text::space_words(Seq::<char>::empty()) =~= Seq::<Seq<char>>::empty());
            }
            Ok(
                AppAction::ImportFwf {
                    source: Source::File(path.to_owned()),
                    widths: Vec::new(),
                    separator_length: 0,
                    flexible_width: false,
                    has_header: true,
                },
            )
        } else if str_eq(fmt, "parquet") {
            Ok(AppAction::ImportParquet(Source::File(path.to_owned())))
        } else if str_eq(fmt, "json") {
            Ok(AppAction::ImportJson(Source::File(path.to_owned()), JsonFormat::Json))
        } else if str_eq(fmt, "jsonl") {
            Ok(AppAction::ImportJson(Source::File(path.to_owned()), JsonFormat::JsonLine))
        } else if str_eq(fmt, "arrow") {
            Ok(AppAction::ImportArrow(Source::File(path.to_owned())))
        } else {
            Ok(AppAction::ImportSqlite(Source::File(path.to_owned())))
        }
    } else {
        Err(AppError::Parse("import should provide format and path".to_owned()))
    }
}

/// Parsing through a short alias and through its long form yields the same
/// outcome: the same action on success, with equal texts inside, and a parse
/// failure of the same kind otherwise.
pub proof fn lemma_alias_equivalence(
    short: Seq<char>,
    long: Seq<char>,
    rest: Seq<char>,
    r1: AppResult<AppAction>,
    r2: AppResult<AppAction>,
)
    requires
        (short == "Q"@ && long == "query"@) || (short == "q"@ && long == "quit"@) || (short == "S"@
            && long == "select"@) || (short == "F"@ && long == "filter"@) || (short == "O"@ && long
            == "order"@),
        parse_post(short, rest, r1),
        parse_post(long, rest, r2),
    ensures
        results_agree(r1, r2),
{
    reveal_strlit("Q");
    reveal_strlit("query");
    reveal_strlit("q");
    reveal_strlit("quit");
    reveal_strlit("S");
    reveal_strlit("select");
    reveal_strlit("F");
    reveal_strlit("filter");
    reveal_strlit("O");
    reveal_strlit("order");
    reveal_strlit("goto");
    reveal_strlit("goup");
    reveal_strlit("godown");
    reveal_strlit("reset");
    reveal_strlit("help");
    reveal_strlit("schema");
    reveal_strlit("rand");
    reveal_strlit("tabn");
    reveal_strlit("tabr");
    reveal_strlit("tab");
    reveal_strlit("infer");
    reveal_strlit("register");
    reveal_strlit("scatter");
    reveal_strlit("hist");
    reveal_strlit("theme");
    reveal_strlit("export");
    reveal_strlit("import");
    assert("Q"@.len() == 1 && "Q"@[0] == 'Q');
    assert("q"@.len() == 1 && "q"@[0] == 'q');
    assert("S"@.len() == 1 && "S"@[0] == 'S');
    assert("F"@.len() == 1 && "F"@[0] == 'F');
    assert("O"@.len() == 1 && "O"@[0] == 'O');
    assert("query"@.len() == 5 && "query"@[0] == 'q');
    assert("quit"@.len() == 4 && "quit"@[0] == 'q');
    assert("select"@.len() == 6 && "select"@[0] == 's');
    assert("filter"@.len() == 6 && "filter"@[0] == 'f');
    assert("order"@.len() == 5 && "order"@[0] == 'o');
    assert("goto"@.len() == 4 && "goto"@[0] == 'g');
    assert("goup"@.len() == 4 && "goup"@[0] == 'g');
    assert("godown"@.len() == 6 && "godown"@[0] == 'g');
    assert("reset"@.len() == 5 && "reset"@[0] == 'r');
    assert("help"@.len() == 4 && "help"@[0] == 'h');
    assert("schema"@.len() == 6 && "schema"@[0] == 's');
    assert("rand"@.len() == 4 && "rand"@[0] == 'r');
    assert("tabn"@.len() == 4 && "tabn"@[0] == 't');
    assert("tabr"@.len() == 4 && "tabr"@[0] == 't');
    assert("tab"@.len() == 3 && "tab"@[0] == 't');
    assert("infer"@.len() == 5 && "infer"@[0] == 'i');
    assert("register"@.len() == 8 && "register"@[0] == 'r');
    assert("scatter"@.len() == 7 && "scatter"@[0] == 's');
    assert("hist"@.len() == 4 && "hist"@[0] == 'h');
    assert("theme"@.len() == 5 && "theme"@[0] == 't');
    assert("export"@.len() == 6 && "export"@[0] == 'e');
    assert("import"@.len() == 6 && "import"@[0] == 'i');
    assert("quit"@[1] == 'u' && "goto"@[1] == 'o' && "goup"@[1] == 'o' && "help"@[1] == 'e');
    assert("select"@[1] == 'e' && "filter"@[1] == 'i' && "godown"@[1] == 'o');
    if short == "Q"@ {
        assert(results_agree(r1, r2));
    } else if short == "q"@ {
        assert(results_agree(r1, r2));
    } else if short == "S"@ {
        assert(results_agree(r1, r2));
    } else if short == "F"@ {
        assert(results_agree(r1, r2));
    } else {
        assert(short == "O"@);
        assert(results_agree(r1, r2));
    }
}

/// Two parse outcomes describe the same action: same variant, equal texts.
pub open spec fn results_agree(r1: AppResult<AppAction>, r2: AppResult<AppAction>) -> bool {
    match (r1, r2) {
        (Ok(a1), Ok(a2)) => actions_agree(a1, a2),
        (Err(e1), Err(e2)) => e1 is Parse == e2 is Parse,
        _ => false,
    }
}

/// Two actions agree up to the views of their texts.
pub open spec fn actions_agree(a1: AppAction, a2: AppAction) -> bool {
    match (a1, a2) {
        (AppAction::TableQuery(s1), AppAction::TableQuery(s2)) => s1@ == s2@,
        (AppAction::TableSelect(s1), AppAction::TableSelect(s2)) => s1@ == s2@,
        (AppAction::TableFilter(s1), AppAction::TableFilter(s2)) => s1@ == s2@,
        (AppAction::TableOrder(s1), AppAction::TableOrder(s2)) => s1@ == s2@,
        (AppAction::InlineQueryShow(t1), AppAction::InlineQueryShow(t2)) => t1 == t2,
        (AppAction::Quit, AppAction::Quit) => true,
        _ => a1 == a2,
    }
}

/// How a command is typed: by its long form alone, or by a short alias too.
#[derive(Debug, Clone, Copy, PartialEq, Eq)]
pub enum Prefix {
    Long(&'static str),
    ShortAndLong(&'static str, &'static str),
}

impl Prefix {
    /// The short alias, where there is one.
    pub fn short(&self) -> (r: Option<&'static str>)
        ensures
            match self {
                Prefix::Long(_) => r is None,
                Prefix::ShortAndLong(sh, _) => r == Some(*sh),
            },
    {
        match self {
            Prefix::ShortAndLong(sh, _) => Some(sh),
            Prefix::Long(_) => None,
        }
    }

    /// The long form.
    pub fn long(&self) -> (r: Option<&'static str>)
        ensures
            match self {
                Prefix::Long(l) => r == Some(*l),
                Prefix::ShortAndLong(_, l) => r == Some(*l),
            },
    {
        match self {
            Prefix::Long(l) => Some(l),
            Prefix::ShortAndLong(_, l) => Some(l),
        }
    }
}

/// One row of the command registry: how the command is typed, its usage
/// line, and its description.
#[derive(Debug, Clone, Copy, PartialEq, Eq)]
pub struct Entry {
    pub prefix: Prefix,
    pub usage: &'static str,
    pub description: &'static str,
}

/// The short alias of registry entry `i`, where one exists.
pub open spec fn reg_short(i: int) -> Option<Seq<char>> {
    if i == 0 {
        Some("Q"@)
    } else if i == 1 {
        Some("q"@)
    } else if i == 2 {
        None
    } else if i == 3 {
        None
    } else if i == 4 {
        None
    } else if i == 5 {
        None
    } else if i == 6 {
        None
    } else if i == 7 {
        Some("S"@)
    } else if i == 8 {
        Some("F"@)
    } else if i == 9 {
        Some("O"@)
    } else if i == 10 {
        None
    } else if i == 11 {
        None
    } else if i == 12 {
        None
    } else if i == 13 {
        None
    } else if i == 14 {
        None
    } else if i == 15 {
        None
    } else if i == 16 {
        None
    } else if i == 17 {
        None
    } else if i == 18 {
        None
    } else if i == 19 {
        None
    } else if i == 20 {
        None
    } else if i == 21 {
        None
    } else {
        None
    }
}

/// The long form of registry entry `i`.
pub open spec fn reg_long(i: int) -> Seq<char> {
    if i == 0 {
        "query"@
    } else if i == 1 {
        "quit"@
    } else if i == 2 {
        "goto"@
    } else if i == 3 {
        "goup"@
    } else if i == 4 {
        "godown"@
    } else if i == 5 {
        "reset"@
    } else if i == 6 {
        "help"@
    } else if i == 7 {
        "select"@
    } else if i == 8 {
        "filter"@
    } else if i == 9 {
        "order"@
    } else if i == 10 {
        "schema"@
    } else if i == 11 {
        "rand"@
    } else if i == 12 {
        "tabn"@
    } else if i == 13 {
        "tabr"@
    } else if i == 14 {
        "tab"@
    } else if i == 15 {
        "infer"@
    } else if i == 16 {
        "register"@
    } else if i == 17 {
        "scatter"@
    } else if i == 18 {
        "hist"@
    } else if i == 19 {
        "theme"@
    } else if i == 20 {
        "export"@
    } else {
        "import"@
    }
}

/// The usage line of registry entry `i`.
pub open spec fn reg_usage(i: int) -> Seq<char> {
    if i == 0 {
        "Q <query>"@
    } else if i == 1 {
        "q"@
    } else if i == 2 {
        "goto <line_index>"@
    } else if i == 3 {
        "goup page | half | <lines>"@
    } else if i == 4 {
        "godown page | half | <lines>"@
    } else if i == 5 {
        "reset"@
    } else if i == 6 {
        "help"@
    } else if i == 7 {
        "select <column_name(s)>"@
    } else if i == 8 {
        "filter <condition(s)>"@
    } else if i == 9 {
        "order <column(s)_and_order(s)>"@
    } else if i == 10 {
        "schema"@
    } else if i == 11 {
        "rand"@
    } else if i == 12 {
        "tabn <query>"@
    } else if i == 13 {
        "tabr <tab_index>"@
    } else if i == 14 {
        "tab <tab_index>"@
    } else if i == 15 {
        "infer int | float | boolean | date | datetime | all ..."@
    } else if i == 16 {
        "register <data_frame_name>"@
    } else if i == 17 {
        "scatter <x-axis> <y-axis> [group-by ...]"@
    } else if i == 18 {
        "hist <column> [buckets]"@
    } else if i == 19 {
        "theme"@
    } else if i == 20 {
        "export <format> <path>"@
    } else {
        "import <format>[options] <path>"@
    }
}

/// The description of registry entry `i`.
pub open spec fn reg_description(i: int) -> Seq<char> {
    if i == 0 {
        "Query the data in Structured Query Language (SQL)."@
    } else if i == 1 {
        "Close all tables and quit."@
    } else if i == 2 {
        "Jump to the specified line."@
    } else if i == 3 {
        "Jump the specified number of lines up."@
    } else if i == 4 {
        "Jump the specified number of lines down."@
    } else if i == 5 {
        "Reset the data frame to its original state."@
    } else if i == 6 {
        "Show this help table."@
    } else if i == 7 {
        "Query the data frame for columns or functions."@
    } else if i == 8 {
        "Keep the rows where the condition(s) match."@
    } else if i == 9 {
        "Sort the data frame by the column(s)."@
    } else if i == 10 {
        "Show the loaded data frames and their schemas."@
    } else if i == 11 {
        "Select a random row of the current data frame."@
    } else if i == 12 {
        "Create a new tab with the query."@
    } else if i == 13 {
        "Remove the tab at the index."@
    } else if i == 14 {
        "Select the tab at the index."@
    } else if i == 15 {
        "Re-read the column types from their text."@
    } else if i == 16 {
        "Register the current data frame under the given name."@
    } else if i == 17 {
        "Draw a scatter plot of the two axes."@
    } else if i == 18 {
        "Draw a histogram of the column."@
    } else if i == 19 {
        "Show the theme selector."@
    } else if i == 20 {
        "Export the data frame to the file."@
    } else {
        "Import a data frame from the file."@
    }
}

/// Whether an entry is registry entry `i`: the right alias shape and the
/// right texts.
pub open spec fn entry_matches(e: Entry, i: int) -> bool {
    &&& match e.prefix {
        Prefix::ShortAndLong(sh, l) => reg_short(i) == Some(sh@) && l@ == reg_long(i),
        Prefix::Long(l) => reg_short(i) is None && l@ == reg_long(i),
    }
    &&& e.usage@ == reg_usage(i)
    &&& e.description@ == reg_description(i)
}

/// What the help table shows in its short-form column for entry `i`: the
/// alias, or a dash where there is none.
pub open spec fn short_cell(i: int) -> Option<Seq<char>> {
    match reg_short(i) {
        Some(sh) => Some(sh),
        None => Some("-"@),
    }
}

/// The command registry, in help-table order: one entry per command of the
/// grammar above.
#[verifier::rlimit(100)]
pub fn entries() -> (r: Vec<Entry>)
    ensures
        r@.len() == 22,
        forall|i: int| 0 <= i < 22 ==> entry_matches(#[trigger] r@[i], i),
{
    let mut v: Vec<Entry> = Vec::new();
    v.push(Entry {
        prefix: Prefix::ShortAndLong("Q", "query"),
        usage: "Q <query>",
        description: "Query the data in Structured Query Language (SQL).",
    });
    v.push(Entry {
        prefix: Prefix::ShortAndLong("q", "quit"),
        usage: "q",
        description: "Close all tables and quit.",
    });
    v.push(Entry {
        prefix: Prefix::Long("goto"),
        usage: "goto <line_index>",
        description: "Jump to the specified line.",
    });
    v.push(Entry {
        prefix: Prefix::Long("goup"),
        usage: "goup page | half | <lines>",
        description: "Jump the specified number of lines up.",
    });
    v.push(Entry {
        prefix: Prefix::Long("godown"),
        usage: "godown page | half | <lines>",
        description: "Jump the specified number of lines down.",
    });
    v.push(Entry {
        prefix: Prefix::Long("reset"),
        usage: "reset",
        description: "Reset the data frame to its original state.",
    });
    v.push(Entry {
        prefix: Prefix::Long("help"),
        usage: "help",
        description: "Show this help table.",
    });
    v.push(Entry {
        prefix: Prefix::ShortAndLong("S", "select"),
        usage: "select <column_name(s)>",
        description: "Query the data frame for columns or functions.",
    });
    v.push(Entry {
        prefix: Prefix::ShortAndLong("F", "filter"),
        usage: "filter <condition(s)>",
        description: "Keep the rows where the condition(s) match.",
    });
    v.push(Entry {
        prefix: Prefix::ShortAndLong("O", "order"),
        usage: "order <column(s)_and_order(s)>",
        description: "Sort the data frame by the column(s).",
    });
    v.push(Entry {
        prefix: Prefix::Long("schema"),
        usage: "schema",
        description: "Show the loaded data frames and their schemas.",
    });
    v.push(Entry {
        prefix: Prefix::Long("rand"),
        usage: "rand",
        description: "Select a random row of the current data frame.",
    });
    v.push(Entry {
        prefix: Prefix::Long("tabn"),
        usage: "tabn <query>",
        description: "Create a new tab with the query.",
    });
    v.push(Entry {
        prefix: Prefix::Long("tabr"),
        usage: "tabr <tab_index>",
        description: "Remove the tab at the index.",
    });
    v.push(Entry {
        prefix: Prefix::Long("tab"),
        usage: "tab <tab_index>",
        description: "Select the tab at the index.",
    });
    v.push(Entry {
        prefix: Prefix::Long("infer"),
        usage: "infer int | float | boolean | date | datetime | all ...",
        description: "Re-read the column types from their text.",
    });
    v.push(Entry {
        prefix: Prefix::Long("register"),
        usage: "register <data_frame_name>",
        description: "Register the current data frame under the given name.",
    });
    v.push(Entry {
        prefix: Prefix::Long("scatter"),
        usage: "scatter <x-axis> <y-axis> [group-by ...]",
        description: "Draw a scatter plot of the two axes.",
    });
    v.push(Entry {
        prefix: Prefix::Long("hist"),
        usage: "hist <column> [buckets]",
        description: "Draw a histogram of the column.",
    });
    v.push(Entry {
        prefix: Prefix::Long("theme"),
        usage: "theme",
        description: "Show the theme selector.",
    });
    v.push(Entry {
        prefix: Prefix::Long("export"),
        usage: "export <format> <path>",
        description: "Export the data frame to the file.",
    });
    v.push(Entry {
        prefix: Prefix::Long("import"),
        usage: "import <format>[options] <path>",
        description: "Import a data frame from the file.",
    });
    proof {
        assert forall|i: int| 0 <= i < 22 implies entry_matches(#[trigger] v@[i], i) by {
            assert(entry_matches(v@[0], 0));
            assert(entry_matches(v@[1], 1));
            assert(entry_matches(v@[2], 2));
            assert(entry_matches(v@[3], 3));
            assert(entry_matches(v@[4], 4));
            assert(entry_matches(v@[5], 5));
            assert(entry_matches(v@[6], 6));
            assert(entry_matches(v@[7], 7));
            assert(entry_matches(v@[8], 8));
            assert(entry_matches(v@[9], 9));
            assert(entry_matches(v@[10], 10));
            assert(entry_matches(v@[11], 11));
            assert(entry_matches(v@[12], 12));
            assert(entry_matches(v@[13], 13));
            assert(entry_matches(v@[14], 14));
            assert(entry_matches(v@[15], 15));
            assert(entry_matches(v@[16], 16));
            assert(entry_matches(v@[17], 17));
            assert(entry_matches(v@[18], 18));
            assert(entry_matches(v@[19], 19));
            assert(entry_matches(v@[20], 20));
            assert(entry_matches(v@[21], 21));
        }
    }
    v
}

/// Turns the command registry into the frame the help tab shows: one row per
/// command, columns for the long form, the short form, the usage, and the
/// description.
pub fn commands_help_data_frame() -> (r: DataFrame)
    ensures
        r.wf(),
        r@.height == 22,
        r@.columns.len() == 4,
        r@.columns[0].name == "Command"@,
        r@.columns[1].name == "Short Form"@,
        r@.columns[2].name == "Usage"@,
        r@.columns[3].name == "Description"@,
        forall|i: int| 0 <= i < 22 ==> #[trigger] r@.columns[0].values[i] == Some(reg_long(i)),
        forall|i: int| 0 <= i < 22 ==> #[trigger] r@.columns[1].values[i] == short_cell(i),
        forall|i: int| 0 <= i < 22 ==> #[trigger] r@.columns[2].values[i] == Some(reg_usage(i)),
        forall|i: int|
            0 <= i < 22 ==> #[trigger] r@.columns[3].values[i] == Some(reg_description(i)),
{
    let list = entries();
    let n = list.len();
    let mut longs: Vec<Option<String>> = Vec::new();
    let mut shorts: Vec<Option<String>> = Vec::new();
    let mut usages: Vec<Option<String>> = Vec::new();
    let mut descriptions: Vec<Option<String>> = Vec::new();
    let mut i: usize = 0;
    while i < n
        invariant
            0 <= i <= n == list@.len(),
            n == 22,
            forall|k: int| 0 <= k < 22 ==> entry_matches(#[trigger] list@[k], k),
            longs@.len() == i,
            shorts@.len() == i,
            usages@.len() == i,
            descriptions@.len() == i,
            forall|j: int| 0 <= j < i ==> (#[trigger] longs@[j]).deep_view() == Some(reg_long(j)),
            forall|j: int| 0 <= j < i ==> (#[trigger] shorts@[j]).deep_view() == short_cell(j),
            forall|j: int| 0 <= j < i ==> (#[trigger] usages@[j]).deep_view() == Some(
                reg_usage(j),
            ),
            forall|j: int|
                0 <= j < i ==> (#[trigger] descriptions@[j]).deep_view() == Some(
                    reg_description(j),
                ),
        decreases n - i,
    {
        let e = &list[i];
        proof {
            assert(entry_matches(list@[i as int], i as int));
        }
        longs.push(Some(match e.prefix.long() {
            Some(l) => l.to_owned(),
            None => "-".to_owned(),
        }));
        shorts.push(Some(match e.prefix.short() {
            Some(sh) => sh.to_owned(),
            None => "-".to_owned(),
        }));
        usages.push(Some(e.usage.to_owned()));
        descriptions.push(Some(e.description.to_owned()));
        proof {
            assert(longs@[i as int].deep_view() == Some(reg_long(i as int)));
            assert(shorts@[i as int].deep_view() == short_cell(i as int));
            assert(usages@[i as int].deep_view() == Some(reg_usage(i as int)));
            assert(descriptions@[i as int].deep_view() == Some(reg_description(i as int)));
        }
        i = i + 1;
    }
    let ghost longs_cells = longs.deep_view();
    let ghost shorts_cells = shorts.deep_view();
    let ghost usages_cells = usages.deep_view();
    let ghost descriptions_cells = descriptions.deep_view();
    proof {
        assert forall|j: int| 0 <= j < 22 implies longs_cells[j] == Some(reg_long(j))
            && shorts_cells[j] == short_cell(j) && usages_cells[j] == Some(reg_usage(j))
            && descriptions_cells[j] == Some(reg_description(j)) by {
            assert(longs_cells[j] == longs@[j].deep_view());
            assert(shorts_cells[j] == shorts@[j].deep_view());
            assert(usages_cells[j] == usages@[j].deep_view());
            assert(descriptions_cells[j] == descriptions@[j].deep_view());
        }
    }
    let mut columns: Vec<Column> = Vec::new();
    columns.push(Column::new("Command".to_owned(), Dtype::Str, longs));
    columns.push(Column::new("Short Form".to_owned(), Dtype::Str, shorts));
    columns.push(Column::new("Usage".to_owned(), Dtype::Str, usages));
    columns.push(Column::new("Description".to_owned(), Dtype::Str, descriptions));
    proof {
        reveal_strlit("Command");
        reveal_strlit("Short Form");
        reveal_strlit("Usage");
        reveal_strlit("Description");
        let model = crate::frame::inferred_model(columns@);
        assert(model.columns.len() == 4);
        assert(model.columns[0].values =~= longs_cells);
        assert(model.columns[1].values =~= shorts_cells);
        assert(model.columns[2].values =~= usages_cells);
        assert(model.columns[3].values =~= descriptions_cells);
        assert(model.columns[0].values.len() == 22);
        assert(model.columns[1].values.len() == 22);
        assert(model.columns[2].values.len() == 22);
        assert(model.columns[3].values.len() == 22);
        assert(model.columns[0].name == "Command"@);
        assert(model.columns[1].name == "Short Form"@);
        assert(model.columns[2].name == "Usage"@);
        assert(model.columns[3].name == "Description"@);
        assert("Command"@.len() == 7 && "Short Form"@.len() == 10 && "Usage"@.len() == 5
            && "Description"@.len() == 11);
        assert(model.wf()) by {
            assert(forall|a: int, b: int|
                0 <= a < b < 4 ==> model.columns[a].name != model.columns[b].name);
        }
    }
    match DataFrame::new(columns) {
        Ok(df) => df,
        Err(_) => {
            proof {
                assert(false);
            }
            DataFrame::empty()
        },
    }
}

} // verus!
