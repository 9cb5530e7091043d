//! The catalog: an ordered mapping from unique table names to frames with
//! their provenance. It backs the schema view and is what the SQL engine
//! queries; the engine itself is an outside collaborator reached through the
//! `SqlEngine` trait.
use vstd::prelude::*;
use vstd::seq_lib::*;

use crate::errors::{AppError, AppResult};
use crate::frame::{ColumnModel, DataFrame};
use crate::text::dec_digits;
use crate::type_ext::{staged_name, SnakeCaseNameGen};

verus! {

/// Where a table came from, for display.
#[derive(Debug, Clone, PartialEq)]
pub enum Source {
    File(String),
    Stdin,
    User,
    Derived,
}

impl Source {
    /// The text of the source shown in the frame information panel.
    pub open spec fn display_text(&self) -> Seq<char> {
        match self {
            Source::File(p) => p@,
            Source::Stdin => "stdin"@,
            Source::User => "user"@,
            Source::Derived => "derived"@,
        }
    }

    /// The path, or a fixed word for the non-file sources.
    pub fn display_path(&self) -> (r: String)
        ensures
            r@ == self.display_text(),
    {
        match self {
            Source::File(p) => p.clone(),
            Source::Stdin => "stdin".to_owned(),
            Source::User => "user".to_owned(),
            Source::Derived => "derived".to_owned(),
        }
    }
}

/// Adds with a ceiling at `usize::MAX`.
pub open spec fn sat_add(a: nat, b: nat) -> nat {
    if a + b > usize::MAX as nat {
        usize::MAX as nat
    } else {
        a + b
    }
}

/// Adds two machine words with a ceiling.
pub fn sat_add_usize(a: usize, b: usize) -> (r: usize)
    ensures
        r == sat_add(a as nat, b as nat),
{
    if a > usize::MAX - b {
        usize::MAX
    } else {
        a + b
    }
}

/// How many cells of the column are null.
pub open spec fn col_null_count(values: Seq<Option<Seq<char>>>) -> nat
    decreases values.len(),
{
    if values.len() == 0 {
        0
    } else {
        col_null_count(values.drop_last()) + (if values.last() is None {
            1nat
        } else {
            0nat
        })
    }
}

/// How many cells of the whole frame are null, with a ceiling.
pub open spec fn frame_null_count(columns: Seq<ColumnModel>) -> nat
    decreases columns.len(),
{
    if columns.len() == 0 {
        0
    } else {
        sat_add(frame_null_count(columns.drop_last()), col_null_count(columns.last().values))
    }
}

/// The size of one cell: the character count of its text.
pub open spec fn cell_size(c: Option<Seq<char>>) -> nat {
    match c {
        Some(s) => s.len(),
        None => 0,
    }
}

/// The estimated size of a column: its name plus all its cells, with a
/// ceiling.
pub open spec fn col_est_size(values: Seq<Option<Seq<char>>>) -> nat
    decreases values.len(),
{
    if values.len() == 0 {
        0
    } else {
        sat_add(col_est_size(values.drop_last()), cell_size(values.last()))
    }
}

/// The estimated size of the frame: names and cells of every column, with a
/// ceiling.
pub open spec fn frame_est_size(columns: Seq<ColumnModel>) -> nat
    decreases columns.len(),
{
    if columns.len() == 0 {
        0
    } else {
        sat_add(
            frame_est_size(columns.drop_last()),
            sat_add(col_est_size(columns.last().values), columns.last().name.len()),
        )
    }
}

/// Counts the null cells of one column.
fn count_nulls(values: &Vec<Option<String>>) -> (r: usize)
    ensures
        r == col_null_count(values.deep_view()),
{
    let ghost model = values.deep_view();
    let n = values.len();
    let mut count: usize = 0;
    let mut i: usize = 0;
    proof {
        assert(model.subrange(0, 0) =~= Seq::<Option<Seq<char>>>::empty());
    }
    while i < n
        invariant
            0 <= i <= n == model.len(),
            model == values.deep_view(),
            n == values@.len(),
            count == col_null_count(model.subrange(0, i as int)),
            count <= i,
        decreases n - i,
    {
        proof {
            assert(model.subrange(0, i + 1).drop_last() =~= model.subrange(0, i as int));
            assert(model.subrange(0, i + 1).last() == model[i as int]);
        }
        if values[i].is_none() {
            proof {
                assert(model[i as int] is None);
            }
            count = count + 1;
        } else {
            proof {
                assert(model[i as int] is Some);
            }
        }
        i = i + 1;
    }
    proof {
        assert(model.subrange(0, n as int) =~= model);
    }
    count
}

/// Sums the sizes of one column's cells, with a ceiling.
fn measure_cells(values: &Vec<Option<String>>) -> (r: usize)
    ensures
        r == col_est_size(values.deep_view()),
{
    let ghost model = values.deep_view();
    let n = values.len();
    let mut size: usize = 0;
    let mut i: usize = 0;
    proof {
        assert(model.subrange(0, 0) =~= Seq::<Option<Seq<char>>>::empty());
    }
    while i < n
        invariant
            0 <= i <= n == model.len(),
            model == values.deep_view(),
            n == values@.len(),
            size == col_est_size(model.subrange(0, i as int)),
        decreases n - i,
    {
        proof {
            assert(model.subrange(0, i + 1).drop_last() =~= model.subrange(0, i as int));
            assert(model.subrange(0, i + 1).last() == model[i as int]);
        }
        let w: usize = match &values[i] {
            Some(s) => s.as_str().unicode_len(),
            None => 0,
        };
        proof {
            assert(w == cell_size(model[i as int]));
        }
        size = sat_add_usize(size, w);
        i = i + 1;
    }
    proof {
        assert(model.subrange(0, n as int) =~= model);
    }
    size
}

/// A catalog entry: a named frame, where it came from, and two display
/// statistics fixed at registration.
#[derive(Debug, Clone, PartialEq)]
pub struct TableInfo {
    pub name: String,
    pub frame: DataFrame,
    pub source: Source,
    pub total_null_count: usize,
    pub est_bytes: usize,
}

impl TableInfo {
    /// Builds an entry, computing the statistics from the frame.
    pub fn new(name: String, frame: DataFrame, source: Source) -> (r: TableInfo)
        ensures
            r.name@ == name@,
            r.frame == frame,
            r.source == source,
            r.total_null_count == frame_null_count(frame@.columns),
            r.est_bytes == frame_est_size(frame@.columns),
    {
        let ghost cols = frame@.columns;
        let columns = frame.columns();
        let n = columns.len();
        let mut nulls: usize = 0;
        let mut size: usize = 0;
        let mut i: usize = 0;
        proof {
            assert(cols.subrange(0, 0) =~= Seq::<ColumnModel>::empty());
        }
        while i < n
            invariant
                0 <= i <= n == cols.len(),
                n == columns@.len(),
                forall|k: int| 0 <= k < n ==> (#[trigger] columns@[k])@ == cols[k],
                nulls == frame_null_count(cols.subrange(0, i as int)),
                size == frame_est_size(cols.subrange(0, i as int)),
            decreases n - i,
        {
            proof {
                assert(cols.subrange(0, i + 1).drop_last() =~= cols.subrange(0, i as int));
                assert(cols.subrange(0, i + 1).last() == cols[i as int]);
            }
            let c = &columns[i];
            let col_nulls = count_nulls(&c.values);
            let col_size = measure_cells(&c.values);
            let name_size = c.name.as_str().unicode_len();
            nulls = sat_add_usize(nulls, col_nulls);
            size = sat_add_usize(size, sat_add_usize(col_size, name_size));
            i = i + 1;
        }
        proof {
            assert(cols.subrange(0, n as int) =~= cols);
        }
        TableInfo { name, frame, source, total_null_count: nulls, est_bytes: size }
    }

    /// The number of rows of the entry's frame.
    pub fn height(&self) -> (r: usize)
        ensures
            r == self.frame@.height,
    {
        self.frame.height()
    }

    /// The number of columns of the entry's frame.
    pub fn width(&self) -> (r: usize)
        ensures
            r == self.frame@.columns.len(),
    {
        self.frame.width()
    }

    /// The source of the entry.
    pub fn source(&self) -> (r: &Source)
        ensures
            r == &self.source,
    {
        &self.source
    }

    /// The total null count fixed at registration.
    pub fn total_null(&self) -> (r: usize)
        ensures
            r == self.total_null_count,
    {
        self.total_null_count
    }

    /// The estimated size fixed at registration.
    pub fn total_est_size(&self) -> (r: usize)
        ensures
            r == self.est_bytes,
    {
        self.est_bytes
    }
}

/// No entry carries this name.
pub open spec fn is_free(names: Seq<Seq<char>>, name: Seq<char>) -> bool {
    forall|i: int| 0 <= i < names.len() ==> names[i] != name
}

/// The search for the first free stage, with enough fuel to scan the
/// candidates `base`, `base_2`, ... one past the number of taken names.
pub open spec fn stage_search(names: Seq<Seq<char>>, base: Seq<char>, k: nat, fuel: nat) -> nat
    decreases fuel,
{
    if is_free(names, staged_name(base, k)) {
        k
    } else if fuel == 0 {
        k + 1
    } else {
        stage_search(names, base, k + 1, (fuel - 1) as nat)
    }
}

/// The stage whose name `register` assigns: the least stage whose name no
/// entry carries.
pub open spec fn assigned_stage(names: Seq<Seq<char>>, base: Seq<char>) -> nat {
    stage_search(names, base, 1, names.len())
}

/// Different stages produce different names.
pub proof fn lemma_staged_name_injective(base: Seq<char>, i: nat, j: nat)
    requires
        1 <= i < j,
    ensures
        staged_name(base, i) != staged_name(base, j),
{
    crate::text::lemma_dec_digits_val(j);
    if i == 1 {
        assert(staged_name(base, i) == base);
        assert(staged_name(base, j).len() == base.len() + 1 + dec_digits(j).len());
    } else {
        crate::text::lemma_dec_digits_val(i);
        let si = staged_name(base, i);
        let sj = staged_name(base, j);
        if si == sj {
            let l = base.len() as int;
            let di = dec_digits(i);
            let dj = dec_digits(j);
            assert(si.len() == l + 1 + di.len());
            assert(sj.len() == l + 1 + dj.len());
            assert(di.len() == dj.len());
            assert forall|t: int| 0 <= t < di.len() implies di[t] == dj[t] by {
                assert(si[l + 1 + t] == di[t]);
                assert(sj[l + 1 + t] == dj[t]);
            }
            assert(di =~= dj);
            crate::text::lemma_dec_digits_injective(i, j);
            assert(false);
        }
    }
}

/// Among the first `names.len() + 1` candidate stages, at least one name is
/// free: the candidates are distinct and there are more of them than taken
/// names.
pub proof fn lemma_exists_free_stage(names: Seq<Seq<char>>, base: Seq<char>)
    ensures
        exists|k: nat| 1 <= k <= names.len() + 1 && is_free(names, #[trigger] staged_name(base, k)),
{
    let n = names.len() as int;
    if forall|k: nat| 1 <= k <= n + 1 ==> !is_free(names, #[trigger] staged_name(base, k)) {
        let cands = Seq::new((n + 1) as nat, |i: int| staged_name(base, (i + 1) as nat));
        assert forall|i: int, j: int| 0 <= i < j < cands.len() implies cands[i] != cands[j] by {
            lemma_staged_name_injective(base, (i + 1) as nat, (j + 1) as nat);
        }
        assert(cands.no_duplicates());
        cands.unique_seq_to_set();
        assert forall|x: Seq<char>| cands.to_set().contains(x) implies names.to_set().contains(
            x,
        ) by {
            let i = choose|i: int| 0 <= i < cands.len() && cands[i] == x;
            assert(cands[i] == staged_name(base, (i + 1) as nat));
            assert(!is_free(names, staged_name(base, (i + 1) as nat)));
            let m = choose|m: int| 0 <= m < names.len() && names[m] == staged_name(
                base,
                (i + 1) as nat,
            );
            assert(names[m] == x);
            assert(names.contains(x));
        }
        names.lemma_cardinality_of_set();
        vstd::set_lib::lemma_len_subset(cands.to_set(), names.to_set());
        assert(cands.to_set().len() == n + 1);
        assert(names.to_set().len() <= n);
        assert(false);
    }
}

/// The search finds the least free stage at or after its start, given that a
/// free stage lies within its fuel.
pub proof fn lemma_stage_search(names: Seq<Seq<char>>, base: Seq<char>, k0: nat, fuel: nat)
    requires
        exists|k: nat| k0 <= k <= k0 + fuel && is_free(names, #[trigger] staged_name(base, k)),
    ensures
        ({
            let r = stage_search(names, base, k0, fuel);
            &&& k0 <= r <= k0 + fuel
            &&& is_free(names, staged_name(base, r))
            &&& forall|j: nat| k0 <= j < r ==> !is_free(names, #[trigger] staged_name(base, j))
        }),
    decreases fuel,
{
    if is_free(names, staged_name(base, k0)) {
    } else {
        let kw = choose|k: nat|
            k0 <= k <= k0 + fuel && is_free(names, #[trigger] staged_name(base, k));
        assert(kw != k0);
        assert(fuel > 0);
        assert(k0 + 1 <= kw <= (k0 + 1) + (fuel - 1) && is_free(
            names,
            staged_name(base, kw),
        ));
        lemma_stage_search(names, base, k0 + 1, (fuel - 1) as nat);
    }
}

/// What `assigned_stage` names: the least stage whose name is free, and it
/// lies within one past the number of entries.
pub proof fn lemma_assigned_stage(names: Seq<Seq<char>>, base: Seq<char>)
    ensures
        ({
            let r = assigned_stage(names, base);
            &&& 1 <= r <= names.len() + 1
            &&& is_free(names, staged_name(base, r))
            &&& forall|j: nat| 1 <= j < r ==> !is_free(names, #[trigger] staged_name(base, j))
        }),
{
    lemma_exists_free_stage(names, base);
    lemma_stage_search(names, base, 1, names.len());
}

/// The ordered name-to-frame registry. Names are unique; insertion order is
/// preserved, which gives the schema view its stable row indices.
#[derive(Debug, Clone, PartialEq)]
pub struct Catalog {
    entries: Vec<TableInfo>,
}

impl Catalog {
    /// The names of the entries, in insertion order.
    pub closed spec fn names(&self) -> Seq<Seq<char>> {
        self.entries@.map_values(|e: TableInfo| e.name@)
    }

    /// The entries, in insertion order.
    pub closed spec fn model(&self) -> Seq<TableInfo> {
        self.entries@
    }

    /// No two entries share a name.
    pub open spec fn wf(&self) -> bool {
        self.names().no_duplicates()
    }

    /// The names run parallel to the entries.
    pub proof fn lemma_names(&self)
        ensures
            self.names().len() == self.model().len(),
            forall|i: int|
                0 <= i < self.model().len() ==> self.names()[i] == (
                #[trigger] self.model()[i]).name@,
    {
    }

    /// An empty catalog.
    pub fn new() -> (r: Catalog)
        ensures
            r.wf(),
            r.model().len() == 0,
    {
        let r = Catalog { entries: Vec::new() };
        proof {
            assert(r.names() =~= Seq::<Seq<char>>::empty());
        }
        r
    }

    /// The number of entries.
    pub fn len(&self) -> (r: usize)
        ensures
            r == self.model().len(),
    {
        self.entries.len()
    }

    /// Whether no entry carries the name.
    pub fn is_name_free(&self, name: &str) -> (r: bool)
        ensures
            r == is_free(self.names(), name@),
    {
        let n = self.entries.len();
        let mut i: usize = 0;
        while i < n
            invariant
                0 <= i <= n == self.model().len(),
                forall|k: int| 0 <= k < i ==> self.names()[k] != name@,
            decreases n - i,
        {
            if crate::text::str_eq(self.entries[i].name.as_str(), name) {
                proof {
                    assert(self.names()[i as int] == name@);
                }
                return false;
            }
            proof {
                assert(self.names()[i as int] == self.model()[i as int].name@);
            }
            i = i + 1;
        }
        true
    }

    /// The entry with the name, if any.
    pub fn get(&self, name: &str) -> (r: Option<&TableInfo>)
        ensures
            match r {
                Some(e) => exists|i: int|
                    0 <= i < self.model().len() && self.model()[i] == *e && (
                    #[trigger] self.model()[i]).name@ == name@,
                None => is_free(self.names(), name@),
            },
    {
        let n = self.entries.len();
        let mut i: usize = 0;
        while i < n
            invariant
                0 <= i <= n == self.model().len(),
                forall|k: int| 0 <= k < i ==> self.names()[k] != name@,
            decreases n - i,
        {
            if crate::text::str_eq(self.entries[i].name.as_str(), name) {
                proof {
                    assert(self.model()[i as int].name@ == name@);
                }
                return Some(&self.entries[i]);
            }
            proof {
                assert(self.names()[i as int] == self.model()[i as int].name@);
            }
            i = i + 1;
        }
        None
    }

    /// The entry at the position, if the position is in range.
    pub fn get_by_index(&self, idx: usize) -> (r: Option<&TableInfo>)
        ensures
            match r {
                Some(e) => idx < self.model().len() && *e == self.model()[idx as int],
                None => idx >= self.model().len(),
            },
    {
        if idx < self.entries.len() {
            Some(&self.entries[idx])
        } else {
            None
        }
    }

    /// The entries in insertion order, for the schema view.
    pub fn schema(&self) -> (r: &Vec<TableInfo>)
        ensures
            r@ == self.model(),
    {
        &self.entries
    }

    /// Registers a frame under the desired name, or under `base_2`,
    /// `base_3`, ... if taken: the assigned name is the first free one of
    /// that sequence, and the entry goes to the end of the catalog.
    pub fn register(&mut self, desired: &str, frame: DataFrame, source: Source) -> (r: String)
        requires
            old(self).wf(),
            old(self).model().len() + 2 < u32::MAX,
        ensures
            final(self).wf(),
            is_free(old(self).names(), r@),
            r@ == staged_name(desired@, assigned_stage(old(self).names(), desired@)),
            final(self).names() == old(self).names().push(r@),
            final(self).model().len() == old(self).model().len() + 1,
            forall|i: int|
                0 <= i < old(self).model().len() ==> final(self).model()[i] == old(self).model()[
                    i
                ],
            ({
                let e = final(self).model().last();
                &&& e.name@ == r@
                &&& e.frame == frame
                &&& e.source == source
                &&& e.total_null_count == frame_null_count(frame@.columns)
                &&& e.est_bytes == frame_est_size(frame@.columns)
            }),
    {
        proof {
            lemma_assigned_stage(old(self).names(), desired@);
        }
        let ghost target = assigned_stage(old(self).names(), desired@);
        let bound = self.entries.len() + 1;
        let mut gen = SnakeCaseNameGen::with(desired);
        let mut stage: usize = 0;
        while stage < bound
            invariant
                self == old(self),
                old(self).wf(),
                bound == old(self).model().len() + 1,
                bound + 1 < u32::MAX,
                0 <= stage < bound,
                gen.base_view() == desired@,
                gen.stage_count() == stage,
                forall|j: nat| 1 <= j <= stage ==> !is_free(
                    old(self).names(),
                    #[trigger] staged_name(desired@, j),
                ),
                target == assigned_stage(old(self).names(), desired@),
                1 <= target <= bound,
                stage < target,
                is_free(old(self).names(), staged_name(desired@, target)),
                forall|j: nat| 1 <= j < target ==> !is_free(
                    old(self).names(),
                    #[trigger] staged_name(desired@, j),
                ),
            decreases bound - stage,
        {
            let name = match gen.next() {
                Some(n) => n,
                None => {
                    return String::new();
                },
            };
            stage = stage + 1;
            if self.is_name_free(name.as_str()) {
                proof {
                    assert(stage == target);
                }
                let info = TableInfo::new(name.clone(), frame, source);
                let ghost old_names = self.names();
                self.entries.push(info);
                proof {
                    assert(self.names() =~= old_names.push(name@));
                    assert(self.wf());
                }
                return name;
            }
            proof {
                if stage == target {
                    assert(is_free(old(self).names(), staged_name(desired@, target)));
                    assert(false);
                }
            }
        }
        proof {
            // the search above always returns: some stage within the bound
            // is free, by the pigeonhole over the candidate names
            assert(false);
        }
        String::new()
    }

    /// Removes the entry with the name; no entry means no change. Tabs that
    /// reference the name by kind keep their own frames.
    pub fn unregister(&mut self, name: &str)
        requires
            old(self).wf(),
        ensures
            final(self).wf(),
            is_free(old(self).names(), name@) ==> *final(self) == *old(self),
            forall|i: int|
                0 <= i < old(self).model().len() && (#[trigger] old(self).model()[i]).name@
                    == name@ ==> final(self).model() == old(self).model().remove(i),
    {
        let n = self.entries.len();
        let mut i: usize = 0;
        while i < n
            invariant
                0 <= i <= n == self.model().len(),
                self == old(self),
                old(self).wf(),
                forall|k: int| 0 <= k < i ==> self.names()[k] != name@,
            decreases n - i,
        {
            if crate::text::str_eq(self.entries[i].name.as_str(), name) {
                proof {
                    assert(self.model()[i as int].name@ == name@);
                    assert(self.names()[i as int] == name@);
                    assert(!is_free(old(self).names(), name@));
                }
                let ghost before = self.model();
                self.entries.remove(i);
                proof {
                    assert(self.model() == before.remove(i as int));
                    lemma_remove_keeps_unique(before, i as int);
                    assert forall|k: int|
                        0 <= k < before.len() && (#[trigger] before[k]).name@ == name@ implies self.model()
                        == before.remove(k) by {
                        if k != i as int {
                            assert(before.map_values(|e: TableInfo| e.name@)[k] == name@);
                            assert(before.map_values(|e: TableInfo| e.name@)[i as int] == name@);
                            assert(false);
                        }
                    }
                }
                return ;
            }
            proof {
                assert(self.names()[i as int] == self.model()[i as int].name@);
            }
            i = i + 1;
        }
        proof {
            assert(is_free(self.names(), name@));
            assert forall|k: int|
                0 <= k < self.model().len() implies (#[trigger] self.model()[k]).name@ != name@ by {
                assert(self.names()[k] == self.model()[k].name@);
            }
        }
    }

    /// Runs a query through the outside SQL engine against this catalog,
    /// with the selected tab's frame standing in for `_` when one is given.
    /// The engine decides success; its failure text comes back as a query
    /// error.
    pub fn execute<E: SqlEngine>(
        &self,
        engine: &mut E,
        query: &str,
        current: Option<&DataFrame>,
    ) -> (r: AppResult<DataFrame>)
        ensures
            r matches Err(e) ==> e is Sql,
    {
        match engine.run_sql(self, query, current) {
            Ok(df) => Ok(df),
            Err(msg) => Err(AppError::Sql(msg)),
        }
    }
}

/// Removing an entry keeps the remaining names unique.
proof fn lemma_remove_keeps_unique(entries: Seq<TableInfo>, i: int)
    requires
        0 <= i < entries.len(),
        entries.map_values(|e: TableInfo| e.name@).no_duplicates(),
    ensures
        entries.remove(i).map_values(|e: TableInfo| e.name@).no_duplicates(),
{
    let f = |e: TableInfo| e.name@;
    let before = entries.map_values(f);
    let after = entries.remove(i).map_values(f);
    assert(after =~= before.remove(i));
    assert forall|p: int, q: int| 0 <= p < q < after.len() implies after[p] != after[q] by {
        let bp = if p < i {
            p
        } else {
            p + 1
        };
        let bq = if q < i {
            q
        } else {
            q + 1
        };
        assert(after[p] == before[bp]);
        assert(after[q] == before[bq]);
    }
}

/// The embedded SQL engine, an outside collaborator: it runs a query against
/// the catalog's tables, binding `_` to the given current frame. Nothing is
/// assumed of its results.
pub trait SqlEngine {
    fn run_sql(
        &mut self,
        catalog: &Catalog,
        query: &str,
        current: Option<&DataFrame>,
    ) -> Result<DataFrame, String>;
}

} // verus!
