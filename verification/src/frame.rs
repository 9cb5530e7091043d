//! The data frame model: a columnar table of optional text cells with a type
//! tag per column. The format decoders and the SQL engine that produce and
//! consume frames live outside; the model holds what the application logic
//! reads: names, shapes, and cells.
use vstd::prelude::*;

use crate::errors::AppError;

verus! {

/// The type a column's cells were decoded as.
#[derive(Debug, Clone, Copy, PartialEq, Eq, Structural)]
pub enum Dtype {
    Bool,
    Int,
    Float,
    Str,
}

/// One named column: a type tag and one optional text cell per row.
#[derive(Debug, Clone, PartialEq)]
pub struct Column {
    pub name: String,
    pub dtype: Dtype,
    pub values: Vec<Option<String>>,
}

/// The mathematical shape of a column.
pub ghost struct ColumnModel {
    pub name: Seq<char>,
    pub dtype: Dtype,
    pub values: Seq<Option<Seq<char>>>,
}

impl View for Column {
    type V = ColumnModel;

    open spec fn view(&self) -> ColumnModel {
        ColumnModel { name: self.name@, dtype: self.dtype, values: self.values.deep_view() }
    }
}

impl Column {
    /// Builds a column.
    pub fn new(name: String, dtype: Dtype, values: Vec<Option<String>>) -> (r: Column)
        ensures
            r@.name == name@,
            r@.dtype == dtype,
            r@.values == values.deep_view(),
    {
        Column { name, dtype, values }
    }

    /// The number of cells.
    pub fn len(&self) -> (r: usize)
        ensures
            r == self@.values.len(),
    {
        self.values.len()
    }

    /// A copy of the column that models the same way.
    pub fn duplicate(&self) -> (r: Column)
        ensures
            r@ == self@,
    {
        let values = clone_cells(&self.values);
        Column { name: self.name.clone(), dtype: self.dtype, values }
    }
}

/// Copies a cell vector; the copy holds the same texts.
pub fn clone_cells(v: &Vec<Option<String>>) -> (r: Vec<Option<String>>)
    ensures
        r.deep_view() == v.deep_view(),
{
    let r = v.clone();
    proof {
        assert forall|i: int| 0 <= i < r@.len() implies r.deep_view()[i] == v.deep_view()[i] by {
            assert(cloned::<Option<String>>(v@[i], r@[i]));
        }
        assert(r.deep_view() =~= v.deep_view());
    }
    r
}

/// The mathematical shape of a frame: a height and the columns.
pub ghost struct FrameModel {
    pub height: nat,
    pub columns: Seq<ColumnModel>,
}

impl FrameModel {
    /// Every column has one cell per row, and no two columns share a name.
    pub open spec fn wf(self) -> bool {
        &&& forall|i: int|
            0 <= i < self.columns.len() ==> (#[trigger] self.columns[i]).values.len()
                == self.height
        &&& forall|i: int, j: int|
            0 <= i < j < self.columns.len() ==> (#[trigger] self.columns[i]).name != (
            #[trigger] self.columns[j]).name
    }

    /// The index of the column with the name, if any.
    pub open spec fn col_index(self, name: Seq<char>) -> Option<int> {
        if exists|i: int| 0 <= i < self.columns.len() && (#[trigger] self.columns[i]).name == name {
            Some(choose|i: int| 0 <= i < self.columns.len() && (#[trigger] self.columns[i]).name
                == name)
        } else {
            None
        }
    }
}

/// The model a list of columns would form: the height is the first
/// column's length.
pub open spec fn inferred_model(columns: Seq<Column>) -> FrameModel {
    FrameModel {
        height: if columns.len() == 0 {
            0
        } else {
            columns[0]@.values.len()
        },
        columns: Seq::new(columns.len(), |i: int| columns[i]@),
    }
}

/// A columnar table. The constructor checks that the columns agree on their
/// height and carry distinct names, and that stays true from then on.
#[derive(Debug, Clone, PartialEq)]
pub struct DataFrame {
    columns: Vec<Column>,
    height: usize,
}

impl View for DataFrame {
    type V = FrameModel;

    closed spec fn view(&self) -> FrameModel {
        FrameModel {
            height: self.height as nat,
            columns: Seq::new(self.columns@.len(), |i: int| self.columns@[i]@),
        }
    }
}

impl DataFrame {
    /// The constructor's check passed: the model is well formed.
    pub open spec fn wf(&self) -> bool {
        self@.wf()
    }

    /// A frame with no columns and no rows.
    pub fn empty() -> (r: DataFrame)
        ensures
            r.wf(),
            r@.height == 0,
            r@.columns.len() == 0,
    {
        let r = DataFrame { columns: Vec::new(), height: 0 };
        proof {
            assert(r@.columns =~= Seq::<ColumnModel>::empty());
        }
        r
    }

    /// Builds a frame from columns; the height is the first column's length.
    /// Fails exactly when two columns share a name or disagree on length.
    pub fn new(columns: Vec<Column>) -> (r: Result<DataFrame, AppError>)
        ensures
            match r {
                Ok(df) => df.wf() && df@ == inferred_model(columns@),
                Err(_) => !inferred_model(columns@).wf(),
            },
    {
        let height: usize = if columns.len() == 0 {
            0
        } else {
            columns[0].values.len()
        };
        let ghost model = inferred_model(columns@);
        proof {
            assert(model.height == height as nat);
        }
        let n = columns.len();
        let mut i: usize = 0;
        while i < n
            invariant
                0 <= i <= n == columns@.len(),
                model == inferred_model(columns@),
                model.height == height as nat,
                forall|k: int| 0 <= k < i ==> (#[trigger] model.columns[k]).values.len()
                    == height,
                forall|k: int, l: int|
                    0 <= k < l < i ==> (#[trigger] model.columns[k]).name != (
                    #[trigger] model.columns[l]).name,
            decreases n - i,
        {
            if columns[i].values.len() != height {
                proof {
                    assert(!model.wf());
                }
                return Err(AppError::Parse(error_text_ragged()));
            }
            let mut j: usize = 0;
            while j < i
                invariant
                    0 <= j <= i < n == columns@.len(),
                    model == inferred_model(columns@),
                    forall|k: int| 0 <= k < j ==> (#[trigger] model.columns[k]).name
                        != model.columns[i as int].name,
                decreases i - j,
            {
                if crate::text::str_eq(columns[j].name.as_str(), columns[i].name.as_str()) {
                    proof {
                        assert(model.columns[j as int].name == model.columns[i as int].name);
                        assert(!model.wf());
                    }
                    return Err(AppError::Parse(error_text_dup_names()));
                }
                j = j + 1;
            }
            i = i + 1;
        }
        let r = DataFrame { columns, height };
        proof {
            assert(r@.columns =~= model.columns);
            assert(r@ == model);
            assert(r@.wf());
        }
        Ok(r)
    }

    /// The height of any frame fits the machine.
    pub proof fn lemma_height_bound(&self)
        ensures
            self@.height <= usize::MAX,
    {
    }

    /// The number of rows.
    pub fn height(&self) -> (r: usize)
        ensures
            r == self@.height,
    {
        self.height
    }

    /// The number of columns.
    pub fn width(&self) -> (r: usize)
        ensures
            r == self@.columns.len(),
    {
        self.columns.len()
    }

    /// The columns themselves, for rendering and conversion.
    pub fn columns(&self) -> (r: &Vec<Column>)
        ensures
            r@.len() == self@.columns.len(),
            forall|i: int| 0 <= i < r@.len() ==> (#[trigger] r@[i])@ == self@.columns[i],
    {
        &self.columns
    }

    /// The column with the given name, if any.
    pub fn column(&self, name: &str) -> (r: Option<&Column>)
        ensures
            match r {
                Some(c) => exists|i: int|
                    0 <= i < self@.columns.len() && (#[trigger] self@.columns[i]).name == name@
                        && c@ == self@.columns[i],
                None => forall|i: int|
                    0 <= i < self@.columns.len() ==> (#[trigger] self@.columns[i]).name != name@,
            },
    {
        let n = self.columns.len();
        let mut i: usize = 0;
        while i < n
            invariant
                0 <= i <= n == self@.columns.len(),
                forall|k: int| 0 <= k < i ==> (#[trigger] self@.columns[k]).name != name@,
            decreases n - i,
        {
            if crate::text::str_eq(self.columns[i].name.as_str(), name) {
                proof {
                    assert(self@.columns[i as int].name == name@);
                }
                return Some(&self.columns[i]);
            }
            i = i + 1;
        }
        None
    }

    /// A copy of the frame that models the same way.
    pub fn duplicate(&self) -> (r: DataFrame)
        ensures
            r@ == self@,
            r.wf() == self.wf(),
    {
        let n = self.columns.len();
        let mut cols: Vec<Column> = Vec::new();
        let mut i: usize = 0;
        while i < n
            invariant
                0 <= i <= n == self@.columns.len(),
                cols@.len() == i,
                forall|k: int| 0 <= k < i ==> (#[trigger] cols@[k])@ == self@.columns[k],
            decreases n - i,
        {
            cols.push(self.columns[i].duplicate());
            i = i + 1;
        }
        let r = DataFrame { columns: cols, height: self.height };
        proof {
            assert(r@.columns =~= self@.columns);
        }
        r
    }
}

/// The message for columns of unequal lengths.
fn error_text_ragged() -> (r: String)
    ensures
        r@ == "columns differ in length"@,
{
    "columns differ in length".to_owned()
}

/// The message for a repeated column name.
fn error_text_dup_names() -> (r: String)
    ensures
        r@ == "column names are not unique"@,
{
    "column names are not unique".to_owned()
}

} // verus!
