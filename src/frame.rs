use vstd::prelude::*;
use crate::num::{Num, spec_le};

verus! {

/// A named column of nullable numbers.
#[derive(Clone, Debug)]
pub struct Series {
    pub name: String,
    pub values: Vec<Option<Num>>,
}

/// What a series is: its name and its values.
pub struct SeriesView {
    pub name: Seq<char>,
    pub values: Seq<Option<Num>>,
}

impl View for Series {
    type V = SeriesView;

    open spec fn view(&self) -> SeriesView {
        SeriesView { name: self.name@, values: self.values@ }
    }
}

pub open spec fn series_views(s: Seq<Series>) -> Seq<SeriesView> {
    s.map_values(|c: Series| c@)
}

/// The columns of a frame: all of one length, with distinct names.
pub open spec fn frame_wf(cols: Seq<SeriesView>) -> bool {
    &&& forall|i: int|
        0 <= i < cols.len() ==> #[trigger] cols[i].values.len() == cols[0].values.len()
    &&& forall|i: int, j: int|
        0 <= i < j < cols.len() ==> #[trigger] cols[i].name != #[trigger] cols[j].name
}

/// The number of rows of a frame with the given columns.
pub open spec fn spec_height(cols: Seq<SeriesView>) -> nat {
    if cols.len() == 0 {
        0
    } else {
        cols[0].values.len()
    }
}

/// Whether `i` is the first column named `name`.
pub open spec fn is_first_named(cols: Seq<SeriesView>, name: Seq<char>, i: int) -> bool {
    &&& 0 <= i < cols.len()
    &&& cols[i].name == name
    &&& forall|j: int| 0 <= j < i ==> #[trigger] cols[j].name != name
}

pub open spec fn has_column(cols: Seq<SeriesView>, name: Seq<char>) -> bool {
    exists|i: int| 0 <= i < cols.len() && #[trigger] cols[i].name == name
}

/// The column that selecting `name` gives: the first so named, else the empty series.
pub open spec fn selected(cols: Seq<SeriesView>, name: Seq<char>) -> SeriesView {
    if has_column(cols, name) {
        cols[choose|i: int| is_first_named(cols, name, i)]
    } else {
        SeriesView { name: "empty"@, values: Seq::empty() }
    }
}

/// A value is kept by a filter on `[min, max]` when it is present and within both bounds.
pub open spec fn in_range(v: Option<Num>, min: Num, max: Num) -> bool {
    match v {
        Some(e) => spec_le(min, e) && spec_le(e, max),
        None => false,
    }
}

/// The values of `s` that lie in `[min, max]`, in their order.
pub open spec fn filtered(s: Seq<Option<Num>>, min: Num, max: Num) -> Seq<Option<Num>> {
    s.filter(|v: Option<Num>| in_range(v, min, max))
}

impl Series {
    /// A series with the given name and values.
    pub fn new(name: String, values: Vec<Option<Num>>) -> (r: Series)
        ensures
            r@.name == name@,
            r@.values == values@,
    {
        Series { name, values }
    }

    /// The series named "empty" with no values, which stands for a missing column.
    pub fn empty() -> (r: Series)
        ensures
            r.name@ == "empty"@,
            r.values@.len() == 0,
    {
        Series { name: "empty".to_string(), values: Vec::new() }
    }

    pub fn len(&self) -> (r: usize)
        ensures
            r == self.values@.len(),
    {
        self.values.len()
    }

    /// A copy of this series.
    pub fn clone_series(&self) -> (r: Series)
        ensures
            r@ == self@,
    {
        let name = self.name.clone();
        let mut values: Vec<Option<Num>> = Vec::new();
        let mut i: usize = 0;
        while i < self.values.len()
            invariant
                i <= self.values@.len(),
                values@ == self.values@.subrange(0, i as int),
            decreases self.values@.len() - i,
        {
            values.push(self.values[i]);
            i += 1;
        }
        assert(values@ == self.values@);
        Series { name, values }
    }

    /// The values within `[min, max]` (both bounds inclusive), in their order;
    /// missing values are dropped. The name is kept.
    pub fn filter_range(&self, min: Num, max: Num) -> (r: Series)
        ensures
            r.name@ == self.name@,
            r.values@ == filtered(self.values@, min, max),
    {
        let mut values: Vec<Option<Num>> = Vec::new();
        let mut i: usize = 0;
        while i < self.values.len()
            invariant
                i <= self.values@.len(),
                values@ == filtered(self.values@.subrange(0, i as int), min, max),
            decreases self.values@.len() - i,
        {
            let v = self.values[i];
            proof {
                let s = self.values@.subrange(0, i as int + 1);
                assert(s.drop_last() == self.values@.subrange(0, i as int));
                assert(s.last() == v);
                reveal(Seq::filter);
            }
            let keep = match v {
                Some(e) => min.le(e) && e.le(max),
                None => false,
            };
            if keep {
                values.push(v);
            }
            i += 1;
        }
        assert(self.values@.subrange(0, self.values@.len() as int) == self.values@);
        Series { name: self.name.clone(), values }
    }
}

/// A table: named columns of one length.
#[derive(Debug)]
pub struct DataFrame {
    columns: Vec<Series>,
}

impl View for DataFrame {
    type V = Seq<SeriesView>;

    closed spec fn view(&self) -> Seq<SeriesView> {
        series_views(self.columns@)
    }
}

impl DataFrame {
    #[verifier::type_invariant]
    spec fn inv(self) -> bool {
        frame_wf(self@)
    }

    /// The frame with no columns (and so no rows).
    pub fn empty() -> (r: DataFrame)
        ensures
            r@.len() == 0,
    {
        DataFrame { columns: Vec::new() }
    }

    /// A frame of the given columns; `None` where they differ in length or repeat a name.
    pub fn new(columns: Vec<Series>) -> (r: Option<DataFrame>)
        ensures
            r is Some <==> frame_wf(series_views(columns@)),
            r matches Some(df) ==> df@ == series_views(columns@),
    {
        let ghost cols = series_views(columns@);
        let n = columns.len();
        let mut i: usize = 0;
        while i < n
            invariant
                n == columns@.len(),
                i <= n,
                forall|k: int| 0 <= k < i ==> #[trigger] columns@[k].values@.len() == columns@[0].values@.len(),
                forall|k: int, l: int| 0 <= k < l < i ==> #[trigger] columns@[k].name@ != #[trigger] columns@[l].name@,
                cols == series_views(columns@),
            decreases n - i,
        {
            if columns[i].values.len() != columns[0].values.len() {
                assert(cols[i as int].values.len() != cols[0].values.len());
                return None;
            }
            let mut j: usize = 0;
            while j < i
                invariant
                    n == columns@.len(),
                    j <= i < n,
                    cols == series_views(columns@),
                    forall|k: int| 0 <= k < j ==> #[trigger] columns@[k].name@ != columns@[i as int].name@,
                decreases i - j,
            {
                if columns[j].name == columns[i].name {
                    assert(cols[j as int].name == cols[i as int].name);
                    return None;
                }
                j += 1;
            }
            i += 1;
        }
        Some(DataFrame { columns })
    }

    pub fn columns(&self) -> (r: &Vec<Series>)
        ensures
            series_views(r@) == self@,
            frame_wf(self@),
    {
        proof {
            use_type_invariant(self);
        }
        &self.columns
    }

    /// The number of rows.
    pub fn height(&self) -> (r: usize)
        ensures
            r == spec_height(self@),
    {
        if self.columns.len() == 0 {
            0
        } else {
            self.columns[0].values.len()
        }
    }

    /// The position of the first column named `name`, if any.
    pub fn get_column_index(&self, name: &String) -> (r: Option<usize>)
        ensures
            r is None <==> !has_column(self@, name@),
            r matches Some(i) ==> is_first_named(self@, name@, i as int),
    {
        let mut i: usize = 0;
        while i < self.columns.len()
            invariant
                i <= self.columns@.len(),
                forall|j: int| 0 <= j < i ==> #[trigger] self@[j].name != name@,
            decreases self.columns@.len() - i,
        {
            if self.columns[i].name == *name {
                assert(self@[i as int].name == name@);
                return Some(i);
            }
            i += 1;
        }
        None
    }

    /// The column named `name`; where there is none, the empty series named "empty".
    pub fn select_column(&self, name: &String) -> (r: Series)
        ensures
            r@ == selected(self@, name@),
    {
        match self.get_column_index(name) {
            Some(i) => {
                proof {
                    let k = choose|k: int| is_first_named(self@, name@, k);
                    if k < i { assert(self@[k].name == name@); }
                    if i < k { assert(self@[i as int].name == name@); }
                }
                self.columns[i].clone_series()
            },
            None => {
                let r = Series::empty();
                assert(r@.values =~= Seq::empty());
                r
            },
        }
    }

    /// A copy of this frame.
    pub fn clone_frame(&self) -> (r: DataFrame)
        ensures
            r@ == self@,
    {
        proof {
            use_type_invariant(self);
        }
        let mut columns: Vec<Series> = Vec::new();
        let mut i: usize = 0;
        while i < self.columns.len()
            invariant
                i <= self.columns@.len(),
                self@.len() == self.columns@.len(),
                columns@.len() == i,
                forall|k: int| 0 <= k < i ==> #[trigger] columns@[k]@ == self@[k],
            decreases self.columns@.len() - i,
        {
            let c = self.columns[i].clone_series();
            assert(c@ == self@[i as int]);
            columns.push(c);
            i += 1;
        }
        assert(series_views(columns@) =~= self@);
        DataFrame { columns }
    }
}

} // verus!
