use vstd::prelude::*;
use crate::error::ModelError;

verus! {

/// Number of coefficients of a model over `cols` features: one per feature,
/// and one more, in front, when an intercept is fitted.
pub open spec fn coefficient_count(cols: int, fit_intercept: bool) -> int {
    if fit_intercept {
        cols + 1
    } else {
        cols
    }
}

/// What a closed-form fit answers to a design of `rows` samples and `cols`
/// features with `targets` target values, before any arithmetic is done.
///
/// The targets must be aligned row for row with the design. A design with
/// fewer samples than coefficients has a normal-equation matrix of deficient
/// rank, whatever its entries.
pub open spec fn design_outcome(rows: int, cols: int, targets: int, fit_intercept: bool) -> Result<
    int,
    ModelError,
> {
    if targets != rows {
        Err(ModelError::DimensionMismatch)
    } else if rows < coefficient_count(cols, fit_intercept) {
        Err(ModelError::SingularMatrix)
    } else {
        Ok(coefficient_count(cols, fit_intercept))
    }
}

/// What a training run answers to a design of `rows` samples and `cols`
/// features with `targets` target values and `weights` initial weights.
pub open spec fn training_accepts(rows: int, cols: int, targets: int, weights: int) -> bool {
    targets == rows && weights == cols
}

/// Checks the shape of a design for a closed-form fit and gives the number of
/// coefficients that the fit will produce.
pub fn validate_design(rows: usize, cols: usize, targets: usize, fit_intercept: bool) -> (res: Result<
    usize,
    ModelError,
>)
    ensures
        match design_outcome(rows as int, cols as int, targets as int, fit_intercept) {
            Ok(k) => res == Ok::<usize, ModelError>(k as usize) && k <= usize::MAX,
            Err(e) => res == Err::<usize, ModelError>(e),
        },
{
    if targets != rows {
        Err(ModelError::DimensionMismatch)
    } else if fit_intercept {
        if rows <= cols {
            Err(ModelError::SingularMatrix)
        } else {
            Ok(cols + 1)
        }
    } else if rows < cols {
        Err(ModelError::SingularMatrix)
    } else {
        Ok(cols)
    }
}

/// Checks the shape of a design and of the initial weights for a training run.
pub fn validate_training(rows: usize, cols: usize, targets: usize, weights: usize) -> (res: Result<
    (),
    ModelError,
>)
    ensures
        training_accepts(rows as int, cols as int, targets as int, weights as int) ==> res
            == Ok::<(), ModelError>(()),
        !training_accepts(rows as int, cols as int, targets as int, weights as int) ==> res
            == Err::<(), ModelError>(ModelError::DimensionMismatch),
{
    if targets == rows && weights == cols {
        Ok(())
    } else {
        Err(ModelError::DimensionMismatch)
    }
}

/// A design matrix as a mathematical value: its rows, and the number of
/// columns that each of them has.
pub struct DesignView<T> {
    pub rows: Seq<Seq<T>>,
    pub cols: nat,
}

impl<T> DesignView<T> {
    /// Every row has the same number of entries.
    pub open spec fn wf(self) -> bool {
        forall|i: int| 0 <= i < self.rows.len() ==> (#[trigger] self.rows[i]).len() == self.cols
    }

    /// The design with a column that holds `v` in every row put in front.
    pub open spec fn with_leading_column(self, v: T) -> DesignView<T> {
        DesignView {
            rows: Seq::new(self.rows.len(), |i: int| seq![v] + self.rows[i]),
            cols: self.cols + 1,
        }
    }

    /// Column `j`, from the first row to the last.
    pub open spec fn column(self, j: int) -> Seq<T> {
        Seq::new(self.rows.len(), |i: int| self.rows[i][j])
    }
}

/// The rows of a design, each by its view.
pub open spec fn row_views<T>(rows: Seq<Vec<T>>) -> Seq<Seq<T>> {
    Seq::new(rows.len(), |i: int| rows[i]@)
}

/// Every row holds `cols` entries.
pub open spec fn rectangular<T>(rows: Seq<Vec<T>>, cols: nat) -> bool {
    forall|i: int| 0 <= i < rows.len() ==> (#[trigger] rows[i])@.len() == cols
}

/// A rectangular array of scalars: one row per sample, one column per feature.
#[derive(Debug)]
pub struct DesignMatrix<T> {
    rows: Vec<Vec<T>>,
    cols: usize,
}

impl<T> View for DesignMatrix<T> {
    type V = DesignView<T>;

    closed spec fn view(&self) -> DesignView<T> {
        DesignView { rows: row_views(self.rows@), cols: self.cols as nat }
    }
}

impl<T: Copy> DesignMatrix<T> {
    /// Takes the rows of a design of `cols` columns. A row of any other
    /// length is a dimension mismatch.
    pub fn from_rows(rows: Vec<Vec<T>>, cols: usize) -> (res: Result<DesignMatrix<T>, ModelError>)
        ensures
            match res {
                Ok(m) => rectangular(rows@, cols as nat) && m@ == (DesignView {
                    rows: row_views(rows@),
                    cols: cols as nat,
                }) && m@.wf(),
                Err(e) => !rectangular(rows@, cols as nat) && e == ModelError::DimensionMismatch,
            },
    {
        let mut i: usize = 0;
        while i < rows.len()
            invariant
                i <= rows.len(),
                forall|k: int| 0 <= k < i ==> (#[trigger] rows@[k])@.len() == cols,
            decreases rows.len() - i,
        {
            if rows[i].len() != cols {
                return Err(ModelError::DimensionMismatch);
            }
            i = i + 1;
        }
        Ok(DesignMatrix { rows, cols })
    }

    /// The number of samples.
    pub fn nrows(&self) -> (n: usize)
        ensures
            n == self@.rows.len(),
    {
        self.rows.len()
    }

    /// The number of features.
    pub fn ncols(&self) -> (n: usize)
        ensures
            n == self@.cols,
    {
        self.cols
    }

    /// Row `i`.
    pub fn row(&self, i: usize) -> (r: &Vec<T>)
        requires
            i < self@.rows.len(),
        ensures
            r@ == self@.rows[i as int],
    {
        &self.rows[i]
    }

    /// Column `j`, from the first row to the last.
    pub fn column(&self, j: usize) -> (c: Vec<T>)
        requires
            self@.wf(),
            j < self@.cols,
        ensures
            c@ == self@.column(j as int),
    {
        let mut c: Vec<T> = Vec::new();
        let mut i: usize = 0;
        while i < self.rows.len()
            invariant
                i <= self.rows.len(),
                self@.wf(),
                j < self@.cols,
                c@.len() == i,
                forall|k: int| 0 <= k < i ==> #[trigger] c@[k] == self@.rows[k][j as int],
            decreases self.rows.len() - i,
        {
            assert(self@.rows[i as int].len() == self@.cols);
            c.push(self.rows[i][j]);
            i = i + 1;
        }
        assert(c@ =~= self@.column(j as int));
        c
    }

    /// The design with a column that holds `v` in every row put in front.
    pub fn with_leading_column(&self, v: T) -> (d: DesignMatrix<T>)
        requires
            self@.wf(),
            self@.cols < usize::MAX,
        ensures
            d@ == self@.with_leading_column(v),
            d@.wf(),
    {
        let mut rows: Vec<Vec<T>> = Vec::new();
        let mut i: usize = 0;
        while i < self.rows.len()
            invariant
                i <= self.rows.len(),
                self@.wf(),
                rows@.len() == i,
                forall|k: int| 0 <= k < i ==> (#[trigger] rows@[k])@ == seq![v] + self@.rows[k],
            decreases self.rows.len() - i,
        {
            let source = &self.rows[i];
            let mut row: Vec<T> = Vec::new();
            row.push(v);
            let mut j: usize = 0;
            while j < source.len()
                invariant
                    j <= source.len(),
                    row@ == seq![v] + source@.subrange(0, j as int),
                decreases source.len() - j,
            {
                row.push(source[j]);
                assert(source@.subrange(0, j + 1) == source@.subrange(0, j as int).push(
                    source@[j as int],
                ));
                j = j + 1;
            }
            assert(source@.subrange(0, source@.len() as int) == source@);
            rows.push(row);
            i = i + 1;
        }
        let d = DesignMatrix { rows, cols: self.cols + 1 };
        assert(d@.rows =~= self@.with_leading_column(v).rows);
        d
    }
}

} // verus!
