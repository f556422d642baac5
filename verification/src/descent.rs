use vstd::prelude::*;
use crate::design::{training_accepts, validate_training, DesignMatrix, DesignView};
use crate::error::ModelError;

verus! {

/// The four callables accept what an epoch hands them: a row with as many
/// entries as there are weights, and residuals with as many entries as a
/// column.
pub open spec fn accepts_epoch<
    T,
    R: Fn(&Vec<T>, &Vec<T>, T, T) -> T,
    P: Fn(&Vec<T>, &Vec<T>) -> T,
    M: Fn(&Vec<T>) -> T,
    D: Fn(T, T, T) -> T,
>(residual: R, mean_product: P, mean: M, descend: D) -> bool {
    &&& forall|row: &Vec<T>, w: &Vec<T>, b: T, target: T|
        row@.len() == w@.len() ==> #[trigger] residual.requires((row, w, b, target))
    &&& forall|r: &Vec<T>, column: &Vec<T>|
        r@.len() == column@.len() ==> #[trigger] mean_product.requires((r, column))
    &&& forall|r: &Vec<T>| #[trigger] mean.requires((r,))
    &&& forall|value: T, gradient: T, rate: T| #[trigger] descend.requires((value, gradient, rate))
}

/// `r` is a residual of the sample `row` with target `target` under the
/// weights `w` and the bias `b`.
pub open spec fn is_residual<T, R: Fn(&Vec<T>, &Vec<T>, T, T) -> T>(
    residual: R,
    row: Seq<T>,
    w: Seq<T>,
    b: T,
    target: T,
    r: T,
) -> bool {
    exists|rv: Vec<T>, wv: Vec<T>|
        rv@ == row && wv@ == w && #[trigger] residual.ensures((&rv, &wv, b, target), r)
}

/// `r` holds one residual for each sample, in the order of the rows.
pub open spec fn is_residuals<T, R: Fn(&Vec<T>, &Vec<T>, T, T) -> T>(
    residual: R,
    x: DesignView<T>,
    y: Seq<T>,
    w: Seq<T>,
    b: T,
    r: Seq<T>,
) -> bool {
    &&& r.len() == x.rows.len()
    &&& forall|i: int|
        0 <= i < r.len() ==> is_residual(residual, x.rows[i], w, b, y[i], #[trigger] r[i])
}

/// `next` is `value` after one descent at the rate `lr` along the mean
/// product of the residuals `r` and `column`.
pub open spec fn is_weight_update<T, P: Fn(&Vec<T>, &Vec<T>) -> T, D: Fn(T, T, T) -> T>(
    mean_product: P,
    descend: D,
    lr: T,
    r: Seq<T>,
    column: Seq<T>,
    value: T,
    next: T,
) -> bool {
    exists|rv: Vec<T>, cv: Vec<T>, g: T|
        rv@ == r && cv@ == column && #[trigger] mean_product.ensures((&rv, &cv), g)
            && #[trigger] descend.ensures((value, g, lr), next)
}

/// `next` is `value` after one descent at the rate `lr` along the mean of
/// the residuals `r`.
pub open spec fn is_bias_update<T, M: Fn(&Vec<T>) -> T, D: Fn(T, T, T) -> T>(
    mean: M,
    descend: D,
    lr: T,
    r: Seq<T>,
    value: T,
    next: T,
) -> bool {
    exists|rv: Vec<T>, g: T|
        rv@ == r && #[trigger] mean.ensures((&rv,), g) && #[trigger] descend.ensures(
            (value, g, lr),
            next,
        )
}

/// `(nw, nb)` is what one epoch at the rate `lr` makes of `(w, b)`: the
/// residuals of all samples are taken at `(w, b)`, each weight descends along
/// the mean product of the residuals and its own column, and the bias along
/// their mean.
pub open spec fn is_epoch<
    T,
    R: Fn(&Vec<T>, &Vec<T>, T, T) -> T,
    P: Fn(&Vec<T>, &Vec<T>) -> T,
    M: Fn(&Vec<T>) -> T,
    D: Fn(T, T, T) -> T,
>(
    residual: R,
    mean_product: P,
    mean: M,
    descend: D,
    lr: T,
    x: DesignView<T>,
    y: Seq<T>,
    w: Seq<T>,
    b: T,
    nw: Seq<T>,
    nb: T,
) -> bool {
    exists|r: Seq<T>|
        {
            &&& #[trigger] is_residuals(residual, x, y, w, b, r)
            &&& nw.len() == w.len()
            &&& forall|j: int|
                0 <= j < w.len() ==> is_weight_update(
                    mean_product,
                    descend,
                    lr,
                    r,
                    x.column(j),
                    w[j],
                    #[trigger] nw[j],
                )
            &&& is_bias_update(mean, descend, lr, r, b, nb)
        }
}

/// `(w, b)` is what `n` epochs at the rate `lr` make of `(w0, b0)`, each
/// taken at what the epoch before it gave.
pub open spec fn descends<
    T,
    R: Fn(&Vec<T>, &Vec<T>, T, T) -> T,
    P: Fn(&Vec<T>, &Vec<T>) -> T,
    M: Fn(&Vec<T>) -> T,
    D: Fn(T, T, T) -> T,
>(
    residual: R,
    mean_product: P,
    mean: M,
    descend: D,
    lr: T,
    x: DesignView<T>,
    y: Seq<T>,
    w0: Seq<T>,
    b0: T,
    n: nat,
    w: Seq<T>,
    b: T,
) -> bool
    decreases n,
{
    if n == 0 {
        w == w0 && b == b0
    } else {
        exists|mw: Seq<T>, mb: T|
            descends(residual, mean_product, mean, descend, lr, x, y, w0, b0, (n - 1) as nat, mw, mb)
                && #[trigger] is_epoch(residual, mean_product, mean, descend, lr, x, y, mw, mb, w, b)
    }
}

/// Runs one epoch of full-batch gradient descent at the learning rate `lr`
/// on the design `x` and the targets `y`, from the weights `w` and the bias
/// `b`. Targets that are not
/// aligned with the rows, or weights that are not aligned with the columns,
/// are a dimension mismatch.
///
/// `residual` takes a row, the weights, the bias and the row's target;
/// `mean_product` takes the residuals and a column and gives the gradient of
/// that column's weight; `mean` takes the residuals and gives the gradient of
/// the bias; `descend` takes a value, its gradient and the learning rate and
/// gives the updated value. Every update is handed `lr` and no other rate.
pub fn descent_epoch<
    T: Copy,
    R: Fn(&Vec<T>, &Vec<T>, T, T) -> T,
    P: Fn(&Vec<T>, &Vec<T>) -> T,
    M: Fn(&Vec<T>) -> T,
    D: Fn(T, T, T) -> T,
>(
    x: &DesignMatrix<T>,
    y: &Vec<T>,
    w: &Vec<T>,
    b: T,
    residual: &R,
    mean_product: &P,
    mean: &M,
    descend: &D,
    lr: T,
) -> (res: Result<(Vec<T>, T), ModelError>)
    requires
        x@.wf(),
        accepts_epoch(*residual, *mean_product, *mean, *descend),
    ensures
        match res {
            Ok(next) => {
                &&& training_accepts(
                    x@.rows.len() as int,
                    x@.cols as int,
                    y@.len() as int,
                    w@.len() as int,
                )
                &&& is_epoch(
                    *residual,
                    *mean_product,
                    *mean,
                    *descend,
                    lr,
                    x@,
                    y@,
                    w@,
                    b,
                    next.0@,
                    next.1,
                )
                &&& next.0@.len() == w@.len()
            },
            Err(e) => {
                &&& !training_accepts(
                    x@.rows.len() as int,
                    x@.cols as int,
                    y@.len() as int,
                    w@.len() as int,
                )
                &&& e == ModelError::DimensionMismatch
            },
        },
{
    if validate_training(x.nrows(), x.ncols(), y.len(), w.len()).is_err() {
        return Err(ModelError::DimensionMismatch);
    }
    let n: usize = x.nrows();
    let mut r: Vec<T> = Vec::new();
    let mut i: usize = 0;
    while i < n
        invariant
            i <= n,
            n == x@.rows.len(),
            x@.wf(),
            y@.len() == n,
            w@.len() == x@.cols,
            accepts_epoch(*residual, *mean_product, *mean, *descend),
            r@.len() == i,
            forall|k: int|
                0 <= k < i ==> is_residual(*residual, x@.rows[k], w@, b, y@[k], #[trigger] r@[k]),
        decreases n - i,
    {
        let row = x.row(i);
        assert(x@.rows[i as int].len() == x@.cols);
        let e = residual(row, w, b, y[i]);
        assert(residual.ensures((row, w, b, y@[i as int]), e));
        r.push(e);
        i = i + 1;
    }
    assert(is_residuals(*residual, x@, y@, w@, b, r@));
    let mut nw: Vec<T> = Vec::new();
    let mut j: usize = 0;
    while j < w.len()
        invariant
            j <= w.len(),
            x@.wf(),
            w@.len() == x@.cols,
            r@.len() == x@.rows.len(),
            accepts_epoch(*residual, *mean_product, *mean, *descend),
            nw@.len() == j,
            forall|k: int|
                0 <= k < j ==> is_weight_update(
                    *mean_product,
                    *descend,
                    lr,
                    r@,
                    x@.column(k),
                    w@[k],
                    #[trigger] nw@[k],
                ),
        decreases w.len() - j,
    {
        let column = x.column(j);
        let g = mean_product(&r, &column);
        let moved = descend(w[j], g, lr);
        assert(mean_product.ensures((&r, &column), g) && descend.ensures((w@[j as int], g, lr), moved));
        nw.push(moved);
        j = j + 1;
    }
    let gb = mean(&r);
    let nb = descend(b, gb, lr);
    assert(mean.ensures((&r,), gb) && descend.ensures((b, gb, lr), nb));
    Ok((nw, nb))
}

} // verus!
