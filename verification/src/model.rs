use vstd::prelude::*;
use crate::descent::{accepts_epoch, descends, descent_epoch, is_epoch};
use crate::design::{
    design_outcome, training_accepts, validate_design, validate_training, DesignMatrix, DesignView,
};
use crate::error::ModelError;

verus! {

/// The tail convention of an F-test on a fitted model.
#[derive(Clone, Copy, Debug, PartialEq, Eq, Structural)]
pub enum AnovaTestKind {
    OneTailed,
    TwoTailed,
}

/// What a model is, as a mathematical value.
pub struct ModelView<T> {
    /// Whether a constant column of ones is put in front of the design.
    pub fit_intercept: bool,
    /// The coefficients of the last successful fit or training run.
    pub coefficients: Option<Seq<T>>,
    /// The constant term of the last training run; absent after a closed-form fit.
    pub bias: Option<T>,
}

/// The views of an optional solution vector.
pub open spec fn solution_view<T>(outcome: Option<Vec<T>>) -> Option<Seq<T>> {
    match outcome {
        Some(v) => Some(v@),
        None => None,
    }
}

impl<T> ModelView<T> {
    /// A model that has not been fitted yet.
    pub open spec fn unfitted(fit_intercept: bool) -> ModelView<T> {
        ModelView { fit_intercept, coefficients: None, bias: None }
    }

    /// A bias is held only beside coefficients, and a closed-form fit with an
    /// intercept holds the intercept as its first coefficient.
    pub open spec fn wf(self) -> bool {
        &&& self.coefficients is None ==> self.bias is None
        &&& self.fit_intercept && self.coefficients is Some && self.bias is None
            ==> self.coefficients.unwrap().len() >= 1
    }

    /// The coefficient vector, once there is one.
    pub open spec fn coef(self) -> Result<Seq<T>, ModelError> {
        match self.coefficients {
            Some(c) => Ok(c),
            None => Err(ModelError::NotFitted),
        }
    }

    /// The constant term of a model built with an intercept: the first
    /// coefficient of a closed-form fit, the bias of a training run.
    pub open spec fn intercept(self) -> Result<T, ModelError> {
        if !self.fit_intercept {
            Err(ModelError::NoIntercept)
        } else {
            match self.coefficients {
                None => Err(ModelError::NotFitted),
                Some(c) => match self.bias {
                    Some(b) => Ok(b),
                    None => Ok(c[0]),
                },
            }
        }
    }

    /// The model after the normal equations of a design of the given shape
    /// were solved with `outcome`, and the answer given to the caller. A
    /// rejected shape, a matrix without inverse and a solution of the wrong
    /// length each leave the model as it was.
    pub open spec fn solved(self, rows: int, cols: int, targets: int, outcome: Option<Seq<T>>) -> (
        Result<(), ModelError>,
        ModelView<T>,
    ) {
        match design_outcome(rows, cols, targets, self.fit_intercept) {
            Err(e) => (Err(e), self),
            Ok(k) => match outcome {
                None => (Err(ModelError::SingularMatrix), self),
                Some(c) => if c.len() != k {
                    (Err(ModelError::DimensionMismatch), self)
                } else {
                    (
                        Ok(()),
                        ModelView {
                            fit_intercept: self.fit_intercept,
                            coefficients: Some(c),
                            bias: None,
                        },
                    )
                },
            },
        }
    }

    /// The model after a training run that ended with the given weights and bias.
    pub open spec fn trained(self, weights: Seq<T>, bias: T) -> ModelView<T> {
        ModelView {
            fit_intercept: self.fit_intercept,
            coefficients: Some(weights),
            bias: Some(bias),
        }
    }
}

/// The design that the normal equations are solved for: `x` itself, or `x`
/// behind a column of ones where an intercept is fitted.
pub open spec fn augmented<T>(x: DesignView<T>, fit_intercept: bool, one: T) -> DesignView<T> {
    if fit_intercept {
        x.with_leading_column(one)
    } else {
        x
    }
}

/// A linear model `y = w_0 + w_1 * x_0 + w_2 * x_1 + ...` over scalars of type `T`.
#[derive(Debug)]
pub struct LinearModel<T> {
    w: Option<Vec<T>>,
    bias: Option<T>,
    fit_intercept: bool,
}

impl<T> View for LinearModel<T> {
    type V = ModelView<T>;

    closed spec fn view(&self) -> ModelView<T> {
        ModelView {
            fit_intercept: self.fit_intercept,
            coefficients: solution_view(self.w),
            bias: self.bias,
        }
    }
}

impl<T: Copy> LinearModel<T> {
    /// A model without coefficients.
    pub fn new(fit_intercept: bool) -> (model: LinearModel<T>)
        ensures
            model@ == ModelView::<T>::unfitted(fit_intercept),
            model@.wf(),
    {
        LinearModel { w: None, bias: None, fit_intercept }
    }

    /// Whether the model was built to fit an intercept.
    pub fn fit_intercept(&self) -> (flag: bool)
        ensures
            flag == self@.fit_intercept,
    {
        self.fit_intercept
    }

    /// Takes the outcome of solving the normal equations of a design of the
    /// given shape: the solution, or nothing where the matrix has no inverse.
    pub fn accept_solution(
        &mut self,
        rows: usize,
        cols: usize,
        targets: usize,
        outcome: Option<Vec<T>>,
    ) -> (res: Result<(), ModelError>)
        requires
            old(self)@.wf(),
        ensures
            (res, final(self)@) == old(self)@.solved(
                rows as int,
                cols as int,
                targets as int,
                solution_view(outcome),
            ),
            final(self)@.wf(),
    {
        match validate_design(rows, cols, targets, self.fit_intercept) {
            Err(e) => Err(e),
            Ok(k) => match outcome {
                None => Err(ModelError::SingularMatrix),
                Some(c) => {
                    if c.len() != k {
                        Err(ModelError::DimensionMismatch)
                    } else {
                        self.w = Some(c);
                        self.bias = None;
                        Ok(())
                    }
                },
            },
        }
    }

    /// Fits the model in closed form to the design `x` and the targets `y`.
    ///
    /// `solve` is handed the design, behind a column that holds `one` in
    /// every row where an intercept is fitted, and the targets. It answers
    /// with the solution of the normal equations, or with nothing where their
    /// matrix has no inverse. It is called only for a shape that the fit
    /// accepts.
    pub fn fit<F: FnOnce(&DesignMatrix<T>, &Vec<T>) -> Option<Vec<T>>>(
        &mut self,
        x: &DesignMatrix<T>,
        y: &Vec<T>,
        one: T,
        solve: F,
    ) -> (res: Result<(), ModelError>)
        requires
            old(self)@.wf(),
            x@.wf(),
            forall|d: &DesignMatrix<T>|
                d@ == augmented(x@, old(self)@.fit_intercept, one) ==> #[trigger] solve.requires(
                    (d, y),
                ),
        ensures
            final(self)@.wf(),
            final(self)@.fit_intercept == old(self)@.fit_intercept,
            match design_outcome(
                x@.rows.len() as int,
                x@.cols as int,
                y@.len() as int,
                old(self)@.fit_intercept,
            ) {
                Err(e) => res == Err::<(), ModelError>(e) && final(self)@ == old(self)@,
                Ok(k) => exists|d: DesignMatrix<T>, outcome: Option<Vec<T>>|
                    {
                        &&& d@ == augmented(x@, old(self)@.fit_intercept, one)
                        &&& #[trigger] solve.ensures((&d, y), outcome)
                        &&& (res, final(self)@) == old(self)@.solved(
                            x@.rows.len() as int,
                            x@.cols as int,
                            y@.len() as int,
                            solution_view(outcome),
                        )
                    },
            },
            res is Ok ==> final(self)@.coefficients is Some,
    {
        match validate_design(x.nrows(), x.ncols(), y.len(), self.fit_intercept) {
            Err(e) => Err(e),
            Ok(_) => {
                if self.fit_intercept {
                    let design = x.with_leading_column(one);
                    let outcome = solve(&design, y);
                    self.accept_solution(x.nrows(), x.ncols(), y.len(), outcome)
                } else {
                    let outcome = solve(x, y);
                    self.accept_solution(x.nrows(), x.ncols(), y.len(), outcome)
                }
            },
        }
    }

    /// The coefficient vector.
    pub fn coef(&self) -> (res: Result<&Vec<T>, ModelError>)
        ensures
            match self@.coef() {
                Ok(c) => res is Ok && res.unwrap()@ == c,
                Err(e) => res == Err::<&Vec<T>, ModelError>(e),
            },
    {
        match &self.w {
            Some(c) => Ok(c),
            None => Err(ModelError::NotFitted),
        }
    }

    /// The constant term of the model.
    pub fn intercept(&self) -> (res: Result<T, ModelError>)
        requires
            self@.wf(),
        ensures
            res == self@.intercept(),
    {
        if !self.fit_intercept {
            return Err(ModelError::NoIntercept);
        }
        match &self.w {
            None => Err(ModelError::NotFitted),
            Some(c) => match self.bias {
                Some(b) => Ok(b),
                None => Ok(c[0]),
            },
        }
    }

    /// The bias that the last training run ended with.
    pub fn bias(&self) -> (res: Option<T>)
        ensures
            res == self@.bias,
    {
        self.bias
    }

    /// Trains the model by full-batch gradient descent on the design `x` and
    /// the targets `y`, from the initial weights `w` and bias `b`.
    ///
    /// Exactly `epochs` epochs run at the learning rate `lr`, each on what
    /// the epoch before it gave; there is no early stop. The four callables
    /// are those of [`descent_epoch`].
    pub fn train<
        R: Fn(&Vec<T>, &Vec<T>, T, T) -> T,
        P: Fn(&Vec<T>, &Vec<T>) -> T,
        M: Fn(&Vec<T>) -> T,
        D: Fn(T, T, T) -> T,
    >(
        &mut self,
        x: &DesignMatrix<T>,
        y: &Vec<T>,
        w: Vec<T>,
        b: T,
        epochs: usize,
        residual: &R,
        mean_product: &P,
        mean: &M,
        descend: &D,
    lr: T,
    ) -> (res: Result<(), ModelError>)
        requires
            old(self)@.wf(),
            x@.wf(),
            accepts_epoch(*residual, *mean_product, *mean, *descend),
        ensures
            final(self)@.wf(),
            final(self)@.fit_intercept == old(self)@.fit_intercept,
            !training_accepts(
                x@.rows.len() as int,
                x@.cols as int,
                y@.len() as int,
                w@.len() as int,
            ) ==> {
                &&& res == Err::<(), ModelError>(ModelError::DimensionMismatch)
                &&& final(self)@ == old(self)@
            },
            training_accepts(
                x@.rows.len() as int,
                x@.cols as int,
                y@.len() as int,
                w@.len() as int,
            ) ==> {
                &&& res == Ok::<(), ModelError>(())
                &&& exists|ew: Seq<T>, eb: T|
                    {
                        &&& #[trigger] descends(
                            *residual,
                            *mean_product,
                            *mean,
                            *descend,
                            lr,
                            x@,
                            y@,
                            w@,
                            b,
                            epochs as nat,
                            ew,
                            eb,
                        )
                        &&& ew.len() == x@.cols
                        &&& final(self)@ == old(self)@.trained(ew, eb)
                    }
            },
            training_accepts(
                x@.rows.len() as int,
                x@.cols as int,
                y@.len() as int,
                w@.len() as int,
            ) && epochs == 0 ==> final(self)@ == old(self)@.trained(w@, b),
    {
        match validate_training(x.nrows(), x.ncols(), y.len(), w.len()) {
            Err(e) => Err(e),
            Ok(_) => {
                let ghost w0 = w@;
                let mut cur_w = w;
                let mut cur_b = b;
                let mut done: usize = 0;
                while done < epochs
                    invariant
                        done <= epochs,
                        x@.wf(),
                        y@.len() == x@.rows.len(),
                        cur_w@.len() == x@.cols,
                        accepts_epoch(*residual, *mean_product, *mean, *descend),
                        descends(
                            *residual,
                            *mean_product,
                            *mean,
                            *descend,
                            lr,
                            x@,
                            y@,
                            w0,
                            b,
                            done as nat,
                            cur_w@,
                            cur_b,
                        ),
                    decreases epochs - done,
                {
                    match descent_epoch(
                        x,
                        y,
                        &cur_w,
                        cur_b,
                        residual,
                        mean_product,
                        mean,
                        descend,
                        lr,
                    ) {
                        Ok((next_w, next_b)) => {
                            assert(((done + 1) as nat - 1) as nat == done as nat);
                            cur_w = next_w;
                            cur_b = next_b;
                            done = done + 1;
                        },
                        Err(e) => {
                            return Err(e);
                        },
                    }
                }
                self.w = Some(cur_w);
                self.bias = Some(cur_b);
                Ok(())
            },
        }
    }
}

/// A model that was never fitted has no coefficients to give.
pub proof fn unfitted_has_no_coefficients<T>(fit_intercept: bool)
    ensures
        ModelView::<T>::unfitted(fit_intercept).wf(),
        ModelView::<T>::unfitted(fit_intercept).coef() == Err::<Seq<T>, ModelError>(
            ModelError::NotFitted,
        ),
{
}

/// Right after a fit that succeeded the coefficients are present: they are
/// the solution that was handed in, one per column of the design and one more
/// where an intercept is fitted.
pub proof fn fit_makes_coefficients_present<T>(
    m: ModelView<T>,
    rows: int,
    cols: int,
    targets: int,
    outcome: Option<Seq<T>>,
)
    requires
        0 <= cols,
        m.solved(rows, cols, targets, outcome).0 is Ok,
    ensures
        outcome is Some,
        m.solved(rows, cols, targets, outcome).1.coef() == Ok::<Seq<T>, ModelError>(
            outcome.unwrap(),
        ),
        outcome.unwrap().len() == crate::design::coefficient_count(cols, m.fit_intercept),
        m.solved(rows, cols, targets, outcome).1.wf(),
{
}

/// A model built without an intercept answers every request for it with
/// `NoIntercept`: before any fit, after a closed-form fit whatever its
/// outcome, and after a training run.
pub proof fn no_intercept_without_flag<T>(
    m: ModelView<T>,
    rows: int,
    cols: int,
    targets: int,
    outcome: Option<Seq<T>>,
    weights: Seq<T>,
    bias: T,
)
    requires
        !m.fit_intercept,
    ensures
        m.intercept() == Err::<T, ModelError>(ModelError::NoIntercept),
        m.solved(rows, cols, targets, outcome).1.intercept() == Err::<T, ModelError>(
            ModelError::NoIntercept,
        ),
        m.trained(weights, bias).intercept() == Err::<T, ModelError>(ModelError::NoIntercept),
{
}

/// Training for no epoch at all leaves the weights and the bias as they were
/// handed in.
pub proof fn zero_epochs_is_identity<
    T,
    R: Fn(&Vec<T>, &Vec<T>, T, T) -> T,
    P: Fn(&Vec<T>, &Vec<T>) -> T,
    M: Fn(&Vec<T>) -> T,
    D: Fn(T, T, T) -> T,
>(
    residual: R,
    mean_product: P,
    mean: M,
    descend: D,
    lr: T,
    x: DesignView<T>,
    y: Seq<T>,
    w0: Seq<T>,
    b0: T,
    w: Seq<T>,
    b: T,
)
    requires
        descends(residual, mean_product, mean, descend, lr, x, y, w0, b0, 0, w, b),
    ensures
        w == w0,
        b == b0,
{
}

/// Every epoch keeps the number of weights, so any number of them does.
pub proof fn descent_keeps_length<
    T,
    R: Fn(&Vec<T>, &Vec<T>, T, T) -> T,
    P: Fn(&Vec<T>, &Vec<T>) -> T,
    M: Fn(&Vec<T>) -> T,
    D: Fn(T, T, T) -> T,
>(
    residual: R,
    mean_product: P,
    mean: M,
    descend: D,
    lr: T,
    x: DesignView<T>,
    y: Seq<T>,
    w0: Seq<T>,
    b0: T,
    n: nat,
    w: Seq<T>,
    b: T,
)
    requires
        descends(residual, mean_product, mean, descend, lr, x, y, w0, b0, n, w, b),
    ensures
        w.len() == w0.len(),
    decreases n,
{
    if n > 0 {
        let (mw, mb) = choose|mw: Seq<T>, mb: T|
            descends(residual, mean_product, mean, descend, lr, x, y, w0, b0, (n - 1) as nat, mw, mb)
                && #[trigger] is_epoch(residual, mean_product, mean, descend, lr, x, y, mw, mb, w, b);
        descent_keeps_length(
            residual,
            mean_product,
            mean,
            descend,
            lr,
            x,
            y,
            w0,
            b0,
            (n - 1) as nat,
            mw,
            mb,
        );
    }
}

} // verus!
