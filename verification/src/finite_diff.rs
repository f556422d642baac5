use vstd::prelude::*;

verus! {

/// `d` is a forward difference quotient of `func` at `x` with the step `eps`:
/// `func` is evaluated at `x` and at what `shift` makes of `x` and `eps`, and
/// `quotient` is given the value at the shifted point, the value at `x` and
/// the same `eps`.
pub open spec fn forward_difference<T, Fun: Fn(T) -> T, Sh: Fn(T, T) -> T, Quo: Fn(T, T, T) -> T>(
    func: Fun,
    shift: Sh,
    quotient: Quo,
    eps: T,
    x: T,
    d: T,
) -> bool {
    exists|s: T, fs: T, fx: T|
        shift.ensures((x, eps), s) && #[trigger] func.ensures((s,), fs) && func.ensures((x,), fx)
            && #[trigger] quotient.ensures((fs, fx, eps), d)
}

/// `g` holds, coordinate by coordinate, a forward difference quotient of
/// `func` at the coordinates of `x`.
pub open spec fn is_gradient<T, Fun: Fn(T) -> T, Sh: Fn(T, T) -> T, Quo: Fn(T, T, T) -> T>(
    func: Fun,
    shift: Sh,
    quotient: Quo,
    eps: T,
    x: Seq<T>,
    g: Seq<T>,
) -> bool {
    &&& g.len() == x.len()
    &&& forall|i: int|
        0 <= i < x.len() ==> forward_difference(func, shift, quotient, eps, x[i], #[trigger] g[i])
}

/// The three callables accept every scalar and every step.
pub open spec fn total<T, Fun: Fn(T) -> T, Sh: Fn(T, T) -> T, Quo: Fn(T, T, T) -> T>(
    func: Fun,
    shift: Sh,
    quotient: Quo,
) -> bool {
    &&& forall|v: T| #[trigger] func.requires((v,))
    &&& forall|v: T, step: T| #[trigger] shift.requires((v, step))
    &&& forall|a: T, b: T, step: T| #[trigger] quotient.requires((a, b, step))
}

/// Approximates the derivative of `func` at each coordinate of `x` by a
/// forward difference. `func` is taken to act on one coordinate at a time.
///
/// `shift` takes a scalar and the step and adds the step to the scalar;
/// `quotient` takes the value at the shifted point, the value at the point
/// and the step, and divides the difference of the two values by the step.
/// Both are handed `eps` and no other step.
pub fn approx_fprime<T: Copy, Fun: Fn(T) -> T, Sh: Fn(T, T) -> T, Quo: Fn(T, T, T) -> T>(
    x: &Vec<T>,
    func: &Fun,
    eps: T,
    shift: &Sh,
    quotient: &Quo,
) -> (g: Vec<T>)
    requires
        total(*func, *shift, *quotient),
    ensures
        is_gradient(*func, *shift, *quotient, eps, x@, g@),
{
    let mut values: Vec<T> = Vec::new();
    let mut i: usize = 0;
    while i < x.len()
        invariant
            i <= x.len(),
            total(*func, *shift, *quotient),
            values@.len() == i,
            forall|j: int| 0 <= j < i ==> func.ensures((x@[j],), #[trigger] values@[j]),
        decreases x.len() - i,
    {
        values.push(func(x[i]));
        i = i + 1;
    }
    let mut g: Vec<T> = Vec::new();
    let mut k: usize = 0;
    while k < x.len()
        invariant
            k <= x.len(),
            total(*func, *shift, *quotient),
            values@.len() == x.len(),
            forall|j: int| 0 <= j < x.len() ==> func.ensures((x@[j],), #[trigger] values@[j]),
            g@.len() == k,
            forall|j: int|
                0 <= j < k ==> forward_difference(
                    *func,
                    *shift,
                    *quotient,
                    eps,
                    x@[j],
                    #[trigger] g@[j],
                ),
        decreases x.len() - k,
    {
        let shifted = shift(x[k], eps);
        let ahead = func(shifted);
        let d = quotient(ahead, values[k], eps);
        proof {
            assert(shift.ensures((x@[k as int], eps), shifted) && func.ensures((shifted,), ahead)
                && func.ensures((x@[k as int],), values@[k as int]) && quotient.ensures(
                (ahead, values@[k as int], eps),
                d,
            ));
        }
        g.push(d);
        k = k + 1;
    }
    g
}

/// `h` is what `quotient` makes of a forward difference quotient of `func` at
/// the probe coordinate and of `base`. The probe coordinate is what `shift`
/// makes of `zero` and `eps` on the diagonal, and `zero` elsewhere.
pub open spec fn hessian_entry<T, Fun: Fn(T) -> T, Sh: Fn(T, T) -> T, Quo: Fn(T, T, T) -> T>(
    func: Fun,
    shift: Sh,
    quotient: Quo,
    eps: T,
    zero: T,
    on_diagonal: bool,
    base: T,
    h: T,
) -> bool {
    exists|p: T, g: T|
        #[trigger] shift.ensures((zero, eps), p) && forward_difference(
            func,
            shift,
            quotient,
            eps,
            if on_diagonal {
                p
            } else {
                zero
            },
            g,
        ) && #[trigger] quotient.ensures((g, base, eps), h)
}

/// `col` is column `i` of the approximation: its entry in row `r` is taken
/// against `base[r]`, and only row `i` is probed away from `zero`.
pub open spec fn is_column<T, Fun: Fn(T) -> T, Sh: Fn(T, T) -> T, Quo: Fn(T, T, T) -> T>(
    func: Fun,
    shift: Sh,
    quotient: Quo,
    eps: T,
    zero: T,
    i: int,
    base: Seq<T>,
    col: Seq<T>,
) -> bool {
    &&& col.len() == base.len()
    &&& forall|r: int|
        0 <= r < base.len() ==> hessian_entry(
            func,
            shift,
            quotient,
            eps,
            zero,
            r == i,
            base[r],
            #[trigger] col[r],
        )
}

/// The vector of `n` coordinates that holds `zero` in each of them.
pub open spec fn unperturbed<T>(n: nat, zero: T) -> Seq<T> {
    Seq::new(n, |k: int| zero)
}

/// `cols` holds the columns of a square matrix of the size of `x0`, each
/// taken against one and the same gradient approximation at the vector that
/// holds `zero` in every coordinate. Of `x0` only the length counts.
pub open spec fn is_hessian<T, Fun: Fn(T) -> T, Sh: Fn(T, T) -> T, Quo: Fn(T, T, T) -> T>(
    func: Fun,
    shift: Sh,
    quotient: Quo,
    eps: T,
    zero: T,
    x0: Seq<T>,
    cols: Seq<Vec<T>>,
) -> bool {
    &&& cols.len() == x0.len()
    &&& exists|base: Seq<T>|
        #[trigger] is_gradient(
            func,
            shift,
            quotient,
            eps,
            unperturbed(x0.len(), zero),
            base,
        ) && forall|i: int|
            0 <= i < x0.len() ==> is_column(
                func,
                shift,
                quotient,
                eps,
                zero,
                i,
                base,
                (#[trigger] cols[i])@,
            )
}

/// Approximates the matrix of second derivatives of `func` and gives it
/// column by column.
///
/// The matrix has as many rows and columns as `x0` has entries. The gradient
/// is approximated once at the unperturbed vector, which holds `zero` in
/// every coordinate. For column `i` it is approximated again at the vector
/// that holds `zero` everywhere but in coordinate `i`, which holds what
/// `shift` makes of `zero` and `eps`; `quotient` then takes, row by row, the
/// entry of that gradient, the entry of the unperturbed one and `eps`.
/// Nothing makes the result symmetric.
pub fn hessian_mtx<T: Copy, Fun: Fn(T) -> T, Sh: Fn(T, T) -> T, Quo: Fn(T, T, T) -> T>(
    x0: &Vec<T>,
    func: &Fun,
    eps: T,
    zero: T,
    shift: &Sh,
    quotient: &Quo,
) -> (hess: Vec<Vec<T>>)
    requires
        total(*func, *shift, *quotient),
    ensures
        is_hessian(*func, *shift, *quotient, eps, zero, x0@, hess@),
{
    let n: usize = x0.len();
    let mut xx: Vec<T> = Vec::new();
    let mut z: usize = 0;
    while z < n
        invariant
            z <= n,
            xx@.len() == z,
            forall|j: int| 0 <= j < z ==> #[trigger] xx@[j] == zero,
        decreases n - z,
    {
        xx.push(zero);
        z = z + 1;
    }
    assert(xx@ =~= unperturbed(x0@.len(), zero));
    let f1 = approx_fprime(&xx, func, eps, shift, quotient);
    let mut hess: Vec<Vec<T>> = Vec::new();
    let mut i: usize = 0;
    while i < n
        invariant
            i <= n,
            n == x0@.len(),
            total(*func, *shift, *quotient),
            is_gradient(*func, *shift, *quotient, eps, unperturbed(x0@.len(), zero), f1@),
            xx@.len() == n,
            forall|j: int| 0 <= j < n ==> #[trigger] xx@[j] == zero,
            hess@.len() == i,
            forall|c: int|
                0 <= c < i ==> is_column(
                    *func,
                    *shift,
                    *quotient,
                    eps,
                    zero,
                    c,
                    f1@,
                    (#[trigger] hess@[c])@,
                ),
        decreases n - i,
    {
        let temp = xx[i];
        let probe = shift(temp, eps);
        xx.set(i, probe);
        let f2 = approx_fprime(&xx, func, eps, shift, quotient);
        let mut delta: Vec<T> = Vec::new();
        let mut r: usize = 0;
        while r < n
            invariant
                r <= n,
                i < n,
                total(*func, *shift, *quotient),
                f1@.len() == n,
                xx@.len() == n,
                shift.ensures((zero, eps), probe),
                forall|j: int| 0 <= j < n ==> #[trigger] xx@[j] == if j == i { probe } else { zero },
                is_gradient(*func, *shift, *quotient, eps, xx@, f2@),
                delta@.len() == r,
                forall|q: int|
                    0 <= q < r ==> hessian_entry(
                        *func,
                        *shift,
                        *quotient,
                        eps,
                        zero,
                        q == i,
                        f1@[q],
                        #[trigger] delta@[q],
                    ),
            decreases n - r,
        {
            let d = quotient(f2[r], f1[r], eps);
            proof {
                let at = r as int;
                assert(xx@[at] == if at == i { probe } else { zero });
                assert(forward_difference(*func, *shift, *quotient, eps, xx@[at], f2@[at]));
                assert(shift.ensures((zero, eps), probe) && quotient.ensures((f2@[at], f1@[at], eps), d));
            }
            delta.push(d);
            r = r + 1;
        }
        hess.push(delta);
        xx.set(i, temp);
        i = i + 1;
    }
    hess
}

} // verus!
