//! Branch logic for trapezoidal-rule integration.
//!
//! The integrator proper sums floating-point samples and lives outside this
//! crate. Every decision it takes, however, is a function of plain values:
//! whether the sample lengths admit a defined result at all, and, for the
//! pairwise entry point, whether the abscissa spacing counts as uniform once
//! each interval has been compared against the first. Those decisions are
//! collected and verified here, so that the summation code outside only ever
//! performs arithmetic on a path this crate selected.

use vstd::prelude::*;

verus! {

/// Whether the pairwise entry point has a defined result for a sample set
/// with `ny` function values and `nx` abscissas: at least two samples, and
/// exactly one abscissa per value. On any other lengths the integrator
/// answers with its NaN sentinel instead of a number.
pub fn integral_defined(ny: usize, nx: usize) -> (r: bool)
    ensures
        r <==> (ny >= 2 && nx == ny),
{
    ny >= 2 && nx == ny
}

/// Whether the even-spacing entry point has a defined result for `n` sample
/// values and a spacing already compared against zero by the caller: at
/// least two samples, and a positive spacing. Otherwise the integrator
/// answers with its NaN sentinel. A spacing that is itself NaN compares as
/// not positive, and the sentinel is returned for it as well.
pub fn even_integral_defined(n: usize, dx_positive: bool) -> (r: bool)
    ensures
        r <==> (n >= 2 && dx_positive),
{
    n >= 2 && dx_positive
}

/// Path selection for the pairwise entry point. `deviates[i]` records
/// whether interval `i + 1` differs from the first interval by more than
/// the scaled tolerance; the caller fills one entry per interval after the
/// first. The spacing counts as uniform, and the optimized summation is
/// taken, exactly when no interval deviates. The scan stops at the first
/// deviating interval.
pub fn spacing_is_uniform(deviates: &Vec<bool>) -> (r: bool)
    ensures
        r <==> (forall|i: int| 0 <= i < deviates@.len() ==> !deviates@[i]),
{
    let n: usize = deviates.len();
    let mut k: usize = 0;
    while k < n
        invariant
            k <= n,
            n == deviates@.len(),
            forall|i: int| 0 <= i < k ==> !deviates@[i],
        decreases n - k,
    {
        if deviates[k] {
            return false;
        }
        k += 1;
    }
    true
}

} // verus!
