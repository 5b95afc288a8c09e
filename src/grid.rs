//! The spatial grid: M intervals over [0, L] give M + 1 points, of which the
//! two ends are fixed at zero amplitude and the M − 1 others are interior.

use vstd::prelude::*;

verus! {

/// The ways a run can fail.
#[derive(Debug, Clone, Copy, PartialEq, Eq, Structural)]
pub enum SimError {
    /// A parameter is outside its allowed range.
    InvalidParameter,
    /// The implicit side of the scheme could not be inverted.
    NumericalError,
}

/// Accepts a number of intervals when it leaves at least one interior point
/// and its full grid (one point more) can be indexed.
pub fn check_intervals(m: usize) -> (r: Result<(), SimError>)
    ensures
        r is Ok <==> 2 <= m < usize::MAX,
        r is Err ==> r == Err::<(), SimError>(SimError::InvalidParameter),
{
    if m >= 2 && m < usize::MAX {
        Ok(())
    } else {
        Err(SimError::InvalidParameter)
    }
}

/// The number of interior points of a grid of `m` intervals.
pub fn interior_count(m: usize) -> (n: usize)
    requires
        m >= 2,
    ensures
        n == m - 1,
        n >= 1,
{
    m - 1
}

/// Samples the full grid of `m + 1` points: each interior point `j` holds
/// what `sample` gives for `j`, and both ends hold `zero`.
pub fn sample_grid<T: Copy, F: Fn(usize) -> T>(m: usize, sample: F, zero: T) -> (r: Vec<T>)
    requires
        2 <= m < usize::MAX,
        forall|j: usize| 0 < j < m ==> sample.requires((j,)),
    ensures
        r.len() == m + 1,
        r[0] == zero,
        r[m as int] == zero,
        forall|j: usize| 0 < j < m ==> sample.ensures((j,), #[trigger] r[j as int]),
{
    let mut r: Vec<T> = Vec::new();
    r.push(zero);
    let mut j: usize = 1;
    while j < m
        invariant
            1 <= j <= m,
            r.len() == j,
            r[0] == zero,
            forall|i: usize| 0 < i < m ==> sample.requires((i,)),
            forall|i: usize| 0 < i < j ==> sample.ensures((i,), #[trigger] r[i as int]),
        decreases m - j,
    {
        let v = sample(j);
        r.push(v);
        j = j + 1;
    }
    r.push(zero);
    r
}

/// The interior of a full grid: every point but the first and the last.
pub fn interior<T: Copy>(full: &Vec<T>) -> (r: Vec<T>)
    requires
        full.len() >= 2,
    ensures
        r@ == full@.subrange(1, full.len() - 1),
{
    let mut r: Vec<T> = Vec::new();
    let end: usize = full.len() - 1;
    let mut j: usize = 1;
    while j < end
        invariant
            1 <= j <= end,
            end == full.len() - 1,
            r@ == full@.subrange(1, j as int),
        decreases end - j,
    {
        r.push(full[j]);
        assert(r@ =~= full@.subrange(1, j + 1));
        j = j + 1;
    }
    r
}

} // verus!
