//! Layout of the two Crank–Nicolson matrices. Both are tridiagonal over the
//! interior points: row `i` holds its own diagonal value, the same constant
//! coupling to the rows `i − 1` and `i + 1` where those exist, and zero
//! everywhere else.

use vstd::prelude::*;

verus! {

/// Entry `(i, j)` of the tridiagonal matrix with diagonal `diag`, constant
/// off-diagonal `off` and `zero` elsewhere.
pub open spec fn band_entry<T>(diag: Seq<T>, off: T, zero: T, i: int, j: int) -> T {
    if i == j {
        diag[i]
    } else if i == j + 1 || j == i + 1 {
        off
    } else {
        zero
    }
}

/// Assembles the dense rows of the `n × n` tridiagonal matrix whose diagonal is
/// `diag` and whose two neighbouring diagonals are `off`. The first and the
/// last row have one neighbour each.
pub fn tridiagonal<T: Copy>(diag: &Vec<T>, off: T, zero: T) -> (r: Vec<Vec<T>>)
    ensures
        r.len() == diag.len(),
        forall|i: int| 0 <= i < r.len() ==> (#[trigger] r[i]).len() == diag.len(),
        forall|i: int, j: int|
            0 <= i < diag.len() && 0 <= j < diag.len() ==> (#[trigger] r[i][j]) == band_entry(
                diag@,
                off,
                zero,
                i,
                j,
            ),
{
    let n: usize = diag.len();
    let mut r: Vec<Vec<T>> = Vec::new();
    let mut i: usize = 0;
    while i < n
        invariant
            0 <= i <= n,
            n == diag.len(),
            r.len() == i,
            forall|a: int| 0 <= a < i ==> (#[trigger] r[a]).len() == n,
            forall|a: int, b: int|
                0 <= a < i && 0 <= b < n ==> (#[trigger] r[a][b]) == band_entry(
                    diag@,
                    off,
                    zero,
                    a,
                    b,
                ),
        decreases n - i,
    {
        let mut row: Vec<T> = Vec::new();
        let mut j: usize = 0;
        while j < n
            invariant
                0 <= i < n,
                0 <= j <= n,
                n == diag.len(),
                row.len() == j,
                forall|b: int| 0 <= b < j ==> (#[trigger] row[b]) == band_entry(
                    diag@,
                    off,
                    zero,
                    i as int,
                    b,
                ),
            decreases n - j,
        {
            if j == i {
                row.push(diag[i]);
            } else if i == j + 1 || j == i + 1 {
                row.push(off);
            } else {
                row.push(zero);
            }
            j = j + 1;
        }
        r.push(row);
        i = i + 1;
    }
    r
}

} // verus!
