//! Structural side of the compressed sparse-row (CSR) matrix format.
//!
//! A CSR matrix of dimension `n` with `nnz` stored entries is described by
//! three parallel arrays: the stored values, their column indices, and a
//! row-pointer array of length `n + 1` whose entry `i` gives the start of
//! row `i`'s slice of the other two arrays. Only the two index arrays
//! carry the structure; this module validates them, looks up row ranges,
//! and locates each row's diagonal entry.

use vstd::prelude::*;

verus! {

/// Why a CSR index structure was rejected by [`validate_csr`].
#[derive(Clone, Copy, Debug, PartialEq, Eq, Structural)]
pub enum CsrError {
    /// The column-index array does not have one entry per stored value.
    LengthMismatch,
    /// The row-pointer array does not have length `n + 1`.
    RowPtrLength,
    /// The first row pointer is not zero.
    BadRowStart,
    /// Some row pointer exceeds the one after it.
    NonMonotonicRowPtr,
    /// The last row pointer does not equal the number of stored values.
    BadTotal,
    /// Some stored entry lies in a column at or beyond the dimension.
    ColumnOutOfRange,
}

/// The row-pointer array describes `n` rows over `nnz` stored entries:
/// length `n + 1`, starting at 0, non-decreasing, ending at `nnz`.
pub open spec fn row_ptr_wf(rptr: Seq<u32>, n: int, nnz: int) -> bool {
    &&& rptr.len() == n + 1
    &&& rptr[0] == 0
    &&& forall|i: int| 0 <= i < n ==> #[trigger] rptr[i] <= rptr[i + 1]
    &&& rptr[n] as int == nnz
}

/// Every stored entry lies in a column strictly below the dimension `n`.
pub open spec fn cols_wf(cols: Seq<u32>, n: int) -> bool {
    forall|j: int| 0 <= j < cols.len() ==> (#[trigger] cols[j] as int) < n
}

/// The full CSR structural invariant over the two index arrays.
pub open spec fn csr_wf(cols: Seq<u32>, rptr: Seq<u32>, n: int, nnz: int) -> bool {
    &&& cols.len() == nnz
    &&& row_ptr_wf(rptr, n, nnz)
    &&& cols_wf(cols, n)
}

/// A non-decreasing row-pointer array is monotone across any span,
/// so in particular every row pointer is at most `rptr[n] == nnz`.
pub proof fn lemma_row_ptr_monotonic(rptr: Seq<u32>, n: int, nnz: int, i: int, j: int)
    requires
        row_ptr_wf(rptr, n, nnz),
        0 <= i <= j <= n,
    ensures
        rptr[i] <= rptr[j],
    decreases j - i,
{
    if i < j {
        lemma_row_ptr_monotonic(rptr, n, nnz, i, j - 1);
    }
}

/// The outcome [`validate_csr`] owes, with the checks in their fixed
/// order: the first violated condition names the error.
pub open spec fn csr_check(cols: Seq<u32>, rptr: Seq<u32>, n: int, nnz: int) -> Result<(), CsrError> {
    if cols.len() != nnz {
        Err(CsrError::LengthMismatch)
    } else if rptr.len() != n + 1 {
        Err(CsrError::RowPtrLength)
    } else if rptr[0] != 0 {
        Err(CsrError::BadRowStart)
    } else if exists|i: int| 0 <= i < n && #[trigger] rptr[i] > rptr[i + 1] {
        Err(CsrError::NonMonotonicRowPtr)
    } else if rptr[n] as int != nnz {
        Err(CsrError::BadTotal)
    } else if exists|j: int| 0 <= j < cols.len() && (#[trigger] cols[j] as int) >= n {
        Err(CsrError::ColumnOutOfRange)
    } else {
        Ok(())
    }
}

/// Check the CSR structural invariant for dimension `n` and `nnz` stored
/// values, reporting the first violation in check order. Succeeds exactly
/// on well-formed structures.
#[verifier::loop_isolation(false)]
pub fn validate_csr(col_indices: &Vec<u32>, row_ptr: &Vec<u32>, n: usize, nnz: usize) -> (r: Result<(), CsrError>)
    ensures
        r == csr_check(col_indices@, row_ptr@, n as int, nnz as int),
        r is Ok <==> csr_wf(col_indices@, row_ptr@, n as int, nnz as int),
{
    if col_indices.len() != nnz {
        return Err(CsrError::LengthMismatch);
    }
    if !(row_ptr.len() >= 1 && row_ptr.len() - 1 == n) {
        return Err(CsrError::RowPtrLength);
    }
    if row_ptr[0] != 0 {
        return Err(CsrError::BadRowStart);
    }
    let mut i: usize = 0;
    while i < n
        invariant
            i <= n,
            row_ptr@.len() == n + 1,
            forall|k: int| 0 <= k < i ==> #[trigger] row_ptr@[k] <= row_ptr@[k + 1],
        decreases n - i,
    {
        if row_ptr[i] > row_ptr[i + 1] {
            assert(0 <= i < n && row_ptr@[i as int] > row_ptr@[i as int + 1]);
            return Err(CsrError::NonMonotonicRowPtr);
        }
        i = i + 1;
    }
    if row_ptr[n] as usize != nnz {
        return Err(CsrError::BadTotal);
    }
    let mut j: usize = 0;
    while j < col_indices.len()
        invariant
            j <= col_indices@.len(),
            forall|k: int| 0 <= k < j ==> (#[trigger] col_indices@[k] as int) < n,
        decreases col_indices.len() - j,
    {
        if col_indices[j] as usize >= n {
            assert(0 <= j < col_indices@.len() && (col_indices@[j as int] as int) >= n);
            return Err(CsrError::ColumnOutOfRange);
        }
        j = j + 1;
    }
    Ok(())
}

/// Look up the slice of the value and column arrays that belongs to row
/// `i`: entries `r.0 .. r.1`, both within the stored-entry count.
pub fn row_range(row_ptr: &Vec<u32>, n: usize, nnz: usize, i: usize) -> (r: (usize, usize))
    requires
        row_ptr_wf(row_ptr@, n as int, nnz as int),
        i < n,
    ensures
        r.0 as int == row_ptr@[i as int] as int,
        r.1 as int == row_ptr@[i as int + 1] as int,
        r.0 <= r.1 <= nnz,
{
    proof {
        lemma_row_ptr_monotonic(row_ptr@, n as int, nnz as int, i as int, i as int + 1);
        lemma_row_ptr_monotonic(row_ptr@, n as int, nnz as int, i as int + 1, n as int);
    }
    let start: usize = row_ptr[i] as usize;
    let end: usize = row_ptr[i + 1] as usize;
    (start, end)
}

/// `r` locates row `i`'s diagonal entry: the first index in row `i`'s
/// slice whose column is `i`, or nothing when the row stores none.
pub open spec fn is_diag_position(cols: Seq<u32>, rptr: Seq<u32>, i: int, r: Option<usize>) -> bool {
    match r {
        Some(j) => {
            &&& rptr[i] as int <= j as int
            &&& (j as int) < rptr[i + 1] as int
            &&& cols[j as int] as int == i
            &&& forall|k: int| rptr[i] as int <= k < j as int ==> (#[trigger] cols[k] as int) != i
        },
        None => forall|k: int| rptr[i] as int <= k < rptr[i + 1] as int ==> (#[trigger] cols[k] as int) != i,
    }
}

/// Scan row `i` for its diagonal entry, returning the position of the
/// first stored entry whose column is `i`, if any. The Jacobi
/// preconditioner reads the matrix value there.
#[verifier::loop_isolation(false)]
pub fn diagonal_position(col_indices: &Vec<u32>, row_ptr: &Vec<u32>, n: usize, i: usize) -> (r: Option<usize>)
    requires
        csr_wf(col_indices@, row_ptr@, n as int, col_indices@.len() as int),
        i < n,
    ensures
        is_diag_position(col_indices@, row_ptr@, i as int, r),
{
    let (start, end) = row_range(row_ptr, n, col_indices.len(), i);
    let mut j: usize = start;
    while j < end
        invariant
            start <= j <= end,
            forall|k: int| start as int <= k < j as int ==> (#[trigger] col_indices@[k] as int) != i,
        decreases end - j,
    {
        if col_indices[j] as usize == i {
            return Some(j);
        }
        j = j + 1;
    }
    None
}

/// Locate the diagonal entry of every row in one pass: entry `i` of the
/// result is what [`diagonal_position`] returns for row `i`.
#[verifier::loop_isolation(false)]
pub fn diagonal_positions(col_indices: &Vec<u32>, row_ptr: &Vec<u32>, n: usize) -> (d: Vec<Option<usize>>)
    requires
        csr_wf(col_indices@, row_ptr@, n as int, col_indices@.len() as int),
    ensures
        d@.len() == n,
        forall|i: int| 0 <= i < n ==> is_diag_position(col_indices@, row_ptr@, i, #[trigger] d@[i]),
{
    let mut d: Vec<Option<usize>> = Vec::new();
    let mut i: usize = 0;
    while i < n
        invariant
            i <= n,
            d@.len() == i,
            forall|k: int| 0 <= k < i as int ==> is_diag_position(col_indices@, row_ptr@, k, #[trigger] d@[k]),
        decreases n - i,
    {
        let p = diagonal_position(col_indices, row_ptr, n, i);
        d.push(p);
        i = i + 1;
    }
    d
}

} // verus!
