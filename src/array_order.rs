//! Order transforms applied to calibration arrays on the wire.

use vstd::prelude::*;

verus! {

/// The sequence `s` read back to front.
pub open spec fn reversed<T>(s: Seq<T>) -> Seq<T> {
    Seq::new(s.len(), |i: int| s[s.len() - 1 - i])
}

/// A matrix with its rows in reverse order and each row read back to front.
pub open spec fn reversed_rows<T>(m: Seq<Seq<T>>) -> Seq<Seq<T>> {
    reversed(m).map_values(|row: Seq<T>| reversed(row))
}

/// The plain view of a matrix: one sequence per row.
pub open spec fn matrix_view<T, const N: usize, const M: usize>(m: [[T; N]; M]) -> Seq<Seq<T>> {
    m@.map_values(|row: [T; N]| row@)
}

/// Reverses `arr` in place.
pub fn reverse_mut<T: Copy, const N: usize>(arr: &mut [T; N])
    ensures
        final(arr)@ == reversed(old(arr)@),
{
    let ghost orig = arr@;
    let half: usize = N / 2;
    let mut idx: usize = 0;
    while idx < half
        invariant
            half == N / 2,
            idx <= half,
            arr@.len() == N,
            orig.len() == N,
            forall|k: int| 0 <= k < idx ==> arr@[k] == orig[N - 1 - k],
            forall|k: int| 0 <= k < idx ==> arr@[N - 1 - k] == orig[k],
            forall|k: int| idx <= k < N - idx ==> arr@[k] == orig[k],
        decreases half - idx,
    {
        let other: usize = N - 1 - idx;
        let a = arr[idx];
        let b = arr[other];
        arr[idx] = b;
        arr[other] = a;
        idx = idx + 1;
    }
    assert(arr@ =~= reversed(orig));
}

/// Returns `arr` with its elements in reverse order.
pub fn reverse<T: Copy, const N: usize>(arr: [T; N]) -> (r: [T; N])
    ensures
        r@ == reversed(arr@),
{
    let mut out = arr;
    reverse_mut(&mut out);
    out
}

/// Returns `arr` with its rows in reverse order and each row reversed.
pub fn reverse_nested<T: Copy, const N: usize, const M: usize>(arr: [[T; N]; M]) -> (r: [[T; N]; M])
    ensures
        matrix_view(r) == reversed_rows(matrix_view(arr)),
{
    let mut out = arr;
    reverse_mut(&mut out);
    let ghost flipped = out@;
    let mut i: usize = 0;
    while i < M
        invariant
            i <= M,
            out@.len() == M,
            flipped == reversed(arr@),
            forall|k: int| 0 <= k < i ==> out@[k]@ == reversed(flipped[k]@),
            forall|k: int| i <= k < M ==> out@[k] == flipped[k],
        decreases M - i,
    {
        let mut row = out[i];
        reverse_mut(&mut row);
        out[i] = row;
        i = i + 1;
    }
    assert(matrix_view(out) =~= reversed_rows(matrix_view(arr)));
    out
}

} // verus!
