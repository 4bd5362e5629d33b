//! Data-parallel map over an index range.
//!
//! The solvers fan their sampling and per-slice meshing out over a worker
//! pool. Workers own disjoint outputs; the caller merges them serially.

use vstd::prelude::*;
use rayon::iter::IntoParallelIterator;
use rayon::iter::IndexedParallelIterator;
use rayon::iter::ParallelIterator;

verus! {

/// Applies `f` to every index in `0..n` and collects the results in index
/// order.
///
/// Relies on rayon: `0..n` is an indexed parallel iterator over exactly the
/// indices `0..n`; `ParallelIterator::map` applies `f` to each item; `collect`
/// into a `Vec` preserves the indexed order. Each element of the result is
/// therefore a return value of `f` on its own index.
#[verifier::external_body]
pub fn par_map<T: Send, F: Fn(usize) -> T + Sync + Send>(n: usize, f: F) -> (r: Vec<T>)
    requires
        forall|i: usize| i < n ==> call_requires(f, (i,)),
    ensures
        r.len() == n,
        forall|i: int| 0 <= i < n ==> call_ensures(f, (i as usize,), #[trigger] r[i]),
{
    (0..n).into_par_iter().map(|i| f(i)).collect()
}

} // verus!
