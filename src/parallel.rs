//! Data-parallel maps over an index range.
use vstd::prelude::*;
use rayon::iter::{IntoParallelIterator, ParallelIterator};

verus! {

/// Relies on rayon: `(0..n).into_par_iter().map(f).collect::<Vec<_>>()` calls `f`
/// once per index and collects the results in index order.
#[verifier::external_body]
pub(crate) fn par_map_range<T: Send, G: Fn(usize) -> T + Sync + Send>(n: usize, f: G) -> (r: Vec<T>)
    requires
        forall|i: usize| i < n ==> f.requires((i,)),
    ensures
        r@.len() == n,
        forall|i: int| 0 <= i < n ==> f.ensures((i as usize,), #[trigger] r@[i]),
{
    (0..n).into_par_iter().map(f).collect()
}

/// Relies on rayon: collecting `(0..n).into_par_iter().map(f)` into an
/// `Option<Vec<_>>` gives `Some` only where every call gave `Some`, with the
/// values in index order.
#[verifier::external_body]
pub(crate) fn par_try_map_range<T: Send, G: Fn(usize) -> Option<T> + Sync + Send>(
    n: usize,
    f: G,
) -> (r: Option<Vec<T>>)
    requires
        forall|i: usize| i < n ==> f.requires((i,)),
    ensures
        r matches Some(v) ==> v@.len() == n && forall|i: int|
            0 <= i < n ==> f.ensures((i as usize,), Some(#[trigger] v@[i])),
{
    (0..n).into_par_iter().map(f).collect()
}

} // verus!
