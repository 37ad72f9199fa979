use vstd::prelude::*;
use crate::patch::Patch;

verus! {

/// There was no patch to select: the catalog is empty.
#[derive(Debug, Clone, Copy, PartialEq, Eq, Structural)]
pub struct EmptyCatalogError;

/// Relies on rand's `random_range` over `0..n`: a value drawn uniformly
/// below `n`, using the thread-local generator. It panics on an empty
/// range, so `n` must be positive; nothing can be promised about which
/// value comes back.
#[verifier::external_body]
fn random_below(n: usize) -> (r: usize)
    requires
        0 < n,
    ensures
        r < n,
{
    rand::random_range(0..n)
}

/// Picks one patch from the catalog, uniformly at random, with no memory of
/// earlier picks. Fails exactly when the catalog is empty.
pub fn select_patch(catalog: &Vec<Patch>) -> (r: Result<&Patch, EmptyCatalogError>)
    ensures
        r is Ok <==> catalog@.len() > 0,
        r matches Ok(p) ==> exists|i: int| 0 <= i < catalog@.len() && *p == #[trigger] catalog@[i],
{
    if catalog.len() == 0 {
        Err(EmptyCatalogError)
    } else {
        let i: usize = random_below(catalog.len());
        let p: &Patch = &catalog[i];
        proof {
            assert(*p == catalog@[i as int]);
        }
        Ok(p)
    }
}

} // verus!
