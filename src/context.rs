//! Choosing the device and queue family that back the process-wide context.
use vstd::prelude::*;

verus! {

/// Whether device `d` has a compute-capable queue family, where `caps[d][q]`
/// tells whether queue family `q` of physical device `d` supports compute.
pub open spec fn has_compute(caps: Seq<Vec<bool>>, d: int) -> bool {
    exists|q: int| 0 <= q < caps[d]@.len() && caps[d]@[q]
}

/// Picks the first physical device that has a compute-capable queue family,
/// and the first such family of it. `None` when no device has one.
pub fn select_compute_queue(caps: &Vec<Vec<bool>>) -> (r: Option<(usize, usize)>)
    ensures
        r is None <==> forall|d: int| 0 <= d < caps@.len() ==> !#[trigger] has_compute(caps@, d),
        r matches Some((d, q)) ==> {
            &&& d < caps@.len()
            &&& q < caps@[d as int]@.len()
            &&& caps@[d as int]@[q as int]
            &&& forall|e: int| 0 <= e < d ==> !#[trigger] has_compute(caps@, e)
            &&& forall|f: int| 0 <= f < q ==> !#[trigger] caps@[d as int]@[f]
        },
{
    let mut d: usize = 0;
    while d < caps.len()
        invariant
            d <= caps@.len(),
            forall|e: int| 0 <= e < d ==> !#[trigger] has_compute(caps@, e),
        decreases caps.len() - d,
    {
        let families = &caps[d];
        let mut q: usize = 0;
        while q < families.len()
            invariant
                d < caps@.len(),
                q <= families@.len(),
                *families == caps@[d as int],
                forall|e: int| 0 <= e < d ==> !#[trigger] has_compute(caps@, e),
                forall|f: int| 0 <= f < q ==> !#[trigger] caps@[d as int]@[f],
            decreases families.len() - q,
        {
            if families[q] {
                assert(caps@[d as int]@[q as int]);
                assert(has_compute(caps@, d as int));
                return Some((d, q));
            }
            q = q + 1;
        }
        d = d + 1;
    }
    None
}

} // verus!
