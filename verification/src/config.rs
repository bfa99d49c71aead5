//! The worker-count rule: an explicit request wins; otherwise one worker
//! per detected CPU, and never fewer than one.

use vstd::prelude::*;

verus! {

/// Relies on num_cpus::get: the number of available CPUs of the current
/// system, documented to be at least 1.
#[verifier::external_body]
fn detected_cpus() -> (r: usize)
    ensures
        r >= 1,
{
    num_cpus::get()
}

/// The number of worker threads to run: `requested` when positive, else the
/// detected CPU count, and at least one in every case.
pub fn worker_threads(requested: usize) -> (r: usize)
    ensures
        requested > 0 ==> r == requested,
        r >= 1,
{
    if requested > 0 {
        requested
    } else {
        let cpus = detected_cpus();
        if cpus > 0 {
            cpus
        } else {
            1
        }
    }
}

} // verus!
