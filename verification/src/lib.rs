//! Orchestration core for a vehicle-tuning tool: a catalog of communication
//! links, platform definitions, a download/identify/persist pipeline, a
//! diagnostic-scan pipeline, a tune workflow, and the command dispatcher that
//! drives them. Wire protocols, file encodings and the host environment are
//! collaborators outside this crate; the core sees them as values and is
//! verified against exact contracts over those values.
use vstd::prelude::*;

pub mod app;
pub mod cli;
pub mod diagnostics;
pub mod error;
pub mod link;
pub mod platform;
pub mod rom;

verus! {

/// Copies a vector of plain values.
pub(crate) fn copy_vec<T: Copy>(v: &Vec<T>) -> (r: Vec<T>)
    ensures
        r@ == v@,
{
    let mut out: Vec<T> = Vec::new();
    let mut i: usize = 0;
    while i < v.len()
        invariant
            0 <= i <= v.len(),
            out@ =~= v@.take(i as int),
        decreases v.len() - i,
    {
        out.push(v[i]);
        proof {
            assert(out@ =~= v@.take(i + 1 as int));
        }
        i += 1;
    }
    proof {
        assert(v@.take(v@.len() as int) =~= v@);
    }
    out
}

} // verus!
