//! Native-side supervisor of a local backend service, and a vault that keeps
//! per-provider API credentials in the operating system's secret store.
use vstd::prelude::*;

pub mod codec;
pub mod readiness;
pub mod supervisor;
pub mod vault;

verus! {

/// The text of each string of a list.
pub open spec fn texts(v: Seq<String>) -> Seq<Seq<char>> {
    v.map_values(|s: String| s@)
}

} // verus!
