//! Boundary logic for a native audio-DSP layer: the checks a host call must
//! pass before any spectrum or pitch computation runs, the length protocol of
//! spectrum buffers handed to the host, and the argument filling of the
//! fixed-convention platform entry points.
use vstd::prelude::*;

pub mod laws;
pub mod power;
pub mod request;
pub mod shim;
pub mod transfer;

verus! {

/// Fixed value returned by the loadability probe.
pub const PROBE_VALUE: i32 = 42;

/// Probe that lets a host build check that the module loads and links.
pub fn test_ffi_bridge() -> (r: i32)
    ensures
        r == PROBE_VALUE,
{
    PROBE_VALUE
}

} // verus!
