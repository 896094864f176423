//! The length protocol of spectrum buffers whose ownership passes to the
//! host: how long a result must be, and what a release call reclaims.
use crate::request::{Failure, SpectrumRequest};
use vstd::prelude::*;

verus! {

/// Number of magnitudes in the spectrum of a transform of `fft_size` samples.
pub open spec fn spectrum_len(fft_size: nat) -> nat {
    fft_size / 2 + 1
}

impl SpectrumRequest {
    /// Number of magnitudes the host receives, and must later hand back to
    /// release the buffer.
    pub fn result_len(&self) -> (r: usize)
        ensures
            r == spectrum_len(self.fft_size as nat),
    {
        self.fft_size / 2 + 1
    }
}

/// Decides whether a computed magnitude sequence of `produced_len` values
/// may be handed to the host for `request`: only one of exactly the length
/// the host will release with. Otherwise the computation counts as failed.
pub fn accept_magnitudes(request: &SpectrumRequest, produced_len: usize) -> (r: Result<
    usize,
    Failure,
>)
    ensures
        r == (if produced_len == spectrum_len(request.fft_size as nat) {
            Ok::<usize, Failure>(produced_len)
        } else {
            Err::<usize, Failure>(Failure::ComputationFailed)
        }),
{
    if produced_len == request.result_len() {
        Ok(produced_len)
    } else {
        Err(Failure::ComputationFailed)
    }
}

/// What a release call does with the buffer it is given.
#[derive(Clone, Copy, Debug, PartialEq, Eq, Structural)]
pub enum ReleasePlan {
    /// Null buffer: nothing to do, and no error.
    Ignore,
    /// Non-positive length: the region cannot be sized, so it is left alone
    /// and the offending length reported.
    Refuse(i32),
    /// Reclaim exactly this many elements as one allocation.
    Reclaim(usize),
}

/// The plan for a release call on a buffer given as present or null, with
/// its declared length.
pub open spec fn release_plan(buffer_is_null: bool, length: i32) -> ReleasePlan {
    if buffer_is_null {
        ReleasePlan::Ignore
    } else if length <= 0 {
        ReleasePlan::Refuse(length)
    } else {
        ReleasePlan::Reclaim(length as usize)
    }
}

/// Decides what a release call does.
pub fn plan_release(buffer_is_null: bool, length: i32) -> (r: ReleasePlan)
    ensures
        r == release_plan(buffer_is_null, length),
{
    if buffer_is_null {
        ReleasePlan::Ignore
    } else if length <= 0 {
        ReleasePlan::Refuse(length)
    } else {
        ReleasePlan::Reclaim(length as usize)
    }
}

} // verus!
