//! Argument filling for the fixed-convention platform entry points.
use crate::request::{check_spectrum_request, spectrum_checks, Failure, SpectrumRequest};
use vstd::prelude::*;

verus! {

/// Sample rate, in Hz, assumed by the platform spectrum entry point, whose
/// calling convention carries none.
pub const HOST_DEFAULT_SAMPLE_RATE: i32 = 44100;

/// Validates a spectrum call made through the platform convention: the
/// sample rate is the host default and the legacy window selector is
/// accepted and ignored.
pub fn host_spectrum_request(buffer_is_null: bool, buffer_length: i32, fft_size: i32, _window_type: i32) -> (r:
    Result<SpectrumRequest, Failure>)
    ensures
        r == spectrum_checks(buffer_is_null, buffer_length, HOST_DEFAULT_SAMPLE_RATE, fft_size),
{
    check_spectrum_request(buffer_is_null, buffer_length, HOST_DEFAULT_SAMPLE_RATE, fft_size)
}

} // verus!
