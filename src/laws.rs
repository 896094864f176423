//! Laws of the boundary, stated over the specifications that the checks and
//! the transfer protocol meet.
use crate::request::{
    pitch_checks, spectrum_checks, SpectrumRequest, MAX_FFT_SIZE, MAX_PITCH_SAMPLE_RATE, MIN_FFT_SIZE,
    MIN_PITCH_SAMPLE_RATE,
};
use crate::transfer::{release_plan, spectrum_len, ReleasePlan};
use vstd::arithmetic::power2::is_pow2;
use vstd::prelude::*;

verus! {

/// A transform size that is not a power of two never yields a spectrum,
/// whatever the other arguments are.
pub proof fn lemma_non_power_of_two_rejected(buffer_is_null: bool, length: i32, sample_rate: i32, fft_size: i32)
    requires
        !is_pow2(fft_size as int),
    ensures
        spectrum_checks(buffer_is_null, length, sample_rate, fft_size) is Err,
{
}

/// A transform size outside `[MIN_FFT_SIZE, MAX_FFT_SIZE]` never yields a
/// spectrum, whatever the other arguments are.
pub proof fn lemma_out_of_range_size_rejected(buffer_is_null: bool, length: i32, sample_rate: i32, fft_size: i32)
    requires
        fft_size < MIN_FFT_SIZE || fft_size > MAX_FFT_SIZE,
    ensures
        spectrum_checks(buffer_is_null, length, sample_rate, fft_size) is Err,
{
}

/// A sample rate outside `[MIN_PITCH_SAMPLE_RATE, MAX_PITCH_SAMPLE_RATE]`
/// never reaches pitch detection, whatever the other arguments are.
pub proof fn lemma_out_of_band_rate_rejected(buffer_is_null: bool, length: i32, sample_rate: i32)
    requires
        sample_rate < MIN_PITCH_SAMPLE_RATE || sample_rate > MAX_PITCH_SAMPLE_RATE,
    ensures
        pitch_checks(buffer_is_null, length, sample_rate) is Err,
{
}

/// A zero or negative buffer length is rejected by both computations,
/// whatever the other arguments are.
pub proof fn lemma_non_positive_length_rejected(buffer_is_null: bool, length: i32, sample_rate: i32, fft_size: i32)
    requires
        length <= 0,
    ensures
        spectrum_checks(buffer_is_null, length, sample_rate, fft_size) is Err,
        pitch_checks(buffer_is_null, length, sample_rate) is Err,
{
}

/// Releasing a null buffer does nothing, whatever length comes with it.
pub proof fn lemma_null_release_ignored(length: i32)
    ensures
        release_plan(true, length) == ReleasePlan::Ignore,
{
}

/// The length of every accepted spectrum fits the host's integer, and
/// releasing the buffer with that length reclaims exactly that many
/// elements: each allocate/release cycle frees what it allocated.
pub proof fn lemma_release_reclaims_spectrum(request: SpectrumRequest)
    requires
        request.wf(),
    ensures
        1 <= spectrum_len(request.fft_size as nat) <= i32::MAX,
        release_plan(false, spectrum_len(request.fft_size as nat) as i32) == ReleasePlan::Reclaim(
            spectrum_len(request.fft_size as nat) as usize,
        ),
{
}

} // verus!
