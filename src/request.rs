//! Checks that a host call must pass before any computation runs, and the
//! single classification of every recoverable failure.
use crate::power::is_power_of_two;
use vstd::arithmetic::power2::is_pow2;
use vstd::prelude::*;

verus! {

/// Smallest accepted transform size.
pub const MIN_FFT_SIZE: i32 = 256;

/// Largest accepted transform size.
pub const MAX_FFT_SIZE: i32 = 8192;

/// Lowest sample rate, in Hz, accepted for pitch detection.
pub const MIN_PITCH_SAMPLE_RATE: i32 = 8000;

/// Highest sample rate, in Hz, accepted for pitch detection.
pub const MAX_PITCH_SAMPLE_RATE: i32 = 48000;

/// Lower edge, in Hz, of the voice band searched for a pitch.
pub const VOICE_BAND_MIN_HZ: u32 = 80;

/// Upper edge, in Hz, of the voice band searched for a pitch.
pub const VOICE_BAND_MAX_HZ: u32 = 400;

/// Why a call was answered with its failure sentinel. Each variant that
/// comes from a parameter carries the offending value, for the diagnostic.
#[derive(Clone, Copy, Debug, PartialEq, Eq, Structural)]
pub enum Failure {
    NullBuffer,
    NonPositiveLength(i32),
    NonPositiveSampleRate(i32),
    FftSizeNotPowerOfTwo(i32),
    FftSizeOutOfRange(i32),
    SampleRateOutOfBand(i32),
    ComputationFailed,
}

/// A spectrum computation that passed every check, with its parameters in
/// the types the computation takes.
#[derive(Clone, Copy, Debug, PartialEq, Eq, Structural)]
pub struct SpectrumRequest {
    pub length: usize,
    pub sample_rate: u32,
    pub fft_size: usize,
}

impl SpectrumRequest {
    /// What every accepted spectrum request satisfies.
    pub open spec fn wf(&self) -> bool {
        &&& self.length > 0
        &&& self.sample_rate > 0
        &&& is_pow2(self.fft_size as int)
        &&& MIN_FFT_SIZE <= self.fft_size <= MAX_FFT_SIZE
    }
}

/// A pitch detection that passed every check, with the voice band to search.
#[derive(Clone, Copy, Debug, PartialEq, Eq, Structural)]
pub struct PitchRequest {
    pub length: usize,
    pub sample_rate: u32,
    pub min_frequency_hz: u32,
    pub max_frequency_hz: u32,
}

impl PitchRequest {
    /// What every accepted pitch request satisfies.
    pub open spec fn wf(&self) -> bool {
        &&& self.length > 0
        &&& MIN_PITCH_SAMPLE_RATE <= self.sample_rate <= MAX_PITCH_SAMPLE_RATE
        &&& self.min_frequency_hz == VOICE_BAND_MIN_HZ
        &&& self.max_frequency_hz == VOICE_BAND_MAX_HZ
    }
}

/// Outcome of the spectrum checks, taken in order: buffer present, length
/// positive, sample rate positive, size a positive power of two, size within
/// `[MIN_FFT_SIZE, MAX_FFT_SIZE]`. The first that fails names the failure.
pub open spec fn spectrum_checks(buffer_is_null: bool, length: i32, sample_rate: i32, fft_size: i32) -> Result<
    SpectrumRequest,
    Failure,
> {
    if buffer_is_null {
        Err(Failure::NullBuffer)
    } else if length <= 0 {
        Err(Failure::NonPositiveLength(length))
    } else if sample_rate <= 0 {
        Err(Failure::NonPositiveSampleRate(sample_rate))
    } else if !is_pow2(fft_size as int) {
        Err(Failure::FftSizeNotPowerOfTwo(fft_size))
    } else if fft_size < MIN_FFT_SIZE || fft_size > MAX_FFT_SIZE {
        Err(Failure::FftSizeOutOfRange(fft_size))
    } else {
        Ok(
            SpectrumRequest {
                length: length as usize,
                sample_rate: sample_rate as u32,
                fft_size: fft_size as usize,
            },
        )
    }
}

/// Outcome of the pitch checks, taken in order: buffer present, length
/// positive, sample rate within `[MIN_PITCH_SAMPLE_RATE, MAX_PITCH_SAMPLE_RATE]`.
pub open spec fn pitch_checks(buffer_is_null: bool, length: i32, sample_rate: i32) -> Result<
    PitchRequest,
    Failure,
> {
    if buffer_is_null {
        Err(Failure::NullBuffer)
    } else if length <= 0 {
        Err(Failure::NonPositiveLength(length))
    } else if sample_rate < MIN_PITCH_SAMPLE_RATE || sample_rate > MAX_PITCH_SAMPLE_RATE {
        Err(Failure::SampleRateOutOfBand(sample_rate))
    } else {
        Ok(
            PitchRequest {
                length: length as usize,
                sample_rate: sample_rate as u32,
                min_frequency_hz: VOICE_BAND_MIN_HZ,
                max_frequency_hz: VOICE_BAND_MAX_HZ,
            },
        )
    }
}

/// Validates a spectrum call: a buffer given as present or null, its sample
/// count, its sample rate and the transform size.
pub fn check_spectrum_request(buffer_is_null: bool, length: i32, sample_rate: i32, fft_size: i32) -> (r:
    Result<SpectrumRequest, Failure>)
    ensures
        r == spectrum_checks(buffer_is_null, length, sample_rate, fft_size),
        r is Ok ==> r->Ok_0.wf(),
{
    if buffer_is_null {
        return Err(Failure::NullBuffer);
    }
    if length <= 0 {
        return Err(Failure::NonPositiveLength(length));
    }
    if sample_rate <= 0 {
        return Err(Failure::NonPositiveSampleRate(sample_rate));
    }
    if fft_size <= 0 || !is_power_of_two(fft_size as u32) {
        proof {
            reveal(is_pow2);
        }
        return Err(Failure::FftSizeNotPowerOfTwo(fft_size));
    }
    if fft_size < MIN_FFT_SIZE || fft_size > MAX_FFT_SIZE {
        return Err(Failure::FftSizeOutOfRange(fft_size));
    }
    Ok(
        SpectrumRequest {
            length: length as usize,
            sample_rate: sample_rate as u32,
            fft_size: fft_size as usize,
        },
    )
}

/// Validates a pitch call: a buffer given as present or null, its sample
/// count and its sample rate. An accepted call searches the voice band.
pub fn check_pitch_request(buffer_is_null: bool, length: i32, sample_rate: i32) -> (r: Result<
    PitchRequest,
    Failure,
>)
    ensures
        r == pitch_checks(buffer_is_null, length, sample_rate),
        r is Ok ==> r->Ok_0.wf(),
{
    if buffer_is_null {
        return Err(Failure::NullBuffer);
    }
    if length <= 0 {
        return Err(Failure::NonPositiveLength(length));
    }
    if sample_rate < MIN_PITCH_SAMPLE_RATE || sample_rate > MAX_PITCH_SAMPLE_RATE {
        return Err(Failure::SampleRateOutOfBand(sample_rate));
    }
    Ok(
        PitchRequest {
            length: length as usize,
            sample_rate: sample_rate as u32,
            min_frequency_hz: VOICE_BAND_MIN_HZ,
            max_frequency_hz: VOICE_BAND_MAX_HZ,
        },
    )
}

} // verus!
