use loqa_dsp_bridge::request::{check_pitch_request, check_spectrum_request};
use loqa_dsp_bridge::transfer::accept_magnitudes;
use std::f32::consts::PI;

fn sine(frequency: f32, sample_rate: u32, num_samples: usize) -> Vec<f32> {
    (0..num_samples)
        .map(|i| (2.0 * PI * frequency * (i as f32 / sample_rate as f32)).sin())
        .collect()
}

fn spectrum(samples: &[f32], sample_rate: i32, fft_size: i32) -> Vec<f32> {
    let request = check_spectrum_request(false, samples.len() as i32, sample_rate, fft_size).unwrap();
    let result = loqa_voice_dsp::compute_fft(&samples[..request.length], request.sample_rate, request.fft_size)
        .unwrap();
    let len = accept_magnitudes(&request, result.magnitudes.len()).unwrap();
    assert_eq!(len, request.result_len());
    result.magnitudes
}

fn pitch(samples: &[f32], sample_rate: i32) -> loqa_voice_dsp::PitchResult {
    let request = check_pitch_request(false, samples.len() as i32, sample_rate).unwrap();
    loqa_voice_dsp::detect_pitch(
        &samples[..request.length],
        request.sample_rate,
        request.min_frequency_hz as f32,
        request.max_frequency_hz as f32,
    )
    .unwrap()
}

#[test]
fn test_compute_fft_valid_input_returns_non_null() {
    let samples = sine(440.0, 44100, 4410);
    let magnitudes = spectrum(&samples, 44100, 2048);
    assert_eq!(magnitudes.len(), 1025);
}

#[test]
fn test_compute_fft_result_length() {
    let samples = vec![0.5_f32; 2048];
    let magnitudes = spectrum(&samples, 44100, 1024);
    assert_eq!(magnitudes.len(), 513);
    for val in &magnitudes {
        assert!(val.is_finite(), "FFT result should be finite");
    }
}

#[test]
fn test_compute_fft_sine_wave_peak_detection() {
    let sample_rate = 44100;
    let fft_size = 4096;
    let target_frequency = 1000.0_f32;
    let samples = sine(target_frequency, sample_rate as u32, fft_size as usize);
    let magnitudes = spectrum(&samples, sample_rate, fft_size);
    assert_eq!(magnitudes.len(), 2049);

    let mut max_magnitude = 0.0_f32;
    let mut max_index = 0;
    for (i, &mag) in magnitudes.iter().enumerate() {
        if mag > max_magnitude {
            max_magnitude = mag;
            max_index = i;
        }
    }
    let resolution = sample_rate as f32 / fft_size as f32;
    let peak_frequency = max_index as f32 * resolution;
    assert!((peak_frequency - target_frequency).abs() < resolution * 1.5);
}

#[test]
fn test_detect_pitch_sine_wave_220hz() {
    let samples = sine(220.0, 44100, 4410);
    let result = pitch(&samples, 44100);
    if result.is_voiced {
        let error_percent = (result.frequency - 220.0).abs() / 220.0 * 100.0;
        assert!(error_percent < 10.0);
        assert!(result.confidence > 0.5);
    }
}

#[test]
fn test_detect_pitch_silence_returns_unvoiced() {
    let samples = vec![0.0_f32; 2048];
    for rate in [8000, 44100, 48000] {
        let result = pitch(&samples, rate);
        assert!(!result.is_voiced, "Silence should be classified as unvoiced");
    }
}
