use audio_shader_core::filter_bank::MelFilterBank;
use audio_shader_core::mel_utils::{hz_to_mel, mel_to_hz, linspace};

fn bits(x: f32) -> u32 {
    x.to_bits()
}

fn val(b: u32) -> f32 {
    f32::from_bits(b)
}

fn bits_vec(xs: &[f32]) -> Vec<u32> {
    xs.iter().map(|x| x.to_bits()).collect()
}

fn val_vec(bs: &[u32]) -> Vec<f32> {
    bs.iter().map(|b| f32::from_bits(*b)).collect()
}

#[test]
fn test_hz_to_mel() {
    let mel = val(hz_to_mel(bits(1000.0)));
    assert!(mel > 0.0);
    // Specific value test
    assert!((mel - 1000.0).abs() < 1.0);
}

#[test]
fn test_mel_to_hz() {
    let hz = val(mel_to_hz(bits(1000.0)));
    assert!(hz > 0.0);
}

#[test]
fn test_linspace() {
    let values = linspace(bits(0.0), bits(10.0), 11);
    assert_eq!(values.len(), 11);
    assert_eq!(val(values[0]), 0.0);
    assert_eq!(val(values[10]), 10.0);
}

#[test]
fn test_mel_filter_bank() {
    let fft_size = 512;
    let sample_rate = bits(16000.0);
    let n_mels = 10;
    let f_min = bits(0.0);
    let f_max = bits(8000.0);
    let filterbank = MelFilterBank::new(fft_size, sample_rate, n_mels, f_min, f_max);

    // Create a dummy FFT magnitude vector with an impulse at a specific bin
    let mut fft_magnitudes = vec![bits(0.0); fft_size / 2 + 1];
    fft_magnitudes[10] = bits(1.0);

    let mel_output = filterbank.apply(&fft_magnitudes);
    let sum: f32 = val_vec(&mel_output).iter().sum();
    // Expect some non-zero output if the impulse falls within one of the filter triangles
    assert!(sum > 0.0);
}

#[test]
fn test_log_compression() {
    let values = bits_vec(&[0.1, 1.0, 10.0]);
    let log_values = MelFilterBank::apply_log_compression(&values, bits(1e-10));

    // Log values should be in a different range
    assert!(val(log_values[0]) < 0.0); // log10 of 0.1 should be negative
    assert!(val(log_values[2]) > val(log_values[1])); // ordering should be preserved
}

#[test]
fn mel_round_trip_is_close() {
    for &x in &[20.0f32, 100.0, 440.0, 1000.0, 4000.0, 12000.0] {
        let y = val(mel_to_hz(hz_to_mel(bits(x))));
        assert!(
            (y - x).abs() <= 0.005 * x,
            "round trip of {} gave {}",
            x,
            y
        );
    }
}

#[test]
fn hz_to_mel_of_zero_is_zero() {
    assert_eq!(val(hz_to_mel(bits(0.0))), 0.0);
}

#[test]
fn mel_to_hz_of_zero_is_zero() {
    assert_eq!(val(mel_to_hz(bits(0.0))), 0.0);
}

#[test]
fn linspace_empty_and_single() {
    assert!(linspace(bits(3.0), bits(9.0), 0).is_empty());
    let single = linspace(bits(3.0), bits(9.0), 1);
    assert_eq!(val_vec(&single), vec![3.0]);
}

#[test]
fn linspace_interior_points_are_evenly_spaced() {
    let values = linspace(bits(0.0), bits(10.0), 11);
    for (i, &b) in values.iter().enumerate() {
        assert_eq!(val(b), i as f32);
    }
}

#[test]
fn log_compression_of_one_is_zero() {
    let out = MelFilterBank::apply_log_compression(&[bits(1.0)], bits(0.0));
    assert_eq!(val(out[0]), 0.0);
}

#[test]
fn log_compression_matches_reference_values() {
    let out = MelFilterBank::apply_log_compression(&bits_vec(&[0.1, 100.0]), bits(0.0));
    assert!((val(out[0]) - (-10.0)).abs() < 1e-3);
    assert!((val(out[1]) - 20.0).abs() < 1e-3);
}

#[test]
fn normalize_empty_stays_empty() {
    assert!(MelFilterBank::normalize(&[]).is_empty());
}

#[test]
fn normalize_flat_signal_is_one_half() {
    let out = MelFilterBank::normalize(&bits_vec(&[5.0, 5.0, 5.0]));
    assert_eq!(val_vec(&out), vec![0.5, 0.5, 0.5]);
}

#[test]
fn normalize_scales_to_unit_interval() {
    let out = MelFilterBank::normalize(&bits_vec(&[1.0, 2.0, 3.0]));
    assert_eq!(val_vec(&out), vec![0.0, 0.5, 1.0]);
}

#[test]
fn filter_bank_rows_have_spectrum_width() {
    let bank = MelFilterBank::new(512, bits(16000.0), 10, bits(0.0), bits(8000.0));
    let flat = vec![bits(1.0); 512 / 2 + 1];
    let out = bank.apply(&flat);
    assert_eq!(out.len(), 10);
    // A flat spectrum must excite every band of a full-range bank.
    for &b in &out {
        assert!(val(b) > 0.0);
    }
}

#[test]
fn filter_bank_ignores_out_of_range_impulse() {
    // Bank covering only up to 800 Hz: an impulse far above it excites nothing.
    let bank = MelFilterBank::new(512, bits(16000.0), 8, bits(0.0), bits(800.0));
    let mut mags = vec![bits(0.0); 512 / 2 + 1];
    mags[200] = bits(1.0);
    let out = bank.apply(&mags);
    for &b in &out {
        assert_eq!(val(b), 0.0);
    }
}
