use sharkmon::reading::{PowerEwma, RawSample};

fn sample(watts: f32, volts: f32, frequency: f32) -> RawSample {
    RawSample {
        watts_bits: watts.to_bits(),
        volts_bits: volts.to_bits(),
        frequency_bits: frequency.to_bits(),
    }
}

fn blend(history: RawSample, incoming: RawSample) -> RawSample {
    let ewma = |a: f32, b: f32| a * 0.8 + b * 0.2;
    sample(
        ewma(f32::from_bits(history.watts_bits), f32::from_bits(incoming.watts_bits)),
        ewma(f32::from_bits(history.volts_bits), f32::from_bits(incoming.volts_bits)),
        ewma(
            f32::from_bits(history.frequency_bits),
            f32::from_bits(incoming.frequency_bits),
        ),
    )
}

#[test]
fn fresh_reading_has_no_sample_and_neutral_channels() {
    let r = PowerEwma::new();
    assert!(!r.initialized);
    assert_eq!(f32::from_bits(r.watts_bits), 0.0);
    assert_eq!(f32::from_bits(r.volts_bits), 0.0);
    assert_eq!(f32::from_bits(r.frequency_bits), 0.0);
    assert_eq!(PowerEwma::default(), r);
}

#[test]
fn first_sample_is_seeded_exactly() {
    let mut r = PowerEwma::new();
    let s = sample(100.0, 240.0, 60.0);
    let b = blend(r.channels_sample(), s);
    r.update_with(s, b);
    assert!(r.initialized);
    assert_eq!(f32::from_bits(r.watts_bits), 100.0);
    assert_eq!(f32::from_bits(r.volts_bits), 240.0);
    assert_eq!(f32::from_bits(r.frequency_bits), 60.0);
}

#[test]
fn second_sample_is_smoothed_with_fixed_factor() {
    let mut r = PowerEwma::new();
    let first = sample(100.0, 240.0, 60.0);
    r.update_with(first, first);
    let incoming = sample(200.0, 240.0, 60.0);
    let b = blend(r.channels_sample(), incoming);
    r.update_with(incoming, b);
    // 100.0 * 0.8 + 200.0 * 0.2 is exactly representable.
    assert_eq!(f32::from_bits(r.watts_bits), 120.0);
    assert_eq!(f32::from_bits(r.volts_bits), 240.0);
    assert_eq!(f32::from_bits(r.frequency_bits), 60.0);
    assert!(r.initialized);
}

#[test]
fn fault_reset_zeroes_channels_but_keeps_flag() {
    let mut r = PowerEwma::new();
    let s = sample(100.0, 240.0, 60.0);
    r.update_with(s, s);
    assert!(r.initialized);
    r.reset();
    assert!(r.initialized);
    assert_eq!(f32::from_bits(r.watts_bits), 0.0);
    assert_eq!(f32::from_bits(r.volts_bits), 0.0);
    assert_eq!(f32::from_bits(r.frequency_bits), 0.0);
}

#[test]
fn fault_reset_is_indistinguishable_from_zero_seed() {
    // One reading faults after a real sample; another seeds with a genuine
    // all-zero sample. By flag and channels they must look the same.
    let mut faulted = PowerEwma::new();
    let s = sample(100.0, 240.0, 60.0);
    faulted.update_with(s, s);
    faulted.reset();

    let mut zero_seeded = PowerEwma::new();
    let z = sample(0.0, 0.0, 0.0);
    zero_seeded.update_with(z, z);

    assert_eq!(faulted, zero_seeded);
}

#[test]
fn reset_before_first_sample_keeps_flag_false() {
    let mut r = PowerEwma::new();
    r.reset();
    assert!(!r.initialized);
    assert_eq!(f32::from_bits(r.watts_bits), 0.0);
}
