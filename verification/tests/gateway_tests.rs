use sharkmon::gateway::Gateway;
use sharkmon::reading::RawSample;

fn sample(watts: f32, volts: f32, frequency: f32) -> RawSample {
    RawSample {
        watts_bits: watts.to_bits(),
        volts_bits: volts.to_bits(),
        frequency_bits: frequency.to_bits(),
    }
}

#[test]
fn fresh_gateway_reports_no_sample() {
    let gw = Gateway::new();
    let snap = gw.get_snapshot();
    assert!(!snap.initialized);
    assert_eq!(f32::from_bits(snap.watts_bits), 0.0);
    assert_eq!(f32::from_bits(snap.volts_bits), 0.0);
    assert_eq!(f32::from_bits(snap.frequency_bits), 0.0);
}

#[test]
fn recorded_seed_appears_whole_in_snapshot() {
    let gw = Gateway::new();
    let s = sample(100.0, 240.0, 60.0);
    // The blend argument plays no part in the seed: hand in a decoy.
    gw.record(s, sample(1.0, 2.0, 3.0));
    let snap = gw.get_snapshot();
    assert!(snap.initialized);
    assert_eq!(snap.channels_sample(), s);
}

#[test]
fn snapshots_never_mix_two_updates() {
    // The writer records a run of distinct triples; every snapshot taken
    // in between must equal one recorded triple whole, never a mix.
    let gw = Gateway::new();
    let triples = [
        sample(100.0, 240.0, 60.0),
        sample(150.0, 239.0, 59.9),
        sample(80.0, 241.0, 60.1),
        sample(0.0, 0.0, 0.0),
    ];
    for t in triples {
        // Hand the same triple as seed and as blend so the stored value
        // is `t` on both paths.
        gw.record(t, t);
        let snap = gw.get_snapshot();
        assert!(triples.contains(&snap.channels_sample()));
    }
}

#[test]
fn fault_reset_zeroes_but_keeps_flag_in_shared_state() {
    let gw = Gateway::new();
    let s = sample(100.0, 240.0, 60.0);
    gw.record(s, s);
    gw.fault_reset();
    let snap = gw.get_snapshot();
    assert!(snap.initialized);
    assert_eq!(snap.channels_sample(), sample(0.0, 0.0, 0.0));
}
