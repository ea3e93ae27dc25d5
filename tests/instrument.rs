use drum_synth::instrument::{
    sample_params, voice_for, InstrumentType, SynthError, TimbreParams, Voice, DECAY_RATE,
    DRIVE_MAX, DRIVE_MIN, FREQUENCY_MAX, FREQUENCY_MIN,
};

#[test]
fn sampled_params_stay_in_range_and_reach_bounds() {
    let mut seen_freq = [false; 301];
    let mut seen_drive = [false; 8];
    for _ in 0..40000 {
        let p = sample_params();
        assert!(FREQUENCY_MIN <= p.frequency && p.frequency <= FREQUENCY_MAX);
        assert!(DRIVE_MIN <= p.drive && p.drive <= DRIVE_MAX);
        seen_freq[p.frequency as usize] = true;
        seen_drive[p.drive as usize] = true;
    }
    assert!(seen_freq[60]);
    assert!(seen_freq[300]);
    assert!(seen_drive[1]);
    assert!(seen_drive[7]);
}

#[test]
fn params_ranges_are_closed() {
    assert_eq!(FREQUENCY_MIN, 60);
    assert_eq!(FREQUENCY_MAX, 300);
    assert_eq!(DRIVE_MIN, 1);
    assert_eq!(DRIVE_MAX, 7);
    assert_eq!(
        TimbreParams::new(60, 1),
        Some(TimbreParams { frequency: 60, drive: 1 })
    );
    assert_eq!(
        TimbreParams::new(300, 7),
        Some(TimbreParams { frequency: 300, drive: 7 })
    );
    assert_eq!(TimbreParams::new(59, 3), None);
    assert_eq!(TimbreParams::new(301, 3), None);
    assert_eq!(TimbreParams::new(150, 0), None);
    assert_eq!(TimbreParams::new(150, 8), None);
}

#[test]
fn kick_and_snare_have_generators() {
    for inst in [InstrumentType::Kick, InstrumentType::Snare] {
        let v = voice_for(inst).unwrap();
        assert_eq!(v.instrument, inst);
        assert!(60 <= v.params.frequency && v.params.frequency <= 300);
        assert!(1 <= v.params.drive && v.params.drive <= 7);
        assert_eq!(v.decay, 20);
    }
}

#[test]
fn other_instruments_are_refused() {
    for inst in [
        InstrumentType::Hihat,
        InstrumentType::Rimshot,
        InstrumentType::Clap,
        InstrumentType::Tambourine,
    ] {
        assert_eq!(voice_for(inst), Err(SynthError::UnsupportedInstrument));
    }
}

#[test]
fn kick_voice_with_chosen_params() {
    let params = TimbreParams::new(150, 3).unwrap();
    let v = Voice::with_params(InstrumentType::Kick, params).unwrap();
    assert_eq!(v.instrument, InstrumentType::Kick);
    assert_eq!(v.params.frequency, 150);
    assert_eq!(v.params.drive, 3);
    assert_eq!(v.decay, 20);
    assert_eq!(DECAY_RATE, 20);
}

#[test]
fn chosen_params_for_unsupported_instrument() {
    let params = TimbreParams::new(200, 5).unwrap();
    assert_eq!(
        Voice::with_params(InstrumentType::Hihat, params),
        Err(SynthError::UnsupportedInstrument)
    );
    let snare = Voice::with_params(InstrumentType::Snare, params).unwrap();
    assert_eq!(snare.params, params);
}
