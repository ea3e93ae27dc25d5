use drum_synth::generate;
use drum_synth::instrument::{InstrumentType, DECAY_RATE};

#[test]
fn it_works() {
    let result = 2 + 2;
    generate();
    assert_eq!(result, 4);
}

#[test]
fn generate_gives_a_snare_in_range() {
    for _ in 0..200 {
        let v = generate();
        assert_eq!(v.instrument, InstrumentType::Snare);
        assert!(60 <= v.params.frequency && v.params.frequency <= 300);
        assert!(1 <= v.params.drive && v.params.drive <= 7);
        assert_eq!(v.decay, DECAY_RATE);
    }
}
