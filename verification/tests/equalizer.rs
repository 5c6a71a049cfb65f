use playback_engine::equalizer::{band_frequency_hz, Equalizer, BAND_COUNT, GAIN_LIMIT_CDB};

#[test]
fn fresh_bank_is_flat_at_version_zero() {
    let eq = Equalizer::new();
    let (gains, version) = eq.snapshot_gains();
    assert_eq!(version, 0);
    assert_eq!(gains, vec![0; 10]);
}

#[test]
fn set_gains_overwrites_and_advances_counter() {
    let mut eq = Equalizer::new();
    eq.set_gains(&vec![600, 0, 0, 0, 0, 0, 0, 0, 0, 0]);
    let (gains, version) = eq.snapshot_gains();
    assert_eq!(version, 1);
    assert_eq!(gains[0], 600);
    assert_eq!(&gains[1..], &[0; 9]);
    eq.set_gains(&vec![0; 10]);
    assert_eq!(eq.version(), 2);
}

#[test]
fn gains_are_clamped_to_twelve_db() {
    let mut eq = Equalizer::new();
    eq.set_gains(&vec![5000, -5000, 1200, -1200, 1201, -1201, 0, 1, -1, 99]);
    let (gains, _) = eq.snapshot_gains();
    assert_eq!(gains, vec![1200, -1200, 1200, -1200, 1200, -1200, 0, 1, -1, 99]);
    assert_eq!(GAIN_LIMIT_CDB, 1200);
}

#[test]
fn snapshot_is_a_consistent_pair() {
    let mut eq = Equalizer::new();
    eq.set_gains(&vec![100; 10]);
    let (gains, version) = eq.snapshot_gains();
    // the vector seen belongs to the counter value seen
    assert_eq!(version, 1);
    assert!(gains.iter().all(|&g| g == 100));
    // reading does not disturb the bank
    let (again, v2) = eq.snapshot_gains();
    assert_eq!(again, gains);
    assert_eq!(v2, version);
}

#[test]
fn band_ladder_is_the_fixed_one() {
    let expected = [31, 62, 125, 250, 500, 1000, 2000, 4000, 8000, 16000];
    for band in 0..BAND_COUNT {
        assert_eq!(band_frequency_hz(band), expected[band]);
    }
}
