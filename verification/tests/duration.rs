use playback_engine::duration::{duration_us_from_frames, DurationResolver};

#[test]
fn frames_over_rate_is_exact() {
    // 441000 frames at 44100 Hz are exactly ten seconds
    assert_eq!(duration_us_from_frames(441_000, 44_100), Some(10_000_000));
    assert_eq!(duration_us_from_frames(0, 44_100), Some(0));
    // rounding is downward: 1 frame at 3 Hz
    assert_eq!(duration_us_from_frames(1, 3), Some(333_333));
}

#[test]
fn zero_sample_rate_has_no_duration() {
    assert_eq!(duration_us_from_frames(441_000, 0), None);
}

#[test]
fn overlong_duration_is_unknown() {
    // u64::MAX frames at 1 Hz exceeds the representable range
    assert_eq!(duration_us_from_frames(u64::MAX, 1), None);
}

#[test]
fn native_duration_wins_first() {
    let mut r = DurationResolver::new();
    r.offer_native(Some(123_456_789));
    assert_eq!(r.result(), Some(123_456_789));
}

#[test]
fn probe_parameters_give_exact_duration() {
    // no native duration, but the probed track exposes frame count and
    // sample rate: the resolver returns frames / sample_rate exactly
    let mut r = DurationResolver::new();
    r.offer_native(None);
    r.offer_probe(1, Some(44_100), Some(441_000));
    assert_eq!(r.result(), Some(10_000_000));
}

#[test]
fn probe_failure_means_unknown() {
    let mut r = DurationResolver::new();
    r.offer_native(None);
    r.probe_failed();
    assert_eq!(r.result(), None);
}

#[test]
fn full_decode_counts_frames() {
    // neither tier one nor tier two: a full decode sums the frames of
    // the selected track's packets
    let mut r = DurationResolver::new();
    r.offer_native(None);
    r.offer_probe(7, Some(48_000), None);
    r.record_packet(7, 24_000, 48_000);
    r.record_packet(7, 24_000, 48_000);
    r.finish_decode();
    assert_eq!(r.result(), Some(1_000_000));
}

#[test]
fn packets_of_other_tracks_are_ignored() {
    let mut r = DurationResolver::new();
    r.offer_native(None);
    r.offer_probe(7, Some(48_000), None);
    r.record_packet(3, 480_000, 48_000);
    r.record_packet(7, 48_000, 48_000);
    r.finish_decode();
    assert_eq!(r.result(), Some(1_000_000));
}

#[test]
fn sample_rate_comes_from_first_packet_when_unprobed() {
    // the probe knew no sample rate; the first decoded packet's rate is
    // kept, later rates are not
    let mut r = DurationResolver::new();
    r.offer_native(None);
    r.offer_probe(1, None, None);
    r.record_packet(1, 22_050, 22_050);
    r.record_packet(1, 22_050, 44_100);
    r.finish_decode();
    assert_eq!(r.result(), Some(2_000_000));
}

#[test]
fn zero_decoded_frames_mean_unknown() {
    let mut r = DurationResolver::new();
    r.offer_native(None);
    r.offer_probe(1, Some(44_100), None);
    r.finish_decode();
    assert_eq!(r.result(), None);
}

#[test]
fn decoder_failure_means_unknown() {
    let mut r = DurationResolver::new();
    r.offer_native(None);
    r.offer_probe(1, Some(44_100), None);
    r.decoder_unavailable();
    assert_eq!(r.result(), None);
}

#[test]
fn probe_with_zero_rate_falls_through_to_decode() {
    // a degenerate probed rate of zero is not usable for tier two; the
    // decode tier then observes the real rate
    let mut r = DurationResolver::new();
    r.offer_native(None);
    r.offer_probe(1, Some(0), Some(441_000));
    r.record_packet(1, 44_100, 44_100);
    r.finish_decode();
    // the probe's zero rate was seeded into the tally and is unusable
    assert_eq!(r.result(), None);
}
