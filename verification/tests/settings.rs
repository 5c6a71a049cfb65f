use playback_engine::settings::{effective_settings, flat_gains, Settings};

#[test]
fn missing_record_gives_all_defaults() {
    let r = effective_settings(None);
    assert!(!r.dark_mode);
    assert_eq!(r.last_folder, None);
    assert_eq!(r.gains_cdb, vec![0; 10]);
}

#[test]
fn loaded_record_is_taken_over() {
    let r = effective_settings(Some(Settings {
        dark_mode: true,
        last_folder: Some(String::from("/music")),
        eq_gains_cdb: Some(vec![600, -300, 0, 0, 0, 0, 0, 0, 0, 1200]),
    }));
    assert!(r.dark_mode);
    assert_eq!(r.last_folder, Some(String::from("/music")));
    assert_eq!(r.gains_cdb, vec![600, -300, 0, 0, 0, 0, 0, 0, 0, 1200]);
}

#[test]
fn missing_gains_default_to_flat() {
    let r = effective_settings(Some(Settings {
        dark_mode: true,
        last_folder: None,
        eq_gains_cdb: None,
    }));
    assert_eq!(r.gains_cdb, vec![0; 10]);
}

#[test]
fn malformed_gain_vector_is_discarded() {
    let r = effective_settings(Some(Settings {
        dark_mode: false,
        last_folder: None,
        eq_gains_cdb: Some(vec![600, -300]),
    }));
    assert_eq!(r.gains_cdb, vec![0; 10]);
}

#[test]
fn flat_gains_is_one_zero_per_band() {
    assert_eq!(flat_gains(), vec![0; 10]);
}
