use playback_engine::library::{
    compute_filtered_indices, current_index, folder_display, is_audio_extension,
};

fn names(list: &[&str]) -> Vec<String> {
    list.iter().map(|s| s.to_string()).collect()
}

#[test]
fn blank_query_keeps_every_entry() {
    let files = names(&["b.mp3", "a.flac", "c.wav"]);
    assert_eq!(compute_filtered_indices(&files, ""), vec![0, 1, 2]);
    // whitespace-only queries are blank too
    assert_eq!(compute_filtered_indices(&files, "   \t"), vec![0, 1, 2]);
}

#[test]
fn filter_is_a_case_insensitive_substring_match() {
    let files = names(&["Morning Song.mp3", "evening.flac", "SONGBIRD.wav", "quiet.ogg"]);
    assert_eq!(compute_filtered_indices(&files, "song"), vec![0, 2]);
    assert_eq!(compute_filtered_indices(&files, "SONG"), vec![0, 2]);
    assert_eq!(compute_filtered_indices(&files, "EVENING"), vec![1]);
    assert_eq!(compute_filtered_indices(&files, "nothing here"), Vec::<usize>::new());
}

#[test]
fn filter_keeps_ascending_order() {
    let files = names(&["x1", "y", "x2", "x3"]);
    assert_eq!(compute_filtered_indices(&files, "x"), vec![0, 2, 3]);
}

#[test]
fn current_index_prefers_the_open_path() {
    let paths = names(&["/m/a.mp3", "/m/b.mp3", "/m/c.mp3"]);
    let open = Some(String::from("/m/b.mp3"));
    assert_eq!(current_index(&paths, &open, Some(0)), Some(1));
}

#[test]
fn current_index_falls_back_to_selection() {
    let paths = names(&["/m/a.mp3", "/m/b.mp3"]);
    // nothing open: the selection stands
    assert_eq!(current_index(&paths, &None, Some(1)), Some(1));
    assert_eq!(current_index(&paths, &None, None), None);
    // the open path vanished from the list: the selection stands
    let gone = Some(String::from("/m/z.mp3"));
    assert_eq!(current_index(&paths, &gone, Some(0)), Some(0));
}

#[test]
fn current_index_returns_the_first_match() {
    let paths = names(&["/m/dup.mp3", "/m/other.mp3", "/m/dup.mp3"]);
    let open = Some(String::from("/m/dup.mp3"));
    assert_eq!(current_index(&paths, &open, None), Some(0));
}

#[test]
fn audio_extensions_match_without_regard_to_case() {
    for ext in ["mp3", "flac", "wav", "ogg", "opus", "aac", "m4a", "alac", "aiff", "aif"] {
        assert!(is_audio_extension(ext), "{ext}");
    }
    assert!(is_audio_extension("MP3"));
    assert!(is_audio_extension("FlAc"));
    assert!(is_audio_extension("AIFF"));
}

#[test]
fn non_audio_extensions_are_rejected() {
    for ext in ["txt", "mp4", "jpg", "", "mp33", "mp", "wavx"] {
        assert!(!is_audio_extension(ext), "{ext}");
    }
}

#[test]
fn folder_line_shows_path_or_placeholder() {
    assert_eq!(folder_display(&Some(String::from("/music"))), "/music");
    assert_eq!(folder_display(&None), "No folder selected");
}
