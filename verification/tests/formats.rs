use ucanduit::formats::{
    audio_extension, file_extension, get_supported_audio_formats, is_supported_extension,
};
use ucanduit::text::{joined, same_text, to_lower, to_lower_char};

#[test]
fn supported_formats_are_the_fixed_list_in_order() {
    let formats = get_supported_audio_formats();
    assert_eq!(formats, vec!["mp3", "wav", "ogg", "m4a", "aac", "flac", "wma"]);
}

#[test]
fn every_listed_format_is_supported() {
    for ext in get_supported_audio_formats() {
        assert!(is_supported_extension(&ext));
    }
}

#[test]
fn membership_is_exact_equality() {
    assert!(!is_supported_extension("mp"));
    assert!(!is_supported_extension("mp33"));
    assert!(!is_supported_extension("MP3"));
    assert!(!is_supported_extension(""));
    assert!(!is_supported_extension("png"));
    assert!(!is_supported_extension("flacc"));
}

#[test]
fn extension_is_what_follows_the_last_dot() {
    assert_eq!(file_extension("song.mp3"), Some("mp3".to_string()));
    assert_eq!(file_extension("a.b.FLAC"), Some("FLAC".to_string()));
    assert_eq!(file_extension("archive.tar.gz"), Some("gz".to_string()));
    assert_eq!(file_extension("trailing."), Some(String::new()));
}

#[test]
fn names_without_an_inner_dot_have_no_extension() {
    assert_eq!(file_extension("README"), None);
    assert_eq!(file_extension(""), None);
    assert_eq!(file_extension(".mp3"), None);
    assert_eq!(file_extension(".hidden"), None);
}

#[test]
fn hidden_file_with_extension_has_one() {
    assert_eq!(file_extension(".hidden.wav"), Some("wav".to_string()));
}

#[test]
fn extension_of_a_name_with_wide_characters() {
    assert_eq!(file_extension("пісня.ogg"), Some("ogg".to_string()));
    assert_eq!(file_extension("song.日本"), Some("日本".to_string()));
}

#[test]
fn lower_casing_changes_ascii_letters_only() {
    assert_eq!(to_lower("MP3"), "mp3");
    assert_eq!(to_lower("FlAc"), "flac");
    assert_eq!(to_lower("already"), "already");
    assert_eq!(to_lower("A-Z_09@[`{"), "a-z_09@[`{");
    assert_eq!(to_lower(""), "");
    assert_eq!(to_lower_char('A'), 'a');
    assert_eq!(to_lower_char('Z'), 'z');
    assert_eq!(to_lower_char('@'), '@');
    assert_eq!(to_lower_char('['), '[');
    assert_eq!(to_lower_char('é'), 'é');
}

#[test]
fn audio_extension_is_lower_case_for_every_casing() {
    let names = [
        ("a.mp3", "mp3"),
        ("a.MP3", "mp3"),
        ("a.Mp3", "mp3"),
        ("a.WAV", "wav"),
        ("a.wAv", "wav"),
        ("a.OGG", "ogg"),
        ("a.M4A", "m4a"),
        ("a.m4A", "m4a"),
        ("a.AAC", "aac"),
        ("a.FLAC", "flac"),
        ("a.fLaC", "flac"),
        ("a.WMA", "wma"),
        ("a.wma", "wma"),
    ];
    for (name, ext) in names {
        assert_eq!(audio_extension(name), Some(ext.to_string()));
    }
}

#[test]
fn audio_extension_refuses_other_extensions() {
    for name in ["cover.png", "notes.txt", "a.mp4", "a.mp3x", "a.", "noext", ".flac", "a.mp3.bak"] {
        assert_eq!(audio_extension(name), None);
    }
}

#[test]
fn same_text_compares_character_by_character() {
    assert!(same_text("abc", "abc"));
    assert!(same_text("", ""));
    assert!(!same_text("abc", "abd"));
    assert!(!same_text("abc", "ab"));
    assert!(!same_text("", "a"));
}

#[test]
fn joined_puts_the_second_behind_the_first() {
    assert_eq!(joined("/audio/", "rain"), "/audio/rain");
    assert_eq!(joined("", "x"), "x");
    assert_eq!(joined("x", ""), "x");
}
