use ucanduit::error::ScanError;
use ucanduit::model::{DirEntry, Listed, PathKind, RootListed, Subdirectory};
use ucanduit::scan::{
    audio_file_of, check_directory_exists, collect_audio_files, count_audio_files,
    scan_audio_directory,
};
use ucanduit::summary::{audio_root, scan_audio_directories, summarize};

fn file(name: &str, size: Option<u64>) -> Listed {
    Listed::Entry(DirEntry {
        name: Some(name.to_string()),
        path: format!("/music/{}", name),
        is_file: true,
        size,
    })
}

fn folder(name: &str) -> Listed {
    Listed::Entry(DirEntry {
        name: Some(name.to_string()),
        path: format!("/music/{}", name),
        is_file: false,
        size: Some(4096),
    })
}

#[test]
fn mixed_directory_keeps_the_audio_files_only() {
    let listing = vec![file("song.MP3", Some(500)), file("cover.png", Some(77)), file("track.flac", Some(10))];
    let result = scan_audio_directory("./music".to_string(), "/music", PathKind::Directory, Ok(listing))
        .unwrap();
    assert_eq!(result.count(), 2);
    assert_eq!(result.directory(), "./music");
    let files = result.files();
    assert_eq!(files.len(), 2);
    assert_eq!(files[0].name, "song.MP3");
    assert_eq!(files[0].extension, "mp3");
    assert_eq!(files[0].size, 500);
    assert_eq!(files[0].path, "/music/song.MP3");
    assert_eq!(files[1].name, "track.flac");
    assert_eq!(files[1].extension, "flac");
    assert_eq!(files[1].size, 10);
    assert_eq!(files[1].path, "/music/track.flac");
    assert!(files.iter().all(|f| f.name != "cover.png"));
}

#[test]
fn every_supported_extension_is_included_in_any_casing() {
    let names = [
        "a.mp3", "b.MP3", "c.Wav", "d.oGG", "e.M4a", "f.AAC", "g.Flac", "h.WMA", "i.wma",
    ];
    let expected = ["mp3", "mp3", "wav", "ogg", "m4a", "aac", "flac", "wma", "wma"];
    let listing: Vec<Listed> = names.iter().map(|n| file(n, Some(1))).collect();
    let result = scan_audio_directory("d".to_string(), "d", PathKind::Directory, Ok(listing)).unwrap();
    assert_eq!(result.count(), names.len());
    for (i, f) in result.files().iter().enumerate() {
        assert_eq!(f.name, names[i]);
        assert_eq!(f.extension, expected[i]);
    }
}

#[test]
fn unsupported_extensions_are_excluded() {
    let listing = vec![
        file("a.png", Some(1)),
        file("b.txt", Some(1)),
        file("c.mp4", Some(1)),
        file("d", Some(1)),
        file(".mp3", Some(1)),
        file("e.mp3.part", Some(1)),
        file("f.", Some(1)),
    ];
    let result = scan_audio_directory("d".to_string(), "d", PathKind::Directory, Ok(listing)).unwrap();
    assert_eq!(result.count(), 0);
    assert!(result.files().is_empty());
}

#[test]
fn count_equals_number_of_files() {
    for n in 0..5usize {
        let mut listing = Vec::new();
        for i in 0..n {
            listing.push(file(&format!("t{}.ogg", i), Some(i as u64)));
            listing.push(file(&format!("t{}.jpg", i), Some(i as u64)));
        }
        let result =
            scan_audio_directory("d".to_string(), "d", PathKind::Directory, Ok(listing)).unwrap();
        assert_eq!(result.count(), n);
        assert_eq!(result.count(), result.files().len());
    }
}

#[test]
fn missing_path_is_directory_not_found() {
    let r = scan_audio_directory("./audio".to_string(), "/opt/app/audio", PathKind::Missing, Ok(vec![]));
    match r {
        Err(ScanError::DirectoryNotFound { requested, resolved }) => {
            assert_eq!(requested, "./audio");
            assert_eq!(resolved, "/opt/app/audio");
        }
        other => panic!("unexpected: {:?}", other),
    }
}

#[test]
fn file_path_is_not_a_directory() {
    let r = scan_audio_directory(
        "notes.txt".to_string(),
        "notes.txt",
        PathKind::NotDirectory,
        Err("not a directory".to_string()),
    );
    match r {
        Err(ScanError::NotADirectory { requested, resolved }) => {
            assert_eq!(requested, "notes.txt");
            assert_eq!(resolved, "notes.txt");
        }
        other => panic!("unexpected: {:?}", other),
    }
}

#[test]
fn unlistable_directory_is_read_failure() {
    let r = scan_audio_directory(
        "locked".to_string(),
        "locked",
        PathKind::Directory,
        Err("Permission denied (os error 13)".to_string()),
    );
    match r {
        Err(ScanError::DirectoryReadFailed { reason }) => {
            assert_eq!(reason, "Permission denied (os error 13)");
        }
        other => panic!("unexpected: {:?}", other),
    }
}

#[test]
fn error_messages_name_request_and_resolved_path() {
    let e = ScanError::DirectoryNotFound { requested: "./audio".to_string(), resolved: "/x/audio".to_string() };
    assert_eq!(e.message(), "Directory does not exist: ./audio (resolved to: /x/audio)");
    let e = ScanError::NotADirectory { requested: "f".to_string(), resolved: "/x/f".to_string() };
    assert_eq!(e.message(), "Path is not a directory: f (resolved to: /x/f)");
    let e = ScanError::DirectoryReadFailed { reason: "denied".to_string() };
    assert_eq!(e.message(), "Failed to read directory: denied");
    assert_eq!(ScanError::RootNotFound.message(), "public/audio directory does not exist");
    let e = ScanError::RootReadFailed { reason: "denied".to_string() };
    assert_eq!(e.message(), "Failed to read audio dir: denied");
}

#[test]
fn unreadable_metadata_gives_size_zero() {
    let listing = vec![file("a.mp3", None), file("b.mp3", Some(9))];
    let files = collect_audio_files(&listing);
    assert_eq!(files.len(), 2);
    assert_eq!(files[0].size, 0);
    assert_eq!(files[1].size, 9);
}

#[test]
fn unreadable_records_and_directories_are_passed_over() {
    let nameless = Listed::Entry(DirEntry {
        name: None,
        path: "/music/\u{fffd}.mp3".to_string(),
        is_file: true,
        size: Some(3),
    });
    let listing = vec![
        Listed::Unreadable,
        folder("album.mp3"),
        file("one.wav", Some(1)),
        Listed::Unreadable,
        nameless,
        file("two.m4a", Some(2)),
    ];
    let files = collect_audio_files(&listing);
    assert_eq!(files.len(), 2);
    assert_eq!(files[0].name, "one.wav");
    assert_eq!(files[1].name, "two.m4a");
    assert_eq!(count_audio_files(&listing), 2);
}

#[test]
fn listing_order_is_kept() {
    let listing = vec![file("z.mp3", Some(1)), file("a.mp3", Some(2)), file("m.mp3", Some(3))];
    let files = collect_audio_files(&listing);
    let names: Vec<&str> = files.iter().map(|f| f.name.as_str()).collect();
    assert_eq!(names, vec!["z.mp3", "a.mp3", "m.mp3"]);
}

#[test]
fn empty_directory_gives_empty_result() {
    let result =
        scan_audio_directory("e".to_string(), "/e", PathKind::Directory, Ok(Vec::new())).unwrap();
    assert_eq!(result.count(), 0);
    assert!(result.files().is_empty());
    assert_eq!(result.directory(), "e");
}

#[test]
fn single_record_conversion() {
    assert!(audio_file_of(&Listed::Unreadable).is_none());
    assert!(audio_file_of(&folder("x.mp3")).is_none());
    assert!(audio_file_of(&file("x.doc", Some(1))).is_none());
    let f = audio_file_of(&file("x.AAC", Some(12))).unwrap();
    assert_eq!(f.name, "x.AAC");
    assert_eq!(f.path, "/music/x.AAC");
    assert_eq!(f.size, 12);
    assert_eq!(f.extension, "aac");
}

#[test]
fn only_a_directory_exists_as_directory() {
    assert!(check_directory_exists(PathKind::Directory));
    assert!(!check_directory_exists(PathKind::Missing));
    assert!(!check_directory_exists(PathKind::NotDirectory));
}

fn sub(name: Option<&str>, display: &str, entries: Option<Vec<Listed>>) -> RootListed {
    RootListed::Directory(Subdirectory {
        name: name.map(|n| n.to_string()),
        display_name: display.to_string(),
        entries,
    })
}

#[test]
fn summary_counts_direct_audio_files_and_omits_empty_directories() {
    let listing = vec![
        sub(Some("rain"), "rain", Some(vec![file("a.mp3", Some(1)), file("b.OGG", None), file("c.txt", Some(1))])),
        RootListed::Other,
        sub(Some("empty"), "empty", Some(vec![file("readme.md", Some(1)), folder("nested.mp3")])),
        RootListed::Unreadable,
        sub(Some("locked"), "locked", None),
        sub(None, "caf\u{fffd}", Some(vec![file("x.wma", Some(1))])),
    ];
    let dirs = scan_audio_directories(true, Ok(listing)).unwrap();
    assert_eq!(dirs.len(), 2);
    assert_eq!(dirs[0].name, "rain");
    assert_eq!(dirs[0].path, "/audio/rain");
    assert_eq!(dirs[0].file_count, 2);
    assert_eq!(dirs[1].name, "unknown");
    assert_eq!(dirs[1].path, "/audio/caf\u{fffd}");
    assert_eq!(dirs[1].file_count, 1);
}

#[test]
fn summary_of_a_missing_root_is_root_not_found() {
    let r = scan_audio_directories(false, Ok(Vec::new()));
    assert!(matches!(r, Err(ScanError::RootNotFound)));
    let r = scan_audio_directories(false, Err("gone".to_string()));
    assert!(matches!(r, Err(ScanError::RootNotFound)));
}

#[test]
fn summary_of_an_unlistable_root_is_read_failure() {
    match scan_audio_directories(true, Err("denied".to_string())) {
        Err(ScanError::RootReadFailed { reason }) => assert_eq!(reason, "denied"),
        other => panic!("unexpected: {:?}", other),
    }
}

#[test]
fn summarize_single_records() {
    assert!(summarize(&RootListed::Other).is_none());
    assert!(summarize(&RootListed::Unreadable).is_none());
    assert!(summarize(&sub(Some("a"), "a", Some(Vec::new()))).is_none());
    let d = summarize(&sub(Some("a"), "a", Some(vec![file("x.flac", None)]))).unwrap();
    assert_eq!(d.name, "a");
    assert_eq!(d.path, "/audio/a");
    assert_eq!(d.file_count, 1);
}

#[test]
fn audio_root_is_public_audio_below_the_project_root() {
    assert_eq!(audio_root("/home/u/project"), "/home/u/project/public/audio");
    assert_eq!(audio_root("/"), "/public/audio");
}
