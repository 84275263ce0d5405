use igrok::discovery::{discover, DiscoveredFileSet, MAX_DISCOVERED};
use igrok::error::DiscoveryError;
use igrok::media::{is_recognized, path_has_extension, time_key, MediaFile, ScannedEntry};

fn file_entry(path: &str, modified: u64) -> ScannedEntry {
    ScannedEntry { path: path.to_string(), is_file: true, modified: Some(modified) }
}

fn paths_of(set: &DiscoveredFileSet) -> Vec<String> {
    let mut paths = Vec::new();
    for file in set.files() {
        paths.push(file.path.clone());
    }
    paths
}

#[test]
fn recognized_extensions_are_the_three_containers() {
    assert!(is_recognized("/music/song.mp3"));
    assert!(is_recognized("/music/song.m4a"));
    assert!(is_recognized("/music/song.opus"));
    assert!(is_recognized("song.mp3"));
    assert!(!is_recognized("/music/song.wav"));
    assert!(!is_recognized("/music/song.flac"));
    assert!(!is_recognized("/music/song.mp4"));
    assert!(!is_recognized("/music/song"));
    assert!(!is_recognized(""));
}

#[test]
fn extension_is_case_sensitive() {
    assert!(!is_recognized("/music/song.MP3"));
    assert!(!is_recognized("/music/song.Opus"));
}

#[test]
fn hidden_file_named_like_an_extension_has_none() {
    assert!(!is_recognized("/music/.mp3"));
    assert!(!is_recognized(".mp3"));
    assert!(!is_recognized("/music/.opus"));
    assert!(is_recognized("/music/..mp3"));
    assert!(is_recognized("/music/a.b.mp3"));
}

#[test]
fn extension_belongs_to_the_last_component() {
    assert!(!is_recognized("/music.mp3/song"));
    assert!(!is_recognized("/music/song.mp3/"));
    assert!(!is_recognized("/music/songmp3"));
    assert!(!is_recognized("mp3"));
}

#[test]
fn extension_test_works_on_any_text() {
    assert!(path_has_extension("a.txt", "txt"));
    assert!(!path_has_extension("a.txt", "xt"));
    assert!(!path_has_extension("a.txt", "a.txt"));
    assert!(path_has_extension("é.mp3", "mp3"));
    assert!(path_has_extension("/música/canción.opus", "opus"));
    assert!(!path_has_extension("a.", "txt"));
    assert!(path_has_extension("a.", ""));
}

#[test]
fn only_recognized_files_are_discovered() {
    let entries = vec![
        file_entry("/m/a.mp3", 10),
        file_entry("/m/notes.txt", 50),
        file_entry("/m/b.opus", 30),
        file_entry("/m/cover.jpg", 60),
        file_entry("/m/c.m4a", 20),
        file_entry("/m/d.webm", 70),
    ];
    let set = discover(&entries).ok().unwrap();
    assert_eq!(paths_of(&set), vec!["/m/b.opus", "/m/c.m4a", "/m/a.mp3"]);
    for file in set.files() {
        assert!(is_recognized(&file.path));
    }
}

#[test]
fn directories_and_other_non_files_are_skipped() {
    let entries = vec![
        ScannedEntry { path: "/m/album.mp3".to_string(), is_file: false, modified: Some(99) },
        file_entry("/m/a.mp3", 10),
    ];
    let set = discover(&entries).ok().unwrap();
    assert_eq!(paths_of(&set), vec!["/m/a.mp3"]);
}

#[test]
fn discovered_files_are_newest_first() {
    let entries = vec![
        file_entry("/m/old.mp3", 100),
        file_entry("/m/newest.mp3", 300),
        file_entry("/m/middle.mp3", 200),
    ];
    let set = discover(&entries).ok().unwrap();
    assert_eq!(set.len(), 3);
    assert_eq!(set.first().path, "/m/newest.mp3");
    assert_eq!(paths_of(&set), vec!["/m/newest.mp3", "/m/middle.mp3", "/m/old.mp3"]);
    let times: Vec<u64> = set.files().iter().map(|f| f.modified).collect();
    assert_eq!(times, vec![300, 200, 100]);
    for pair in times.windows(2) {
        assert!(pair[0] > pair[1]);
    }
}

#[test]
fn unreadable_time_sorts_last() {
    let entries = vec![
        ScannedEntry { path: "/m/unknown.mp3".to_string(), is_file: true, modified: None },
        file_entry("/m/a.mp3", 5),
        file_entry("/m/b.mp3", 1),
    ];
    let set = discover(&entries).ok().unwrap();
    assert_eq!(paths_of(&set), vec!["/m/a.mp3", "/m/b.mp3", "/m/unknown.mp3"]);
    assert_eq!(set.get(2).unwrap().modified, 0);
}

#[test]
fn equal_times_keep_the_later_entry_first() {
    let entries = vec![
        file_entry("/m/first.mp3", 7),
        file_entry("/m/second.mp3", 7),
        file_entry("/m/third.mp3", 7),
        file_entry("/m/newer.mp3", 9),
        file_entry("/m/older.mp3", 3),
    ];
    let set = discover(&entries).ok().unwrap();
    assert_eq!(
        paths_of(&set),
        vec!["/m/newer.mp3", "/m/third.mp3", "/m/second.mp3", "/m/first.mp3", "/m/older.mp3"]
    );
}

#[test]
fn discovery_never_exceeds_ten_files() {
    let mut entries = Vec::new();
    for i in 0..25u64 {
        entries.push(file_entry(&format!("/m/track{}.mp3", i), 1000 + i));
    }
    let set = discover(&entries).ok().unwrap();
    assert_eq!(MAX_DISCOVERED, 10);
    assert_eq!(set.len(), 10);
    let times: Vec<u64> = set.files().iter().map(|f| f.modified).collect();
    assert_eq!(times, vec![1024, 1023, 1022, 1021, 1020, 1019, 1018, 1017, 1016, 1015]);
    assert_eq!(set.get(0).unwrap().path, "/m/track24.mp3");
    assert_eq!(set.get(9).unwrap().path, "/m/track15.mp3");
    assert!(set.get(10).is_none());
}

#[test]
fn exactly_ten_files_are_all_kept() {
    let mut entries = Vec::new();
    for i in 0..10u64 {
        entries.push(file_entry(&format!("/m/t{}.m4a", i), i));
    }
    let set = discover(&entries).ok().unwrap();
    assert_eq!(set.len(), 10);
    assert_eq!(set.get(0).unwrap().path, "/m/t9.m4a");
    assert_eq!(set.get(9).unwrap().path, "/m/t0.m4a");
}

#[test]
fn a_stale_file_with_a_newer_time_is_picked_first() {
    let entries = vec![file_entry("/m/fresh.mp3", 100), file_entry("/m/touched.mp3", 500)];
    let set = discover(&entries).ok().unwrap();
    assert_eq!(paths_of(&set), vec!["/m/touched.mp3", "/m/fresh.mp3"]);
}

#[test]
fn empty_directory_is_an_error() {
    let entries: Vec<ScannedEntry> = Vec::new();
    assert!(matches!(discover(&entries), Err(DiscoveryError::Empty)));
}

#[test]
fn directory_without_recognized_files_is_an_error() {
    let entries = vec![
        file_entry("/m/readme.txt", 10),
        file_entry("/m/video.mkv", 20),
        file_entry("/m/.mp3", 30),
        ScannedEntry { path: "/m/dir.mp3".to_string(), is_file: false, modified: Some(40) },
    ];
    assert!(matches!(discover(&entries), Err(DiscoveryError::Empty)));
}

#[test]
fn file_set_from_files_checks_its_rules() {
    let file = |path: &str, modified: u64| MediaFile { path: path.to_string(), modified };
    assert!(DiscoveredFileSet::from_files(Vec::new()).is_none());
    assert!(DiscoveredFileSet::from_files(vec![file("a.mp3", 1), file("b.mp3", 2)]).is_none());
    let set = DiscoveredFileSet::from_files(vec![file("b.mp3", 2), file("a.mp3", 2), file("c.mp3", 1)])
        .unwrap();
    assert_eq!(set.len(), 3);
    assert_eq!(set.get(1).unwrap().path, "a.mp3");
    let mut many = Vec::new();
    for i in 0..11u64 {
        many.push(file("x.mp3", 100 - i));
    }
    assert!(DiscoveredFileSet::from_files(many).is_none());
}

#[test]
fn media_file_clone_keeps_path_and_time() {
    let file = MediaFile { path: "/m/a.mp3".to_string(), modified: 42 };
    let copy = file.clone();
    assert_eq!(copy.path, "/m/a.mp3");
    assert_eq!(copy.modified, 42);
}

#[test]
fn time_keys_grow_with_time_and_are_never_zero() {
    assert_eq!(time_key(false, 0), 0x8000_0000_0000_0000);
    assert_eq!(time_key(false, 1), 0x8000_0000_0000_0001);
    assert_eq!(time_key(true, 1), 0x7fff_ffff_ffff_ffff);
    assert_eq!(time_key(true, 0), time_key(false, 0));
    assert_eq!(time_key(false, 1_700_000_000_000_000_000), 0x8000_0000_0000_0000 + 1_700_000_000_000_000_000);
    assert_eq!(time_key(false, u128::MAX), u64::MAX);
    assert_eq!(time_key(true, u128::MAX), 1);
    assert_eq!(time_key(true, 0x7fff_ffff_ffff_ffff), 1);
    assert_eq!(time_key(true, 0x8000_0000_0000_0000), 1);
    assert_eq!(time_key(false, 0x7fff_ffff_ffff_ffff), u64::MAX);
    assert!(time_key(true, 5) < time_key(true, 4));
    assert!(time_key(false, 4) < time_key(false, 5));
}
