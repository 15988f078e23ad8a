use cyberbard::storage::{is_music_file, search_music, LocalOpener, LocalSource, LocalStorage, Music};
use cyberbard::widgets::EditableHeader;

#[test]
fn music_file_extensions() {
    assert!(is_music_file("a/b/song.mp3"));
    assert!(is_music_file("LOUD.MP3"));
    assert!(is_music_file("amb.ogg"));
    assert!(!is_music_file("amb.OGG"));
    assert!(!is_music_file("notes.txt"));
    assert!(!is_music_file("mp3"));
    assert!(!is_music_file(""));
}

#[test]
fn local_source_titles_from_stem() {
    assert_eq!(LocalSource::new("/music/battle drums.mp3".to_string()).title, "battle drums");
    assert_eq!(LocalSource::new("song.ogg".to_string()).title, "song");
    assert_eq!(LocalSource::new("a/b/c.tar.mp3".to_string()).title, "c.tar");
    // a lone leading dot is no extension separator
    assert_eq!(LocalSource::new("dir/.hidden".to_string()).title, ".hidden");
    // titles are cut at 50 characters
    let long = "x".repeat(60);
    let src = LocalSource::new(format!("/m/{}.mp3", long));
    assert_eq!(src.title, "x".repeat(50));
}

#[test]
fn storage_loads_music_files_in_order() {
    let mut storage = LocalStorage::new("/music".to_string());
    assert_eq!(storage.len(), 0);
    assert_eq!(storage.get_caption(), "/music");
    storage.load_sources(vec![
        "/music/a.mp3".to_string(),
        "/music/readme.txt".to_string(),
        "/music/b.ogg".to_string(),
    ]);
    assert_eq!(storage.len(), 2);
    let first = storage.get(0).expect("first source");
    assert_eq!(first.filename, "/music/a.mp3");
    assert_eq!(first.title, "a");
    let second = storage.get(1).expect("second source");
    assert_eq!(second.filename, "/music/b.ogg");
    assert!(storage.get(2).is_none());

    storage.set_caption("Library".to_string());
    assert_eq!(storage.get_caption(), "Library");
}

#[test]
fn music_row_keeps_fields() {
    let m = Music::new(true, 3, "Song".to_string(), vec!["calm".to_string()]);
    assert!(m.shown);
    assert_eq!(m.index, 3);
    assert_eq!(m.title, "Song");
    assert_eq!(m.tags, vec!["calm".to_string()]);
}

#[test]
fn listing_rows_mirror_sources() {
    let mut storage = LocalStorage::new("/m".to_string());
    storage.load_sources(vec!["/m/one.mp3".to_string(), "/m/two.ogg".to_string()]);
    let rows = storage.music_rows();
    assert_eq!(rows.len(), 2);
    assert!(rows[0].shown);
    assert_eq!(rows[0].index, 0);
    assert_eq!(rows[0].title, "one");
    assert_eq!(rows[1].title, "two");
    assert!(rows[1].tags.is_empty());
}

#[test]
fn search_matches_titles_and_tags() {
    let mut rows = vec![
        Music::new(true, 0, "battle drums".to_string(), vec![]),
        Music::new(false, 1, "rain".to_string(), vec!["drums".to_string()]),
        Music::new(true, 2, "tavern".to_string(), vec!["calm".to_string()]),
    ];
    search_music(&mut rows, "dru");
    assert!(rows[0].shown);
    assert!(rows[1].shown);
    assert!(!rows[2].shown);
    // the empty pattern matches every row
    search_music(&mut rows, "");
    assert!(rows.iter().all(|m| m.shown));
}

#[test]
fn local_opener_keeps_path() {
    let opener = LocalOpener::new("/m/a.mp3".to_string());
    assert_eq!(opener.filename, "/m/a.mp3");
}

#[test]
fn editable_header_text() {
    let mut h = EditableHeader::new("Thread".to_string());
    assert!(!h.is_editing);
    assert_eq!(h.text, "Thread");
    h.set_text("Renamed".to_string());
    assert_eq!(h.text, "Renamed");
}
