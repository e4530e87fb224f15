use gensmusic::library::{Id, Library, ScanEntry, SongTags};

fn tags(title: Option<&str>, artist: &str) -> SongTags {
    SongTags {
        title: title.map(|t| t.to_string()),
        artist: artist.to_string(),
        album_title: None,
        disc_number: None,
        track_number: None,
    }
}

#[test]
fn adv_returns_the_previous_id() {
    let mut id = Id(0);
    assert_eq!(id.adv(), Id(0));
    assert_eq!(id.adv(), Id(1));
    assert_eq!(id, Id(2));
}

#[test]
fn scan_of_nothing_is_empty() {
    let lib = Library::scan(&vec![]);
    assert!(lib.songs().is_empty());
}

#[test]
fn scan_numbers_directories_and_songs_in_walk_order() {
    let full = SongTags {
        title: Some("Intro".to_string()),
        artist: "Band".to_string(),
        album_title: Some("First".to_string()),
        disc_number: Some(2),
        track_number: Some(7),
    };
    let entries = vec![
        ScanEntry::Enter("/music".to_string()),
        ScanEntry::Song("/music/a.mp3".to_string(), full),
        ScanEntry::Enter("/music/sub".to_string()),
        ScanEntry::Song("/music/sub/b.mp3".to_string(), tags(None, "Solo")),
        ScanEntry::Leave,
        ScanEntry::Song("/music/c.mp3".to_string(), tags(Some("Outro"), "Band")),
        ScanEntry::Leave,
    ];
    let lib = Library::scan(&entries);
    let songs = lib.songs();
    assert_eq!(songs.len(), 3);

    assert_eq!(songs[0].id, Id(1));
    assert_eq!(songs[0].path, "/music/a.mp3");
    assert_eq!(songs[0].title, "Intro");
    assert_eq!(songs[0].artist, "Band");
    assert_eq!(songs[0].album_title, "First");
    assert_eq!(songs[0].disc_number, 2);
    assert_eq!(songs[0].track_number, 7);

    // The subdirectory took id 2, so the song inside it has 3.
    assert_eq!(songs[1].id, Id(3));
    assert_eq!(songs[1].title, "untitled");
    assert_eq!(songs[1].artist, "Solo");
    assert_eq!(songs[1].album_title, "");
    assert_eq!(songs[1].disc_number, 1);
    assert_eq!(songs[1].track_number, 0);

    assert_eq!(songs[2].id, Id(4));
    assert_eq!(songs[2].title, "Outro");
}

#[test]
fn scan_tolerates_unbalanced_walks() {
    let entries = vec![
        ScanEntry::Leave,
        ScanEntry::Enter("/a".to_string()),
        ScanEntry::Enter("/a/b".to_string()),
        ScanEntry::Song("/a/b/x.mp3".to_string(), tags(Some("X"), "Y")),
    ];
    let lib = Library::scan(&entries);
    assert_eq!(lib.songs().len(), 1);
    assert_eq!(lib.songs()[0].id, Id(2));
}
