use musica::file::{is_music_extension, FileInfo};
use musica::state::{Music, MusicList};

fn file(filename: &str, filepath: &str) -> FileInfo {
    FileInfo { filename: filename.to_string(), filepath: filepath.to_string() }
}

#[test]
fn mp3_and_ogg_files_are_music() {
    assert!(file("song.mp3", "/music/song.mp3").is_music_file());
    assert!(file("song.ogg", "/music/song.ogg").is_music_file());
    assert!(file("a.b.mp3", "a.b.mp3").is_music_file());
    assert!(file("..mp3", "/music/..mp3").is_music_file());
}

#[test]
fn other_files_are_not_music() {
    assert!(!file("song.txt", "/music/song.txt").is_music_file());
    assert!(!file("song.flac", "/music/song.flac").is_music_file());
    assert!(!file("song.wav", "/music/song.wav").is_music_file());
    assert!(!file("song", "/music/song").is_music_file());
    assert!(!file("mp3", "/music/mp3").is_music_file());
    assert!(!file("song.mp3.bak", "/music/song.mp3.bak").is_music_file());
    assert!(!file("", "").is_music_file());
}

#[test]
fn the_extension_is_case_sensitive() {
    assert!(!file("song.MP3", "/music/song.MP3").is_music_file());
    assert!(!file("song.Ogg", "/music/song.Ogg").is_music_file());
}

#[test]
fn a_leading_dot_is_no_extension() {
    assert!(!file(".mp3", "/music/.mp3").is_music_file());
    assert!(!file(".ogg", ".ogg").is_music_file());
}

#[test]
fn the_extension_is_taken_from_the_path_not_the_name() {
    assert!(file("error", "/music/song.mp3").is_music_file());
    assert!(!file("song.mp3", "/music/song").is_music_file());
    assert!(!file("song", "/music.mp3/song").is_music_file());
}

#[test]
fn is_music_extension_knows_two_formats() {
    assert!(is_music_extension(Some(&"mp3".to_string())));
    assert!(is_music_extension(Some(&"ogg".to_string())));
    assert!(!is_music_extension(Some(&"song.mp3".to_string())));
    assert!(!is_music_extension(Some(&"mp4".to_string())));
    assert!(!is_music_extension(Some(&"".to_string())));
    assert!(!is_music_extension(Some(&"MP3".to_string())));
    assert!(!is_music_extension(None));
}

#[test]
fn from_files_keeps_music_files_in_listing_order() {
    let files = vec![
        file("b.mp3", "/music/b.mp3"),
        file("notes.txt", "/music/notes.txt"),
        file("a.ogg", "/music/a.ogg"),
        file("cover.png", "/music/cover.png"),
        file("c.mp3", "/music/c.mp3"),
    ];
    let catalog = MusicList::from_files(&files);
    let titles: Vec<&str> = catalog.list.iter().map(|music| music.title.as_str()).collect();
    assert_eq!(titles, vec!["b.mp3", "a.ogg", "c.mp3"]);
    let paths: Vec<&str> = catalog.list.iter().map(|music| music.file_path.as_str()).collect();
    assert_eq!(paths, vec!["/music/b.mp3", "/music/a.ogg", "/music/c.mp3"]);
}

#[test]
fn from_files_of_nothing_is_empty() {
    assert!(MusicList::from_files(&vec![]).list.is_empty());
    assert!(MusicList::from_files(&vec![file("a.txt", "a.txt")]).list.is_empty());
}

#[test]
fn is_not_empty_tells_whether_there_are_tracks() {
    assert!(!MusicList::default().is_not_empty());
    assert!(!MusicList { list: vec![] }.is_not_empty());
    let one = MusicList { list: vec![Music::default()] };
    assert!(one.is_not_empty());
    assert_eq!(one.len(), 1);
}

#[test]
fn get_gives_the_track_or_nothing() {
    let catalog = MusicList::from_files(&vec![file("a.mp3", "/a.mp3"), file("b.ogg", "/b.ogg")]);
    assert_eq!(catalog.get(0).unwrap().title, "a.mp3");
    assert_eq!(catalog.get(1).unwrap().file_path, "/b.ogg");
    assert!(catalog.get(2).is_none());
}

#[test]
fn clones_hold_the_same_tracks() {
    let catalog = MusicList::from_files(&vec![file("a.mp3", "/a.mp3"), file("b.ogg", "/b.ogg")]);
    let copy = catalog.clone();
    assert_eq!(copy.len(), 2);
    assert_eq!(copy.list[0].title, "a.mp3");
    assert_eq!(copy.list[1].file_path, "/b.ogg");
    let info = file("x.mp3", "/x.mp3").clone();
    assert_eq!(info.filename, "x.mp3");
    assert_eq!(info.filepath, "/x.mp3");
}
