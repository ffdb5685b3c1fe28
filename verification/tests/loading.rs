use levari::catalog::Album;
use levari::loader::{
    album_is_collection, audio_extension, audio_text, cover_name, cover_text, estimate_duration,
    load_album, load_albums, open_catalog, shuffled, CatalogError, DirTree, Entry, FileEntry,
};

fn ld_file(handle: usize, name: &str, size: u64) -> Entry {
    let (stem, extension) = match name.rfind('.') {
        Some(dot) if dot > 0 => (name[..dot].to_string(), Some(name[dot + 1..].to_string())),
        _ => (name.to_string(), None),
    };
    Entry::File(FileEntry {
        path: handle,
        file_name: Some(name.to_string()),
        file_stem: Some(stem),
        extension,
        size,
    })
}

fn ld_dir(handle: usize, name: &str, entries: Vec<Entry>) -> DirTree {
    DirTree::Readable { name: Some(name.to_string()), path: handle, entries }
}

fn ld_names(albums: &[Album]) -> Vec<String> {
    albums.iter().map(|a| a.name.clone()).collect()
}

fn ld_titles(album: &Album) -> Vec<String> {
    album.songs.iter().map(|s| s.title.clone()).collect()
}

#[test]
fn duration_is_size_over_forty_thousand_rounded_half_up() {
    assert_eq!(estimate_duration(100_000), 3);
    assert_eq!(estimate_duration(0), 0);
    assert_eq!(estimate_duration(19_999), 0);
    assert_eq!(estimate_duration(20_000), 1);
    assert_eq!(estimate_duration(59_999), 1);
    assert_eq!(estimate_duration(60_000), 2);
    assert_eq!(estimate_duration(4_000_000), 100);
    assert_eq!(estimate_duration(u64::MAX), 461_168_601_842_739);
}

#[test]
fn cover_names_are_recognised_whatever_their_case() {
    assert!(cover_name("cover.jpg"));
    assert!(cover_name("Cover.PNG"));
    assert!(cover_name("COVER.JPEG"));
    assert!(cover_name("cover."));
    assert!(!cover_name("cover"));
    assert!(!cover_name("discover.jpg"));
    assert!(!cover_name("cove.jpg"));
    assert!(!cover_name(""));
    assert!(cover_text("cover.jpg"));
    assert!(!cover_text("Cover.jpg"));
}

#[test]
fn audio_extensions_are_recognised_whatever_their_case() {
    for extension in ["mp3", "flac", "wav", "ogg", "MP3", "Flac", "WAV", "oGg"] {
        assert!(audio_extension(extension), "{}", extension);
    }
    for extension in ["mp4", "txt", "", "mp", "mp33", "jpg", "m4a"] {
        assert!(!audio_extension(extension), "{}", extension);
    }
    assert!(audio_text("flac"));
    assert!(!audio_text("FLAC"));
}

#[test]
fn directory_with_only_a_cover_is_an_album_without_songs() {
    let tree = ld_dir(1, "single", vec![ld_file(2, "cover.jpg", 1234)]);
    let albums = load_albums(&tree).unwrap();
    assert_eq!(albums.len(), 1);
    assert_eq!(albums[0].name, "single");
    assert_eq!(albums[0].path, 1);
    assert_eq!(albums[0].cover, Some(2));
    assert!(albums[0].songs.is_empty());
    assert!(!albums[0].bookmarked);
    assert!(album_is_collection(&albums[0]));
}

#[test]
fn directory_without_cover_or_songs_gives_what_its_subdirectories_give() {
    let sub = ld_dir(3, "inner", vec![ld_file(4, "a1.mp3", 80_000)]);
    let tree = ld_dir(1, "music", vec![ld_file(2, "notes.txt", 10), Entry::Dir(sub), Entry::Other]);
    let albums = load_albums(&tree).unwrap();
    assert_eq!(ld_names(&albums), vec!["inner"]);
    assert_eq!(albums[0].path, 3);
    assert_eq!(ld_titles(&albums[0]), vec!["a1"]);
    assert_eq!(albums[0].songs[0].duration, 2);
    assert_eq!(albums[0].songs[0].path, 4);
    assert_eq!(albums[0].cover, None);
}

#[test]
fn album_is_not_looked_into_further() {
    let hidden = ld_dir(5, "bonus", vec![ld_file(6, "x.mp3", 1)]);
    let locked = DirTree::Unreadable { path: 2 };
    let tree = ld_dir(
        1,
        "top",
        vec![Entry::Dir(locked), ld_file(3, "song.ogg", 40_000), Entry::Dir(hidden)],
    );
    let albums = load_albums(&tree).unwrap();
    assert_eq!(ld_names(&albums), vec!["top"]);
    assert_eq!(ld_titles(&albums[0]), vec!["song"]);
}

#[test]
fn albums_come_in_the_order_of_a_walk_that_goes_deep_first() {
    let a = ld_dir(3, "a", vec![ld_file(4, "1.mp3", 1)]);
    let b = ld_dir(5, "b", vec![ld_file(6, "cover.png", 1)]);
    let x = ld_dir(2, "x", vec![Entry::Dir(a), Entry::Dir(b)]);
    let empty = ld_dir(7, "empty", vec![]);
    let c = ld_dir(8, "c", vec![ld_file(9, "1.wav", 1)]);
    let tree = ld_dir(1, "m", vec![Entry::Dir(x), Entry::Dir(empty), Entry::Dir(c)]);
    let albums = load_albums(&tree).unwrap();
    assert_eq!(ld_names(&albums), vec!["a", "b", "c"]);
    assert_eq!(albums.iter().map(|a| a.path).collect::<Vec<usize>>(), vec![3, 5, 8]);
}

#[test]
fn unreadable_directory_fails_the_load_with_its_handle() {
    let root = DirTree::Unreadable { path: 41 };
    match load_albums(&root) {
        Err(CatalogError::Unreadable { path }) => assert_eq!(path, 41),
        other => panic!("{:?}", other),
    }
    let good = ld_dir(2, "good", vec![ld_file(3, "1.mp3", 1)]);
    let bad = DirTree::Unreadable { path: 4 };
    let worse = DirTree::Unreadable { path: 5 };
    let tree = ld_dir(1, "m", vec![Entry::Dir(good), Entry::Dir(bad), Entry::Dir(worse)]);
    match load_albums(&tree) {
        Err(CatalogError::Unreadable { path }) => assert_eq!(path, 4),
        other => panic!("{:?}", other),
    }
    match open_catalog(&tree) {
        Err(CatalogError::Unreadable { path }) => assert_eq!(path, 4),
        other => panic!("{:?}", other),
    }
}

#[test]
fn first_cover_listed_is_the_cover() {
    let entries =
        vec![ld_file(2, "back.jpg", 1), ld_file(3, "Cover.png", 1), ld_file(4, "cover.jpg", 1)];
    let album = load_album(&Some("a".to_string()), 1, &entries);
    assert_eq!(album.cover, Some(3));
    assert_eq!(album.path, 1);
}

#[test]
fn songs_of_an_album_stand_in_natural_order() {
    let entries = vec![
        ld_file(2, "track2.mp3", 40_000),
        ld_file(3, "track10.FLAC", 400_000),
        ld_file(4, "readme.md", 5),
        ld_file(5, "track1.ogg", 100_000),
        Entry::Other,
    ];
    let album = load_album(&Some("a".to_string()), 1, &entries);
    assert_eq!(ld_titles(&album), vec!["track1", "track2", "track10"]);
    let durations: Vec<u64> = album.songs.iter().map(|s| s.duration).collect();
    assert_eq!(durations, vec![3, 1, 10]);
    let handles: Vec<usize> = album.songs.iter().map(|s| s.path).collect();
    assert_eq!(handles, vec![5, 2, 3]);
    assert_eq!(album.cover, None);
}

#[test]
fn names_that_are_not_unicode_get_stand_ins() {
    let nameless = Entry::File(FileEntry {
        path: 9,
        file_name: None,
        file_stem: None,
        extension: Some("mp3".to_string()),
        size: 0,
    });
    let album = load_album(&None, 1, &vec![nameless]);
    assert_eq!(album.name, "Unknown Album");
    assert_eq!(ld_titles(&album), vec!["Unknown Song"]);
    assert_eq!(album.songs[0].duration, 0);
    // The handle still finds the file, whatever its name.
    assert_eq!(album.songs[0].path, 9);
}

#[test]
fn file_without_extension_is_no_song_and_directory_named_cover_is_no_cover() {
    let entries = vec![ld_file(2, "mp3", 1), Entry::Dir(ld_dir(3, "cover.d", vec![])), Entry::Other];
    let album = load_album(&Some("a".to_string()), 1, &entries);
    assert!(album.songs.is_empty());
    assert_eq!(album.cover, None);
    assert!(!album_is_collection(&album));
}

#[test]
fn catalog_without_albums_cannot_be_opened() {
    let tree = ld_dir(1, "m", vec![ld_file(2, "notes.txt", 1), Entry::Dir(ld_dir(3, "e", vec![]))]);
    assert_eq!(load_albums(&tree).unwrap().len(), 0);
    assert!(matches!(open_catalog(&tree), Err(CatalogError::NoAlbums)));
}

#[test]
fn opened_catalog_holds_the_loaded_albums_in_some_order() {
    let mut dirs = Vec::new();
    for i in 0..20 {
        let name = format!("album{}", i);
        dirs.push(Entry::Dir(ld_dir(2 * i + 2, &name, vec![ld_file(2 * i + 3, "1.mp3", 1)])));
    }
    let tree = ld_dir(1, "m", dirs);
    let mut loaded = ld_names(&load_albums(&tree).unwrap());
    let mut opened = ld_names(&open_catalog(&tree).unwrap());
    assert_eq!(opened.len(), 20);
    loaded.sort();
    opened.sort();
    assert_eq!(loaded, opened);
}

fn ld_plain(count: usize) -> Vec<Album> {
    (0..count)
        .map(|i| Album {
            name: format!("n{}", i),
            path: i,
            cover: None,
            songs: Vec::new(),
            bookmarked: i % 2 == 0,
        })
        .collect()
}

#[test]
fn shuffling_keeps_every_album() {
    let mut names = ld_names(&shuffled(ld_plain(50)));
    names.sort();
    let mut expected: Vec<String> = (0..50).map(|i| format!("n{}", i)).collect();
    expected.sort();
    assert_eq!(names, expected);
    assert!(shuffled(Vec::new()).is_empty());
}

#[test]
fn shuffling_changes_the_order() {
    let expected: Vec<String> = (0..60).map(|i| format!("n{}", i)).collect();
    let mut moved = false;
    for _ in 0..5 {
        if ld_names(&shuffled(ld_plain(60))) != expected {
            moved = true;
        }
    }
    assert!(moved);
}
