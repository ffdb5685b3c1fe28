//! The catalog loader: which directories are albums, which files are their
//! songs and covers, and how long a song is taken to play.
//!
//! The loader works on a directory tree that was read beforehand and is
//! handed in as a plain value. Files and directories are known to it by
//! handles: numbers that the caller gave them and by which the caller finds
//! them again. The loader hands them on and never looks into them.

use crate::catalog::{
    album_views, natural_sorted, song_views, sort_songs, Album, AlbumView, Song, SongView,
};
use crate::text::{chars_of, has_prefix, same_text};
use rand::seq::SliceRandom;
use vstd::prelude::*;

verus! {

/// A file among the direct entries of a directory.
#[derive(Debug)]
pub struct FileEntry {
    /// The handle of the file.
    pub path: usize,
    /// Its name, where that is valid Unicode.
    pub file_name: Option<String>,
    /// Its name up to the last dot, where that is valid Unicode.
    pub file_stem: Option<String>,
    /// Its name after the last dot, where it has one and it is valid Unicode.
    pub extension: Option<String>,
    /// Its size in bytes.
    pub size: u64,
}

/// A direct entry of a directory.
#[derive(Debug)]
pub enum Entry {
    /// A regular file.
    File(FileEntry),
    /// A directory, with what it holds.
    Dir(DirTree),
    /// Anything else.
    Other,
}

/// A directory with everything below it.
#[derive(Debug)]
pub enum DirTree {
    /// A directory whose entries are not known: they could not be listed,
    /// or nobody listed them.
    Unreadable { path: usize },
    /// A directory and its entries, in the order in which they were listed.
    Readable { name: Option<String>, path: usize, entries: Vec<Entry> },
}

/// Why no catalog could be loaded.
#[derive(Debug)]
pub enum CatalogError {
    /// The entries of the directory with the handle `path` could not be
    /// listed.
    Unreadable { path: usize },
    /// There is no album below the directory.
    NoAlbums,
}

/// The lowercase form of a text as Unicode defines it, which is what
/// `str::to_lowercase` returns.
pub uninterp spec fn lowercase_of(s: Seq<char>) -> Seq<char>;

/// The lowercase form of `s`, from `str::to_lowercase`.
///
/// Trusted: that the result depends on the characters of `s` alone. Nothing
/// is claimed of what it holds.
#[verifier::external_body]
fn lowercase(s: &str) -> (r: String)
    ensures
        r@ == lowercase_of(s@),
{
    s.to_lowercase()
}

/// True where a lowercase file name is that of a cover image: it begins with
/// `cover.`.
pub open spec fn is_cover_text(lower: Seq<char>) -> bool {
    "cover."@.is_prefix_of(lower)
}

/// True where a lowercase extension is that of an audio file: `mp3`, `flac`,
/// `wav` or `ogg`.
pub open spec fn is_audio_text(lower: Seq<char>) -> bool {
    lower == "mp3"@ || lower == "flac"@ || lower == "wav"@ || lower == "ogg"@
}

/// True where a file of this name is a cover image, whatever the case of its
/// letters.
pub open spec fn is_cover_name(name: Seq<char>) -> bool {
    is_cover_text(lowercase_of(name))
}

/// True where a file with this extension is an audio file, whatever the case
/// of its letters.
pub open spec fn is_audio_extension(extension: Seq<char>) -> bool {
    is_audio_text(lowercase_of(extension))
}

/// Decides [`is_cover_text`] for a name that is already lowercase.
pub fn cover_text(lower: &str) -> (r: bool)
    ensures
        r == is_cover_text(lower@),
{
    has_prefix(chars_of(lower).as_slice(), chars_of("cover.").as_slice())
}

/// Decides [`is_audio_text`] for an extension that is already lowercase.
pub fn audio_text(lower: &str) -> (r: bool)
    ensures
        r == is_audio_text(lower@),
{
    let text = chars_of(lower);
    same_text(text.as_slice(), chars_of("mp3").as_slice()) || same_text(
        text.as_slice(),
        chars_of("flac").as_slice(),
    ) || same_text(text.as_slice(), chars_of("wav").as_slice()) || same_text(
        text.as_slice(),
        chars_of("ogg").as_slice(),
    )
}

/// Decides whether a file of this name is a cover image.
pub fn cover_name(name: &str) -> (r: bool)
    ensures
        r == is_cover_name(name@),
{
    let lower = lowercase(name);
    cover_text(lower.as_str())
}

/// Decides whether a file with this extension is an audio file.
pub fn audio_extension(extension: &str) -> (r: bool)
    ensures
        r == is_audio_extension(extension@),
{
    let lower = lowercase(extension);
    audio_text(lower.as_str())
}

/// The playing time, in seconds, that is assumed of an audio file of `size`
/// bytes: one second for every 40 000 bytes, rounded to the nearest second,
/// a half rounding up.
pub open spec fn estimated_seconds(size: u64) -> int {
    (size + 20_000) / 40_000
}

/// Estimates the playing time of an audio file from its size.
pub fn estimate_duration(size: u64) -> (r: u64)
    ensures
        r == estimated_seconds(size),
{
    let whole: u64 = size / 40_000;
    if size % 40_000 >= 20_000 {
        whole + 1
    } else {
        whole
    }
}

/// True where the entry is a file that counts as a cover image.
pub open spec fn is_cover(entry: Entry) -> bool {
    match entry {
        Entry::File(file) => match file.file_name {
            Some(name) => is_cover_name(name@),
            None => false,
        },
        _ => false,
    }
}

/// True where the entry is a file that counts as a song.
pub open spec fn is_song(entry: Entry) -> bool {
    match entry {
        Entry::File(file) => match file.extension {
            Some(extension) => is_audio_extension(extension@),
            None => false,
        },
        _ => false,
    }
}

/// The title of the song in a file: the stem of its name, or `Unknown Song`
/// where the stem is not valid Unicode.
pub open spec fn title_of(file: FileEntry) -> Seq<char> {
    match file.file_stem {
        Some(stem) => stem@,
        None => "Unknown Song"@,
    }
}

/// The song in an audio file.
pub open spec fn song_of(file: FileEntry) -> SongView {
    SongView {
        title: title_of(file),
        duration: estimated_seconds(file.size) as u64,
        path: file.path,
    }
}

/// The cover of a directory: the first of its entries, in the order listed,
/// that is a cover image.
pub open spec fn cover_of(entries: Seq<Entry>) -> Option<usize>
    decreases entries.len(),
{
    if entries.len() == 0 {
        None
    } else {
        match cover_of(entries.drop_last()) {
            Some(cover) => Some(cover),
            None => if is_cover(entries.last()) {
                Some(entries.last()->File_0.path)
            } else {
                None
            },
        }
    }
}

/// The songs of a directory in the order in which its entries were listed.
pub open spec fn songs_of(entries: Seq<Entry>) -> Seq<SongView>
    decreases entries.len(),
{
    if entries.len() == 0 {
        Seq::empty()
    } else if is_song(entries.last()) {
        songs_of(entries.drop_last()).push(song_of(entries.last()->File_0))
    } else {
        songs_of(entries.drop_last())
    }
}

/// The album that a directory makes: named as the directory is (`Unknown
/// Album` where its name is not valid Unicode), with its first cover, its
/// songs in natural order, and no bookmark.
pub open spec fn album_of(name: Option<String>, path: usize, entries: Seq<Entry>) -> AlbumView {
    AlbumView {
        name: match name {
            Some(n) => n@,
            None => "Unknown Album"@,
        },
        path: path,
        cover: cover_of(entries),
        songs: natural_sorted(songs_of(entries)),
        bookmarked: false,
    }
}

/// True where an album is kept as a collection of its own: it has a cover or
/// at least one song.
pub open spec fn is_collection(album: AlbumView) -> bool {
    album.cover is Some || album.songs.len() > 0
}

/// Builds the album that a directory makes from its name, its location and
/// its direct entries. Directories among the entries are not looked into.
pub fn load_album(name: &Option<String>, path: usize, entries: &Vec<Entry>) -> (album: Album)
    ensures
        album@ == album_of(*name, path, entries@),
{
    let album_name = match name {
        Some(n) => n.clone(),
        None => "Unknown Album".to_owned(),
    };
    let mut cover: Option<usize> = None;
    let mut i: usize = 0;
    while i < entries.len() && cover.is_none()
        invariant
            i <= entries@.len(),
            cover == cover_of(entries@.subrange(0, i as int)),
        decreases entries@.len() - i,
    {
        assert(entries@.subrange(0, i + 1).drop_last() =~= entries@.subrange(0, i as int));
        match &entries[i] {
            Entry::File(file) => {
                match &file.file_name {
                    Some(file_name) => {
                        if cover_name(file_name.as_str()) {
                            cover = Some(file.path);
                        }
                    },
                    None => {},
                }
            },
            _ => {},
        }
        i = i + 1;
    }
    proof {
        lemma_cover_of_found(entries@, i as int);
    }
    let mut songs: Vec<Song> = Vec::new();
    let mut k: usize = 0;
    while k < entries.len()
        invariant
            k <= entries@.len(),
            song_views(songs@) == songs_of(entries@.subrange(0, k as int)),
        decreases entries@.len() - k,
    {
        let ghost before = song_views(songs@);
        assert(entries@.subrange(0, k + 1).drop_last() =~= entries@.subrange(0, k as int));
        match &entries[k] {
            Entry::File(file) => {
                match &file.extension {
                    Some(extension) => {
                        if audio_extension(extension.as_str()) {
                            let title = match &file.file_stem {
                                Some(stem) => stem.clone(),
                                None => "Unknown Song".to_owned(),
                            };
                            let song = Song {
                                title,
                                duration: estimate_duration(file.size),
                                path: file.path,
                            };
                            songs.push(song);
                            assert(song_views(songs@) =~= before.push(song_of(*file)));
                        }
                    },
                    None => {},
                }
            },
            _ => {},
        }
        k = k + 1;
    }
    assert(entries@.subrange(0, k as int) =~= entries@);
    let sorted = sort_songs(songs);
    Album { name: album_name, path, cover, songs: sorted, bookmarked: false }
}

/// A cover found among the first `i` entries is the cover of the directory.
pub proof fn lemma_cover_of_found(entries: Seq<Entry>, i: int)
    requires
        0 <= i <= entries.len(),
        i < entries.len() ==> cover_of(entries.subrange(0, i)) is Some,
    ensures
        cover_of(entries) == cover_of(entries.subrange(0, i)),
    decreases entries.len() - i,
{
    if i == entries.len() {
        assert(entries.subrange(0, i) =~= entries);
    } else {
        assert(entries.subrange(0, i + 1).drop_last() =~= entries.subrange(0, i));
        lemma_cover_of_found(entries, i + 1);
    }
}

/// Decides whether an album is kept as a collection of its own.
pub fn album_is_collection(album: &Album) -> (r: bool)
    ensures
        r == is_collection(album@),
{
    album.cover.is_some() || album.songs.len() > 0
}

/// The catalog below a directory, or the handle of the first directory on
/// the way whose entries could not be listed.
///
/// A directory that makes a collection is one album, and nothing below it is
/// looked at. Any other directory gives what its sub-directories give, one
/// after the other in the order in which they were listed.
pub open spec fn catalog_of(tree: DirTree) -> Result<Seq<AlbumView>, usize>
    decreases tree, 0int,
{
    match tree {
        DirTree::Unreadable { path } => Err(path),
        DirTree::Readable { name, path, entries } => {
            let album = album_of(name, path, entries@);
            if is_collection(album) {
                Ok(seq![album])
            } else {
                catalogs_below(entries@, entries@.len() as int)
            }
        },
    }
}

/// The catalogs of the directories among the first `n` of `entries`, one
/// after the other, or the first failure among them.
pub open spec fn catalogs_below(entries: Seq<Entry>, n: int) -> Result<Seq<AlbumView>, usize>
    decreases entries, n,
{
    if n <= 0 || n > entries.len() {
        Ok(Seq::empty())
    } else {
        match catalogs_below(entries, n - 1) {
            Err(path) => Err(path),
            Ok(before) => match entries[n - 1] {
                Entry::Dir(sub) => match catalog_of(sub) {
                    Err(path) => Err(path),
                    Ok(found) => Ok(before + found),
                },
                _ => Ok(before),
            },
        }
    }
}

/// A failure among the first `m` entries is the failure of any longer run of
/// them.
pub proof fn lemma_failure_stays(entries: Seq<Entry>, m: int, n: int)
    requires
        0 <= m <= n <= entries.len(),
        catalogs_below(entries, m) is Err,
    ensures
        catalogs_below(entries, n) == catalogs_below(entries, m),
    decreases n - m,
{
    if m < n {
        lemma_failure_stays(entries, m, n - 1);
    }
}

/// Loads the catalog below a directory: its albums in the order in which a
/// walk that goes deep first meets them.
///
/// Fails where a directory that the walk has to list could not be listed, and
/// names the first such directory.
pub fn load_albums(tree: &DirTree) -> (r: Result<Vec<Album>, CatalogError>)
    ensures
        match r {
            Ok(albums) => catalog_of(*tree) == Ok::<Seq<AlbumView>, usize>(album_views(albums@)),
            Err(CatalogError::Unreadable { path }) => catalog_of(*tree) == Err::<Seq<AlbumView>, usize>(path),
            Err(CatalogError::NoAlbums) => false,
        },
    decreases tree,
{
    match tree {
        DirTree::Unreadable { path } => Err(CatalogError::Unreadable { path: *path }),
        DirTree::Readable { name, path, entries } => {
            let candidate = load_album(name, *path, entries);
            if album_is_collection(&candidate) {
                let mut albums: Vec<Album> = Vec::new();
                albums.push(candidate);
                assert(album_views(albums@) =~= seq![candidate@]);
                Ok(albums)
            } else {
                let mut albums: Vec<Album> = Vec::new();
                let mut i: usize = 0;
                assert(album_views(albums@) =~= Seq::<AlbumView>::empty());
                while i < entries.len()
                    invariant
                        i <= entries@.len(),
                        *tree == (DirTree::Readable { name: *name, path: *path, entries: *entries }),
                        !is_collection(album_of(*name, *path, entries@)),
                        catalogs_below(entries@, i as int) == Ok::<Seq<AlbumView>, usize>(
                            album_views(albums@),
                        ),
                    decreases entries@.len() - i,
                {
                    match &entries[i] {
                        Entry::Dir(sub) => {
                            let ghost before = album_views(albums@);
                            match load_albums(sub) {
                                Err(error) => {
                                    proof {
                                        lemma_failure_stays(
                                            entries@,
                                            i + 1,
                                            entries@.len() as int,
                                        );
                                    }
                                    return Err(error);
                                },
                                Ok(mut found) => {
                                    let ghost found_views = album_views(found@);
                                    albums.append(&mut found);
                                    assert(album_views(albums@) =~= before + found_views);
                                },
                            }
                        },
                        _ => {},
                    }
                    i = i + 1;
                }
                Ok(albums)
            }
        },
    }
}

/// Puts `albums` in a random order with the rand crate's
/// `SliceRandom::shuffle` and the generator of the running thread.
///
/// Trusted: that the albums are the same afterwards, each as often as
/// before; `shuffle` only swaps elements. The order depends on chance. The
/// generator gives up where the system has no random numbers for it.
#[verifier::external_body]
fn shuffle_albums(albums: &mut Vec<Album>)
    ensures
        final(albums)@.to_multiset() == old(albums)@.to_multiset(),
{
    albums.shuffle(&mut rand::thread_rng());
}

/// What [`shuffled`] may return for `loaded`: the same albums in any order.
pub open spec fn is_shuffle_of(albums: Seq<Album>, loaded: Seq<Album>) -> bool {
    albums.to_multiset() == loaded.to_multiset()
}

/// The albums in a random order.
pub fn shuffled(albums: Vec<Album>) -> (r: Vec<Album>)
    ensures
        is_shuffle_of(r@, albums@),
        r@.len() == albums@.len(),
{
    let mut r = albums;
    shuffle_albums(&mut r);
    proof {
        r@.to_multiset_ensures();
        albums@.to_multiset_ensures();
    }
    r
}

/// Loads the catalog below a directory for a session: the albums that
/// [`load_albums`] finds, in a random order.
///
/// Fails where a directory that had to be listed could not be, and where
/// there is no album at all.
pub fn open_catalog(tree: &DirTree) -> (r: Result<Vec<Album>, CatalogError>)
    ensures
        match r {
            Ok(albums) => albums@.len() > 0 && exists|loaded: Seq<Album>|
                catalog_of(*tree) == Ok::<Seq<AlbumView>, usize>(album_views(loaded))
                    && #[trigger] is_shuffle_of(albums@, loaded),
            Err(CatalogError::Unreadable { path }) => catalog_of(*tree) == Err::<Seq<AlbumView>, usize>(path),
            Err(CatalogError::NoAlbums) => catalog_of(*tree) == Ok::<Seq<AlbumView>, usize>(
                Seq::empty(),
            ),
        },
{
    match load_albums(tree) {
        Err(error) => {
            return Err(error);
        },
        Ok(loaded) => {
            if loaded.len() == 0 {
                assert(album_views(loaded@) =~= Seq::<AlbumView>::empty());
                return Err(CatalogError::NoAlbums);
            } else {
                let ghost before = loaded@;
                let albums = shuffled(loaded);
                assert(is_shuffle_of(albums@, before));
                return Ok(albums);
            }
        },
    }
}

} // verus!
