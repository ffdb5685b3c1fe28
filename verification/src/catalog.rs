//! Songs and albums, and the order of the songs within an album.

use crate::natural::{compare_keyed, compare_titles, key_of, natural_key, natural_sign};
use crate::text::chars_of;
use crate::order_laws::{lemma_natural_sign_antisymmetric, lemma_natural_sign_transitive};
use std::cmp::Ordering;
use vstd::prelude::*;

verus! {

/// One playable track.
#[derive(Debug)]
pub struct Song {
    /// Title, taken from the stem of the file's name.
    pub title: String,
    /// Estimated playing time in seconds.
    pub duration: u64,
    /// Where the audio is found: a handle that the caller gave to the file.
    /// It is handed on as it came.
    pub path: usize,
}

/// What a [`Song`] holds, as plain values.
pub struct SongView {
    pub title: Seq<char>,
    pub duration: u64,
    pub path: usize,
}

impl View for Song {
    type V = SongView;

    open spec fn view(&self) -> SongView {
        SongView { title: self.title@, duration: self.duration, path: self.path }
    }
}

/// One album: a directory that is played as a unit.
#[derive(Debug)]
pub struct Album {
    /// Name of the directory.
    pub name: String,
    /// Where the directory is found: a handle that the caller gave to it.
    pub path: usize,
    /// The cover image, where the directory holds one: the handle of the
    /// file.
    pub cover: Option<usize>,
    /// The songs, in natural order of their titles.
    pub songs: Vec<Song>,
    /// Marked by the user.
    pub bookmarked: bool,
}

/// What an [`Album`] holds, as plain values.
pub struct AlbumView {
    pub name: Seq<char>,
    pub path: usize,
    pub cover: Option<usize>,
    pub songs: Seq<SongView>,
    pub bookmarked: bool,
}

/// The views of a sequence of songs, in order.
pub open spec fn song_views(songs: Seq<Song>) -> Seq<SongView> {
    Seq::new(songs.len(), |i: int| songs[i]@)
}

impl View for Album {
    type V = AlbumView;

    open spec fn view(&self) -> AlbumView {
        AlbumView {
            name: self.name@,
            path: self.path,
            cover: self.cover,
            songs: song_views(self.songs@),
            bookmarked: self.bookmarked,
        }
    }
}

/// The views of a sequence of albums, in order.
pub open spec fn album_views(albums: Seq<Album>) -> Seq<AlbumView> {
    Seq::new(albums.len(), |i: int| albums[i]@)
}

/// `-1`, `0` or `1` for `Less`, `Equal` and `Greater`.
pub open spec fn ordering_sign(o: Ordering) -> int {
    match o {
        Ordering::Less => -1,
        Ordering::Equal => 0,
        Ordering::Greater => 1,
    }
}

/// Compares two songs by the natural order of their titles.
pub fn natural_order(a: &Song, b: &Song) -> (r: Ordering)
    ensures
        ordering_sign(r) == natural_sign(a.title@, b.title@),
{
    let sign = compare_titles(a.title.as_str(), b.title.as_str());
    if sign < 0 {
        Ordering::Less
    } else if sign == 0 {
        Ordering::Equal
    } else {
        Ordering::Greater
    }
}

/// True where `perm` lists each of `0..n` once.
pub open spec fn is_permutation(perm: Seq<int>, n: nat) -> bool {
    &&& perm.len() == n
    &&& forall|k: int| 0 <= k < n ==> 0 <= #[trigger] perm[k] < n
    &&& forall|i: int, j: int| 0 <= i < j < n ==> perm[i] != perm[j]
}

/// True where a song titled `a` that stood at `pa` belongs before one titled
/// `b` that stood at `pb`: its title sorts first, or the titles sort alike and
/// it came first.
pub open spec fn stands_before(a: Seq<char>, pa: int, b: Seq<char>, pb: int) -> bool {
    natural_sign(a, b) < 0 || (natural_sign(a, b) == 0 && pa < pb)
}

/// True where `output` is `input` sorted by title in natural order, songs
/// whose titles sort alike keeping the order they had, and `perm[k]` is the
/// place in `input` of the song at `k` in `output`.
pub open spec fn is_sorted_arrangement(
    input: Seq<SongView>,
    output: Seq<SongView>,
    perm: Seq<int>,
) -> bool {
    &&& output.len() == input.len()
    &&& is_permutation(perm, input.len())
    &&& forall|k: int| 0 <= k < output.len() ==> #[trigger] output[k] == input[perm[k]]
    &&& forall|i: int, j: int|
        0 <= i < j < output.len() ==> stands_before(
            #[trigger] output[i].title,
            perm[i],
            #[trigger] output[j].title,
            perm[j],
        )
}

/// True where `output` is the stable sort of `input` by title in natural
/// order.
pub open spec fn is_natural_sort(input: Seq<SongView>, output: Seq<SongView>) -> bool {
    exists|perm: Seq<int>| is_sorted_arrangement(input, output, perm)
}

/// First index at or after `j` whose song does not sort before `title` (the
/// length of `sorted` where all of them do).
pub open spec fn first_not_before(sorted: Seq<SongView>, title: Seq<char>, j: int) -> int
    decreases sorted.len() - j,
{
    if 0 <= j && j < sorted.len() && natural_sign(sorted[j].title, title) < 0 {
        first_not_before(sorted, title, j + 1)
    } else {
        j
    }
}

/// The songs of `input` sorted by title in natural order, songs whose titles
/// sort alike in the order they had: each song, from the last to the first,
/// is put in front of the first song that does not sort before it.
pub open spec fn natural_sorted(input: Seq<SongView>) -> Seq<SongView>
    decreases input.len(),
{
    if input.len() == 0 {
        Seq::empty()
    } else {
        let rest = natural_sorted(input.skip(1));
        rest.insert(first_not_before(rest, input[0].title, 0), input[0])
    }
}

/// What [`first_not_before`] returns: an index up to which every song sorts
/// before `title`, and at which the song does not.
pub proof fn lemma_first_not_before(sorted: Seq<SongView>, title: Seq<char>, j: int)
    requires
        0 <= j <= sorted.len(),
    ensures
        j <= first_not_before(sorted, title, j) <= sorted.len(),
        forall|k: int|
            j <= k < first_not_before(sorted, title, j) ==> natural_sign(
                #[trigger] sorted[k].title,
                title,
            ) < 0,
        first_not_before(sorted, title, j) < sorted.len() ==> natural_sign(
            sorted[first_not_before(sorted, title, j)].title,
            title,
        ) >= 0,
    decreases sorted.len() - j,
{
    if j < sorted.len() && natural_sign(sorted[j].title, title) < 0 {
        lemma_first_not_before(sorted, title, j + 1);
    }
}

/// [`natural_sorted`] is the stable sort: it holds the songs of `input`, each
/// once, in natural order of their titles, and songs whose titles sort alike
/// stand in the order they had in `input`.
pub proof fn lemma_natural_sorted_is_sort(input: Seq<SongView>)
    ensures
        is_natural_sort(input, natural_sorted(input)),
    decreases input.len(),
{
    if input.len() == 0 {
        assert(is_sorted_arrangement(input, natural_sorted(input), Seq::<int>::empty()));
    } else {
        let tail = input.skip(1);
        let rest = natural_sorted(tail);
        let first = input[0];
        lemma_natural_sorted_is_sort(tail);
        let old_perm = choose|p: Seq<int>| is_sorted_arrangement(tail, rest, p);
        let j = first_not_before(rest, first.title, 0);
        lemma_first_not_before(rest, first.title, 0);
        let shifted = Seq::new(old_perm.len(), |k: int| old_perm[k] + 1);
        let perm = shifted.insert(j, 0);
        let output = rest.insert(j, first);
        assert forall|k: int| j <= k < rest.len() implies natural_sign(
            first.title,
            #[trigger] rest[k].title,
        ) <= 0 by {
            lemma_natural_sign_antisymmetric(rest[j].title, first.title);
            if k > j {
                assert(stands_before(rest[j].title, old_perm[j], rest[k].title, old_perm[k]));
                lemma_natural_sign_transitive(first.title, rest[j].title, rest[k].title);
            }
        }
        assert forall|k: int| 0 <= k < output.len() implies #[trigger] output[k] == input[perm[k]] by {
            if k < j {
                assert(output[k] == rest[k]);
                assert(rest[k] == tail[old_perm[k]]);
            } else if k > j {
                assert(output[k] == rest[k - 1]);
                assert(rest[k - 1] == tail[old_perm[k - 1]]);
            }
        }
        assert forall|k: int| 0 <= k < perm.len() implies 0 <= #[trigger] perm[k] < input.len() by {
            if k < j {
                assert(perm[k] == old_perm[k] + 1);
            } else if k > j {
                assert(perm[k] == old_perm[k - 1] + 1);
            }
        }
        assert forall|a: int, b: int| 0 <= a < b < perm.len() implies perm[a] != perm[b] by {
            let pa = if a < j { a } else { a - 1 };
            let pb = if b < j { b } else { b - 1 };
            if a != j && b != j {
                assert(old_perm[pa] != old_perm[pb]);
            }
        }
        assert forall|a: int, b: int| 0 <= a < b < output.len() implies stands_before(
            #[trigger] output[a].title,
            perm[a],
            #[trigger] output[b].title,
            perm[b],
        ) by {
            let pa = if a < j { a } else { a - 1 };
            let pb = if b < j { b } else { b - 1 };
            if a == j {
                assert(output[b] == rest[pb]);
                assert(natural_sign(first.title, rest[pb].title) <= 0);
            } else if b == j {
                assert(output[a] == rest[pa]);
                assert(natural_sign(rest[pa].title, first.title) < 0);
            } else {
                assert(output[a] == rest[pa]);
                assert(output[b] == rest[pb]);
                assert(stands_before(rest[pa].title, old_perm[pa], rest[pb].title, old_perm[pb]));
            }
        }
        assert(is_sorted_arrangement(input, output, perm));
    }
}

/// A song with the characters and the key of its title, taken once for the
/// whole sort.
struct Keyed {
    song: Song,
    title: Vec<char>,
    key: Option<(Vec<char>, Vec<char>)>,
}

impl Keyed {
    /// True where the characters and the key are those of the song's title.
    spec fn wf(&self) -> bool {
        &&& self.title@ == self.song.title@
        &&& match self.key {
            Some(k) => natural_key(self.title@) == Some((k.0@, k.1@)),
            None => natural_key(self.title@) is None,
        }
    }

    /// Takes the characters and the key of the title of `song`.
    fn new(song: Song) -> (keyed: Keyed)
        ensures
            keyed.wf(),
            keyed.song == song,
    {
        let title = chars_of(song.title.as_str());
        let key = key_of(song.title.as_str());
        Keyed { song, title, key }
    }
}

/// The views of the songs of a sequence of songs with keys, in order.
spec fn keyed_views(keyed: Seq<Keyed>) -> Seq<SongView> {
    Seq::new(keyed.len(), |i: int| keyed[i].song@)
}

/// Sorts songs by title in natural order. Songs whose titles sort alike keep
/// the order in which they came.
pub fn sort_songs(songs: Vec<Song>) -> (out: Vec<Song>)
    ensures
        song_views(out@) == natural_sorted(song_views(songs@)),
        is_natural_sort(song_views(songs@), song_views(out@)),
{
    let ghost input = song_views(songs@);
    let ghost n = songs@.len() as int;
    let mut rest = songs;
    let mut keyed: Vec<Keyed> = Vec::new();
    assert(input.subrange(n, n) =~= Seq::<SongView>::empty());
    assert(keyed_views(keyed@) =~= Seq::<SongView>::empty());
    while rest.len() > 0
        invariant
            n == songs@.len(),
            input == song_views(songs@),
            rest@.len() <= n,
            rest@ == songs@.subrange(0, rest@.len() as int),
            forall|k: int| 0 <= k < keyed@.len() ==> (#[trigger] keyed@[k]).wf(),
            keyed_views(keyed@) == natural_sorted(input.subrange(rest@.len() as int, n)),
        decreases rest@.len(),
    {
        let ghost at = rest@.len() - 1;
        let ghost sorted = keyed_views(keyed@);
        let ghost before = keyed@;
        let song = rest.pop().unwrap();
        assert(song == songs@[at]);
        assert(song@ == input[at]);
        let fresh = Keyed::new(song);
        let mut j: usize = 0;
        while j < keyed.len() && compare_keyed(
            keyed[j].title.as_slice(),
            &keyed[j].key,
            fresh.title.as_slice(),
            &fresh.key,
        ) < 0
            invariant
                j <= keyed@.len(),
                fresh.wf(),
                fresh.song == song,
                keyed@ == before,
                forall|k: int| 0 <= k < keyed@.len() ==> (#[trigger] keyed@[k]).wf(),
                sorted == keyed_views(keyed@),
                first_not_before(sorted, song.title@, 0) == first_not_before(
                    sorted,
                    song.title@,
                    j as int,
                ),
            decreases keyed@.len() - j,
        {
            assert(sorted[j as int] == keyed@[j as int].song@);
            j = j + 1;
        }
        proof {
            if j < keyed.len() {
                assert(sorted[j as int] == keyed@[j as int].song@);
            }
            assert(j == first_not_before(sorted, song.title@, 0));
        }
        keyed.insert(j, fresh);
        proof {
            let part = input.subrange(at, n);
            assert(part.skip(1) =~= input.subrange(at + 1, n));
            assert(part[0] == input[at]);
            assert(keyed_views(keyed@) =~= sorted.insert(j as int, input[at]));
            assert forall|k: int| 0 <= k < keyed@.len() implies (#[trigger] keyed@[k]).wf() by {
                if k < j {
                    assert(keyed@[k] == before[k]);
                } else if k > j {
                    assert(keyed@[k] == before[k - 1]);
                }
            }
        }
    }
    proof {
        assert(input.subrange(0, n) =~= input);
        lemma_natural_sorted_is_sort(input);
    }
    let ghost sorted = keyed_views(keyed@);
    let ghost count = keyed@.len() as int;
    let mut out: Vec<Song> = Vec::new();
    assert(song_views(out@) =~= sorted.subrange(count, count));
    while keyed.len() > 0
        invariant
            count == sorted.len(),
            keyed@.len() <= count,
            keyed_views(keyed@) == sorted.subrange(0, keyed@.len() as int),
            song_views(out@) == sorted.subrange(keyed@.len() as int, count),
        decreases keyed@.len(),
    {
        let ghost at = keyed@.len() - 1;
        let ghost before = keyed@;
        let ghost done = song_views(out@);
        let last = keyed.pop().unwrap();
        assert(last == before[at]);
        assert(keyed_views(before)[at] == last.song@);
        out.insert(0, last.song);
        proof {
            assert(keyed_views(keyed@) =~= sorted.subrange(0, at));
            assert(song_views(out@) =~= done.insert(0, sorted[at]));
            assert(done.insert(0, sorted[at]) =~= sorted.subrange(at, count));
        }
    }
    assert(sorted.subrange(0, count) =~= sorted);
    out
}

} // verus!
