//! What the panels show: the status of the player and the start of each song
//! within its album.

use crate::player::App;
use crate::catalog::{Album, Song};
use vstd::prelude::*;

verus! {

/// The nanoseconds in a second.
pub const NANOS_PER_SECOND: u64 = 1_000_000_000;

/// The playing time, in seconds, of the first `n` songs, of all of them where
/// there are fewer.
pub open spec fn seconds_before(songs: Seq<Song>, n: int) -> int
    decreases n,
{
    if n <= 0 {
        0
    } else if n > songs.len() {
        seconds_before(songs, songs.len() as int)
    } else {
        seconds_before(songs, n - 1) + songs[n - 1].duration
    }
}

/// What the player panel shows while an album is inserted.
#[derive(Clone, Copy, Debug, PartialEq, Eq, Structural)]
pub struct PlayerStatus {
    /// The inserted album.
    pub album: usize,
    /// The song with which the channel was last built.
    pub song: usize,
    /// Whole seconds elapsed of the album: the songs before `song` and what
    /// has elapsed since.
    pub elapsed: u128,
    /// The whole minutes in `elapsed`.
    pub minutes: u128,
    /// The seconds of `elapsed` beyond `minutes`.
    pub seconds: u128,
    /// The volume in percent.
    pub volume: u32,
    /// The turns a minute.
    pub rpm: u32,
    /// True while paused.
    pub paused: bool,
}

/// Whole seconds elapsed of the inserted album of `app` at `now`: the playing
/// time of the songs before the current one, and the whole seconds of the
/// clock's elapsed time.
pub open spec fn album_elapsed(app: App, album: int, now: u64) -> int {
    seconds_before(app.albums@[album].songs@, app.current_song_index as int) + app.clock.elapsed_at(
        now,
    ) / (NANOS_PER_SECOND as int)
}

/// The status of `app` at `now`; `None` while no album is inserted.
pub open spec fn status_of(app: App, now: u64) -> Option<PlayerStatus> {
    match app.playing_album {
        Some(album) => if album < app.albums@.len() {
            Some(
                PlayerStatus {
                    album: album,
                    song: app.current_song_index,
                    elapsed: album_elapsed(app, album as int, now) as u128,
                    minutes: (album_elapsed(app, album as int, now) / 60) as u128,
                    seconds: (album_elapsed(app, album as int, now) % 60) as u128,
                    volume: app.volume,
                    rpm: app.playback_speed.turns() as u32,
                    paused: app.clock.paused,
                },
            )
        } else {
            None
        },
        None => None,
    }
}

/// A sum of `n` playing times fits in 128 bits with room to spare.
pub proof fn lemma_seconds_before_bound(songs: Seq<Song>, n: int)
    ensures
        0 <= seconds_before(songs, n) <= songs.len() * u64::MAX,
        n <= songs.len() ==> seconds_before(songs, n) <= (if n > 0 {
            n
        } else {
            0
        }) * u64::MAX,
    decreases n,
{
    if n <= 0 {
        assert(0 <= songs.len() * u64::MAX) by (nonlinear_arith);
    } else if n > songs.len() {
        lemma_seconds_before_bound(songs, songs.len() as int);
    } else {
        lemma_seconds_before_bound(songs, n - 1);
        let m: int = if n - 1 > 0 {
            n - 1
        } else {
            0
        };
        assert(m * u64::MAX + u64::MAX == n * u64::MAX) by (nonlinear_arith)
            requires
                m == n - 1,
        ;
        assert(n * u64::MAX <= songs.len() * u64::MAX) by (nonlinear_arith)
            requires
                n <= songs.len(),
        ;
    }
}

/// The playing time, in seconds, of the songs of `album` before song `index`.
pub fn played_before(album: &Album, index: usize) -> (total: u128)
    ensures
        total == seconds_before(album.songs@, index as int),
{
    let count = if index < album.songs.len() {
        index
    } else {
        album.songs.len()
    };
    let mut total: u128 = 0;
    let mut i: usize = 0;
    while i < count
        invariant
            i <= count <= album.songs@.len(),
            total == seconds_before(album.songs@, i as int),
        decreases count - i,
    {
        proof {
            lemma_seconds_before_bound(album.songs@, i as int);
            assert(i * u64::MAX <= usize::MAX * u64::MAX) by (nonlinear_arith)
                requires
                    i <= usize::MAX,
            ;
        }
        total = total + album.songs[i].duration as u128;
        i = i + 1;
    }
    total
}

/// The start of each song within its album, in seconds from the beginning of
/// the first: for each song the playing time of the songs before it.
pub fn song_start_times(album: &Album) -> (starts: Vec<u128>)
    ensures
        starts@.len() == album.songs@.len(),
        forall|i: int|
            0 <= i < starts@.len() ==> #[trigger] starts@[i] == seconds_before(album.songs@, i),
{
    let mut starts: Vec<u128> = Vec::new();
    let mut total: u128 = 0;
    let mut i: usize = 0;
    while i < album.songs.len()
        invariant
            i <= album.songs@.len(),
            starts@.len() == i,
            total == seconds_before(album.songs@, i as int),
            forall|k: int| 0 <= k < i ==> #[trigger] starts@[k] == seconds_before(album.songs@, k),
        decreases album.songs@.len() - i,
    {
        proof {
            lemma_seconds_before_bound(album.songs@, i as int);
            assert(i * u64::MAX <= usize::MAX * u64::MAX) by (nonlinear_arith)
                requires
                    i <= usize::MAX,
            ;
        }
        starts.push(total);
        total = total + album.songs[i].duration as u128;
        i = i + 1;
    }
    starts
}

/// The status that the player panel shows at `now`: which album and song
/// play, how much of the album has elapsed, in whole seconds and as minutes
/// and seconds, the volume, the speed and whether playing is paused. `None`
/// while no album is inserted.
pub fn render_vinyl_player(app: &App, now: u64) -> (status: Option<PlayerStatus>)
    ensures
        status == status_of(*app, now),
{
    match app.playing_album {
        Some(album) => {
            if album < app.albums.len() {
                let before = played_before(&app.albums[album], app.current_song_index);
                let current = app.clock.effective_elapsed(now) / NANOS_PER_SECOND;
                let count = app.albums[album].songs.len();
                proof {
                    lemma_seconds_before_bound(
                        app.albums@[album as int].songs@,
                        app.current_song_index as int,
                    );
                    assert(count * u64::MAX <= usize::MAX * u64::MAX) by (nonlinear_arith)
                        requires
                            count <= usize::MAX,
                    ;
                }
                let elapsed = before + current as u128;
                Some(
                    PlayerStatus {
                        album,
                        song: app.current_song_index,
                        elapsed,
                        minutes: elapsed / 60,
                        seconds: elapsed % 60,
                        volume: app.volume,
                        rpm: app.playback_speed.rpm(),
                        paused: app.clock.paused,
                    },
                )
            } else {
                None
            }
        },
        None => None,
    }
}

} // verus!
