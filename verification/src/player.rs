//! The player's state, and how the user moves about in it.

use crate::catalog::Album;
use crate::clock::Clock;
use rand::seq::SliceRandom;
use vstd::prelude::*;

verus! {

/// The panel that takes the keys.
#[derive(Clone, Copy, Debug, PartialEq, Eq, Structural)]
pub enum Focus {
    /// The player.
    Vinyl,
    /// The list of albums.
    Albums,
    /// The list of songs of the selected album.
    SongList,
}

/// What the player is doing.
#[derive(Clone, Copy, Debug, PartialEq, Eq, Structural)]
pub enum AppState {
    /// No album is inserted.
    Browsing,
    /// An album is inserted.
    Playing,
    /// The songs of an album are looked through.
    SongList,
}

/// The speed of the turntable, in turns a minute.
#[derive(Clone, Copy, Debug, PartialEq, Eq, Structural)]
pub enum Rpm {
    Rpm33,
    Rpm45,
    Rpm78,
}

/// What the player has to tell the user. Albums and songs are given by their
/// index.
#[derive(Clone, Copy, Debug, PartialEq, Eq, Structural)]
pub enum Notice {
    /// The album was bookmarked.
    Bookmarked(usize),
    /// The album's bookmark was removed.
    BookmarkRemoved(usize),
    /// The selection moved to this bookmarked album.
    JumpedToBookmark(usize),
    /// The selection moved to the album that is inserted.
    JumpedToPlaying(usize),
    /// There is no inserted album to jump to.
    NoAlbumPlaying,
    /// The songs can be shown only of an album that is inserted.
    NotInserted,
    /// The album was inserted and plays.
    Inserted(usize),
    /// The album was ejected.
    Ejected(usize),
    /// Playing goes on with this song of this album.
    SkippedTo(usize, usize),
    /// There is no such song to skip to.
    NoSuchSong,
    /// The speed was set.
    Speed(Rpm),
    /// The volume was set, in percent.
    Volume(u32),
    /// Playing goes on after a pause.
    Resumed,
    /// Playing is paused.
    Paused,
    /// Nothing is inserted that could be paused or go on.
    NothingInserted,
    /// An audio file could not be opened or decoded; nothing was changed.
    SourceFailed,
}

/// The state of the player.
#[derive(Debug)]
pub struct App {
    /// The catalog.
    pub albums: Vec<Album>,
    /// What the player is doing.
    pub state: AppState,
    /// The selected album.
    pub selected_index: usize,
    /// The inserted album, if any.
    pub playing_album: Option<usize>,
    /// The clock of the song that plays.
    pub clock: Clock,
    /// The album that the list of albums shows as selected.
    pub album_cursor: Option<usize>,
    /// The song that the list of songs shows as selected.
    pub song_cursor: Option<usize>,
    /// True while an audio channel is live.
    pub has_sink: bool,
    /// The last thing the user was told, until it expires.
    pub current_message: Option<Notice>,
    /// The volume in percent, from 0 to 200.
    pub volume: u32,
    /// The song with which the channel was last built.
    pub current_song_index: usize,
    /// The panel that takes the keys.
    pub focus: Focus,
    /// The phrase shown beside the program's name.
    pub title_phrase: String,
    /// The speed of the turntable.
    pub playback_speed: Rpm,
    /// True after one `g`, while a second is awaited.
    pub pending_g: bool,
    /// When `current_message` was set.
    pub message_time: Option<u64>,
}

/// The largest volume, in percent.
pub const MAX_VOLUME: u32 = 200;

/// The volume of a new player, in percent.
pub const START_VOLUME: u32 = 25;

/// How long a message is shown, in nanoseconds.
pub const MESSAGE_LIFETIME: u64 = 3_000_000_000;

impl Rpm {
    /// The number of turns a minute.
    pub open spec fn turns(self) -> int {
        match self {
            Rpm::Rpm33 => 33,
            Rpm::Rpm45 => 45,
            Rpm::Rpm78 => 78,
        }
    }

    /// The next faster speed; the fastest stays.
    pub open spec fn faster_spec(self) -> Rpm {
        match self {
            Rpm::Rpm33 => Rpm::Rpm45,
            Rpm::Rpm45 => Rpm::Rpm78,
            Rpm::Rpm78 => Rpm::Rpm78,
        }
    }

    /// The next slower speed; the slowest stays.
    pub open spec fn slower_spec(self) -> Rpm {
        match self {
            Rpm::Rpm78 => Rpm::Rpm45,
            Rpm::Rpm45 => Rpm::Rpm33,
            Rpm::Rpm33 => Rpm::Rpm33,
        }
    }

    /// The number of turns a minute: 33, 45 or 78.
    pub fn rpm(self) -> (r: u32)
        ensures
            r == self.turns(),
    {
        match self {
            Rpm::Rpm33 => 33,
            Rpm::Rpm45 => 45,
            Rpm::Rpm78 => 78,
        }
    }

    /// The next faster speed; the fastest stays.
    #[verifier::when_used_as_spec(faster_spec)]
    pub fn faster(self) -> (r: Rpm)
        ensures
            r == self.faster_spec(),
    {
        match self {
            Rpm::Rpm33 => Rpm::Rpm45,
            Rpm::Rpm45 => Rpm::Rpm78,
            Rpm::Rpm78 => Rpm::Rpm78,
        }
    }

    /// The next slower speed; the slowest stays.
    #[verifier::when_used_as_spec(slower_spec)]
    pub fn slower(self) -> (r: Rpm)
        ensures
            r == self.slower_spec(),
    {
        match self {
            Rpm::Rpm78 => Rpm::Rpm45,
            Rpm::Rpm45 => Rpm::Rpm33,
            Rpm::Rpm33 => Rpm::Rpm33,
        }
    }
}

impl App {
    /// The player's invariant: every index it holds is within the catalog,
    /// an audio channel is live exactly while an album is inserted, and the
    /// clock and the volume are valid.
    pub open spec fn wf(&self) -> bool {
        &&& self.albums@.len() > 0 ==> self.selected_index < self.albums@.len()
        &&& self.albums@.len() == 0 ==> self.selected_index == 0
        &&& match self.playing_album {
            Some(p) => p < self.albums@.len() && self.has_sink && self.clock.playback_start is Some,
            None => !self.has_sink && self.clock == Clock::stopped(),
        }
        &&& self.clock.wf()
        &&& self.volume <= MAX_VOLUME
    }

    /// The state in which the message `notice` was set at `now`, and nothing
    /// else was changed.
    pub open spec fn with_message(self, notice: Notice, now: u64) -> App {
        App { current_message: Some(notice), message_time: Some(now), ..self }
    }

    /// Tells the user `notice`, from `now` on.
    pub fn set_message(&mut self, notice: Notice, now: u64)
        ensures
            *final(self) == old(self).with_message(notice, now),
    {
        self.current_message = Some(notice);
        self.message_time = Some(now);
    }

    /// The state after a tick at `now`: a message that has been shown for its
    /// whole lifetime is gone.
    pub open spec fn ticked(self, now: u64) -> App {
        match self.message_time {
            Some(since) => if now - since >= MESSAGE_LIFETIME {
                App { current_message: None, message_time: None, ..self }
            } else {
                self
            },
            None => self,
        }
    }

    /// Lets time pass: takes away a message that has been shown for three
    /// seconds.
    pub fn on_tick(&mut self, now: u64)
        ensures
            *final(self) == old(self).ticked(now),
            old(self).wf() ==> final(self).wf(),
    {
        match self.message_time {
            Some(since) => {
                if now >= since && now - since >= MESSAGE_LIFETIME {
                    self.current_message = None;
                    self.message_time = None;
                }
            },
            None => {},
        }
    }
}

/// The phrases of which one is shown beside the program's name.
pub open spec fn title_phrases() -> Seq<Seq<char>> {
    seq![
        "Spinning Vinyl..."@,
        "Warm Crackle Vibes"@,
        "Analog Dreams"@,
        "Groove On!"@,
        "Retro Beats"@,
        "Sonic Nostalgia"@,
        "Vinyl Vibes"@,
        "Spin It to Win It"@,
    ]
}

/// One of `phrases`, picked at random by the rand crate's
/// `SliceRandom::choose` with the generator of the running thread.
///
/// Trusted: that what comes back is an element of `phrases`, and that nothing
/// comes back only where there is none to pick. Which element it is depends on
/// chance. The generator gives up where the system has no random numbers for
/// it.
#[verifier::external_body]
fn choose_phrase(phrases: &Vec<&'static str>) -> (r: Option<&'static str>)
    ensures
        match r {
            Some(phrase) => phrases@.contains(phrase),
            None => phrases@.len() == 0,
        },
{
    phrases.choose(&mut rand::thread_rng()).copied()
}

impl App {
    /// True where `self` is the state of a player that was just set up with
    /// the catalog `albums`: the first album is selected, nothing is
    /// inserted, the keys go to the list of albums, the speed is 33 and the
    /// volume a quarter.
    pub open spec fn is_fresh(&self, albums: Vec<Album>) -> bool {
        &&& self.albums == albums
        &&& self.state == AppState::Browsing
        &&& self.selected_index == 0
        &&& self.playing_album is None
        &&& self.clock == Clock::stopped()
        &&& self.album_cursor == if albums@.len() > 0 {
            Some(0usize)
        } else {
            None
        }
        &&& self.song_cursor == Some(0usize)
        &&& !self.has_sink
        &&& self.current_message is None
        &&& self.volume == START_VOLUME
        &&& self.current_song_index == 0
        &&& self.focus == Focus::Albums
        &&& self.playback_speed == Rpm::Rpm33
        &&& !self.pending_g
        &&& self.message_time is None
    }

    /// Sets up a player with the catalog `albums` and the title phrase
    /// `title_phrase`.
    pub fn with_phrase(albums: Vec<Album>, title_phrase: String) -> (app: App)
        ensures
            app.is_fresh(albums),
            app.title_phrase == title_phrase,
            app.wf(),
    {
        let album_cursor = if albums.len() > 0 {
            Some(0)
        } else {
            None
        };
        App {
            albums,
            state: AppState::Browsing,
            selected_index: 0,
            playing_album: None,
            clock: Clock::new(),
            album_cursor,
            song_cursor: Some(0),
            has_sink: false,
            current_message: None,
            volume: START_VOLUME,
            current_song_index: 0,
            focus: Focus::Albums,
            title_phrase,
            playback_speed: Rpm::Rpm33,
            pending_g: false,
            message_time: None,
        }
    }

    /// Sets up a player with the catalog `albums` and a title phrase picked
    /// at random among [`title_phrases`].
    pub fn new(albums: Vec<Album>) -> (app: App)
        ensures
            app.is_fresh(albums),
            title_phrases().contains(app.title_phrase@),
            app.wf(),
    {
        let phrases: Vec<&'static str> = vec![
            "Spinning Vinyl...",
            "Warm Crackle Vibes",
            "Analog Dreams",
            "Groove On!",
            "Retro Beats",
            "Sonic Nostalgia",
            "Vinyl Vibes",
            "Spin It to Win It",
        ];
        proof {
            assert(phrases@.len() == 8);
            assert forall|i: int| 0 <= i < 8 implies (#[trigger] phrases@[i])@ == title_phrases()[i] by {}
        }
        match choose_phrase(&phrases) {
            Some(phrase) => {
                proof {
                    let i = choose|i: int| 0 <= i < phrases@.len() && phrases@[i] == phrase;
                    assert(phrase@ == title_phrases()[i]);
                }
                App::with_phrase(albums, phrase.to_owned())
            },
            None => App::with_phrase(albums, "Spinning Vinyl...".to_owned()),
        }
    }
}

} // verus!
