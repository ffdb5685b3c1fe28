//! The playback session: inserting and ejecting albums, skipping to a song,
//! speed, volume and pause.
//!
//! The audio channel itself is not part of this library. An operation that
//! needs a new channel comes in two steps: a request says what the channel is
//! to play, and the operation that takes `built` changes the state once the
//! caller has built that channel, or leaves it as it was where the caller
//! could not. The other operations hand back a [`Command`] for the channel
//! that is live.

use crate::player::{App, AppState, Notice, Rpm, MAX_VOLUME};
use crate::clock::Clock;
use vstd::prelude::*;

verus! {

/// What a new audio channel is to play.
#[derive(Clone, Copy, Debug, PartialEq, Eq, Structural)]
pub struct BuildRequest {
    /// The album.
    pub album: usize,
    /// The first song to play; the songs after it follow.
    pub first_song: usize,
    /// How far into the first song playing starts, in nanoseconds.
    pub offset: u64,
    /// The speed of the turntable.
    pub speed: Rpm,
    /// The volume in percent.
    pub volume: u32,
}

/// What the caller is to do with the live audio channel.
#[derive(Clone, Copy, Debug, PartialEq, Eq, Structural)]
pub enum Command {
    /// Nothing.
    Nothing,
    /// Close it.
    Close,
    /// Pause it.
    Pause,
    /// Let it play on.
    Play,
    /// Set its volume, in percent.
    SetVolume(u32),
}

impl App {
    /// The channel that inserting the selected album asks for: the album
    /// from its first song. `None` where no album is selected or the selected
    /// album is the one inserted.
    pub open spec fn insert_plan(self) -> Option<BuildRequest> {
        if self.selected_index < self.albums@.len() && self.playing_album != Some(
            self.selected_index,
        ) {
            Some(
                BuildRequest {
                    album: self.selected_index,
                    first_song: 0,
                    offset: 0,
                    speed: self.playback_speed,
                    volume: self.volume,
                },
            )
        } else {
            None
        }
    }

    /// The state once a channel for `request` plays from `now` on.
    pub open spec fn playing(self, request: BuildRequest, now: u64) -> App {
        App {
            playing_album: Some(request.album),
            state: AppState::Playing,
            clock: Clock::reset_at(now, request.offset),
            current_song_index: request.first_song,
            has_sink: true,
            playback_speed: request.speed,
            ..self
        }
    }

    /// The state after `insert_album(built, now)`.
    pub open spec fn after_insert(self, built: bool, now: u64) -> App {
        match self.insert_plan() {
            None => self,
            Some(request) => if built {
                App { song_cursor: Some(0), ..self.playing(request, now) }.with_message(
                    Notice::Inserted(request.album),
                    now,
                )
            } else {
                self.with_message(Notice::SourceFailed, now)
            },
        }
    }

    /// The state after `eject_current_album(now)`.
    pub open spec fn after_eject(self, now: u64) -> App {
        match self.playing_album {
            Some(playing) => App {
                state: AppState::Browsing,
                playing_album: None,
                clock: Clock::stopped(),
                current_song_index: 0,
                has_sink: false,
                ..self
            }.with_message(Notice::Ejected(playing), now),
            None => self,
        }
    }

    /// The channel that skipping to the song at the cursor asks for: the
    /// selected album from that song on. `None` where there is no such song.
    pub open spec fn skip_plan(self) -> Option<BuildRequest> {
        if self.song_at_cursor() < self.selected_song_count() {
            Some(
                BuildRequest {
                    album: self.selected_index,
                    first_song: self.song_at_cursor(),
                    offset: 0,
                    speed: self.playback_speed,
                    volume: self.volume,
                },
            )
        } else {
            None
        }
    }

    /// The state after `skip_to_song(built, now)`.
    pub open spec fn after_skip(self, built: bool, now: u64) -> App {
        match self.skip_plan() {
            None => self.with_message(Notice::NoSuchSong, now),
            Some(request) => if built {
                self.playing(request, now).with_message(
                    Notice::SkippedTo(request.album, request.first_song),
                    now,
                )
            } else {
                self.with_message(Notice::SourceFailed, now)
            },
        }
    }

    /// The channel that a change of speed to `target` at `now` asks for: the
    /// inserted album from the song that plays, taken up where it is at
    /// `now`, at the new speed. `None` where the speed is `target` already or
    /// no album is inserted.
    pub open spec fn speed_plan(self, target: Rpm, now: u64) -> Option<BuildRequest> {
        match self.playing_album {
            Some(playing) => if target != self.playback_speed {
                Some(
                    BuildRequest {
                        album: playing,
                        first_song: self.current_song_index,
                        offset: self.clock.elapsed_at(now) as u64,
                        speed: target,
                        volume: self.volume,
                    },
                )
            } else {
                None
            },
            None => None,
        }
    }

    /// The state after `update_speed(target, offset, built, now)`.
    pub open spec fn after_speed(self, target: Rpm, offset: u64, built: bool, now: u64) -> App {
        if target == self.playback_speed {
            self
        } else {
            match self.playing_album {
                None => App { playback_speed: target, ..self }.with_message(
                    Notice::Speed(target),
                    now,
                ),
                Some(playing) => if built {
                    self.playing(
                        BuildRequest {
                            album: playing,
                            first_song: self.current_song_index,
                            offset: offset,
                            speed: target,
                            volume: self.volume,
                        },
                        now,
                    ).with_message(Notice::Speed(target), now)
                } else {
                    self.with_message(Notice::SourceFailed, now)
                },
            }
        }
    }

    /// The volume one step up, at most the largest.
    pub open spec fn louder(self) -> u32 {
        if self.volume < MAX_VOLUME {
            (self.volume + 1) as u32
        } else {
            MAX_VOLUME
        }
    }

    /// The volume one step down, at least 0.
    pub open spec fn quieter(self) -> u32 {
        if self.volume > MAX_VOLUME {
            MAX_VOLUME
        } else if self.volume > 0 {
            (self.volume - 1) as u32
        } else {
            0
        }
    }

    /// The state in which the volume is `volume`, said at `now`.
    pub open spec fn with_volume(self, volume: u32, now: u64) -> App {
        App { volume: volume, ..self }.with_message(Notice::Volume(volume), now)
    }

    /// The state after `toggle_pause(now)`.
    pub open spec fn after_toggle_pause(self, now: u64) -> App {
        if self.has_sink {
            if self.clock.paused {
                App { clock: self.clock.resumed_at(now), ..self }.with_message(
                    Notice::Resumed,
                    now,
                )
            } else {
                App { clock: self.clock.paused_at(now), ..self }.with_message(Notice::Paused, now)
            }
        } else {
            self.with_message(Notice::NothingInserted, now)
        }
    }

    /// Effective elapsed time of the song that plays, at `now`, in
    /// nanoseconds.
    pub fn effective_elapsed(&self, now: u64) -> (elapsed: u64)
        ensures
            elapsed == self.clock.elapsed_at(now),
    {
        self.clock.effective_elapsed(now)
    }

    /// The speed as a factor of the normal speed: the turns a minute over 33.
    pub fn playback_factor(&self) -> (factor: (u32, u32))
        ensures
            factor.0 == self.playback_speed.turns(),
            factor.1 == 33,
    {
        (self.playback_speed.rpm(), 33)
    }

    /// The channel that `insert_album` needs built, if it needs one.
    pub fn insert_request(&self) -> (request: Option<BuildRequest>)
        ensures
            request == self.insert_plan(),
    {
        let inserted = match self.playing_album {
            Some(playing) => playing == self.selected_index,
            None => false,
        };
        if self.selected_index < self.albums.len() && !inserted {
            Some(
                BuildRequest {
                    album: self.selected_index,
                    first_song: 0,
                    offset: 0,
                    speed: self.playback_speed,
                    volume: self.volume,
                },
            )
        } else {
            None
        }
    }

    /// Inserts the selected album, in place of the one that is inserted, and
    /// plays it from its first song. Nothing happens where the selected album
    /// is inserted already.
    ///
    /// `built` says whether the caller has built the channel that
    /// [`App::insert_request`] asked for. Where it has not, only a message
    /// is set.
    pub fn insert_album(&mut self, built: bool, now: u64)
        ensures
            *final(self) == old(self).after_insert(built, now),
            old(self).wf() ==> final(self).wf(),
    {
        match self.insert_request() {
            None => {},
            Some(request) => {
                if built {
                    self.start_playing(request, now);
                    self.song_cursor = Some(0);
                    self.set_message(Notice::Inserted(request.album), now);
                } else {
                    self.set_message(Notice::SourceFailed, now);
                }
            },
        }
    }

    /// Takes a channel for `request` into the state: it plays from `now` on.
    fn start_playing(&mut self, request: BuildRequest, now: u64)
        ensures
            *final(self) == old(self).playing(request, now),
    {
        self.playing_album = Some(request.album);
        self.state = AppState::Playing;
        self.clock.reset(now, request.offset);
        self.current_song_index = request.first_song;
        self.has_sink = true;
        self.playback_speed = request.speed;
    }

    /// Ejects the inserted album: nothing plays, the clock is stopped. The
    /// caller closes the channel. Nothing happens where no album is inserted.
    pub fn eject_current_album(&mut self, now: u64) -> (command: Command)
        ensures
            *final(self) == old(self).after_eject(now),
            command == if old(self).playing_album is Some {
                Command::Close
            } else {
                Command::Nothing
            },
            old(self).wf() ==> final(self).wf(),
    {
        match self.playing_album {
            Some(playing) => {
                self.state = AppState::Browsing;
                self.playing_album = None;
                self.clock.clear();
                self.current_song_index = 0;
                self.has_sink = false;
                self.set_message(Notice::Ejected(playing), now);
                Command::Close
            },
            None => Command::Nothing,
        }
    }

    /// The channel that `skip_to_song` needs built, if there is a song at the
    /// cursor.
    pub fn skip_request(&self) -> (request: Option<BuildRequest>)
        ensures
            request == self.skip_plan(),
    {
        if self.selected_index >= self.albums.len() {
            return None;
        }
        let song = match self.song_cursor {
            Some(song) => song,
            None => 0,
        };
        if song < self.albums[self.selected_index].songs.len() {
            Some(
                BuildRequest {
                    album: self.selected_index,
                    first_song: song,
                    offset: 0,
                    speed: self.playback_speed,
                    volume: self.volume,
                },
            )
        } else {
            None
        }
    }

    /// Plays the selected album from the song at the cursor, whatever was
    /// inserted before. Where there is no such song only a message is set.
    ///
    /// `built` says whether the caller has built the channel that
    /// [`App::skip_request`] asked for. Where it has not, only a message is
    /// set.
    pub fn skip_to_song(&mut self, built: bool, now: u64)
        ensures
            *final(self) == old(self).after_skip(built, now),
            old(self).wf() ==> final(self).wf(),
    {
        match self.skip_request() {
            None => {
                self.set_message(Notice::NoSuchSong, now);
            },
            Some(request) => {
                if built {
                    self.start_playing(request, now);
                    self.set_message(Notice::SkippedTo(request.album, request.first_song), now);
                } else {
                    self.set_message(Notice::SourceFailed, now);
                }
            },
        }
    }

    /// The channel that a change of speed to `target` needs built, if it
    /// needs one.
    pub fn speed_request(&self, target: Rpm, now: u64) -> (request: Option<BuildRequest>)
        ensures
            request == self.speed_plan(target, now),
    {
        match self.playing_album {
            Some(playing) => {
                if target != self.playback_speed {
                    Some(
                        BuildRequest {
                            album: playing,
                            first_song: self.current_song_index,
                            offset: self.clock.effective_elapsed(now),
                            speed: target,
                            volume: self.volume,
                        },
                    )
                } else {
                    None
                }
            },
            None => None,
        }
    }

    /// Sets the speed to `target`. Nothing happens where that is the speed
    /// already. While no album is inserted the speed is only taken down.
    /// Otherwise the song that plays goes on at `offset`, at the new speed.
    ///
    /// `offset` and `built` are those of the channel that
    /// [`App::speed_request`] asked for: how far into the song it starts, and
    /// whether the caller has built it. Where it has not, only a message is
    /// set.
    pub fn update_speed(&mut self, target: Rpm, offset: u64, built: bool, now: u64)
        ensures
            *final(self) == old(self).after_speed(target, offset, built, now),
            old(self).wf() ==> final(self).wf(),
    {
        if target == self.playback_speed {
            return ;
        }
        match self.playing_album {
            None => {
                self.playback_speed = target;
                self.set_message(Notice::Speed(target), now);
            },
            Some(playing) => {
                if built {
                    let request = BuildRequest {
                        album: playing,
                        first_song: self.current_song_index,
                        offset,
                        speed: target,
                        volume: self.volume,
                    };
                    self.start_playing(request, now);
                    self.set_message(Notice::Speed(target), now);
                } else {
                    self.set_message(Notice::SourceFailed, now);
                }
            },
        }
    }

    /// Sets the next faster speed, as [`App::update_speed`] does.
    pub fn increase_speed(&mut self, offset: u64, built: bool, now: u64)
        ensures
            *final(self) == old(self).after_speed(
                old(self).playback_speed.faster_spec(),
                offset,
                built,
                now,
            ),
            old(self).wf() ==> final(self).wf(),
    {
        let target = self.playback_speed.faster();
        self.update_speed(target, offset, built, now);
    }

    /// Sets the next slower speed, as [`App::update_speed`] does.
    pub fn decrease_speed(&mut self, offset: u64, built: bool, now: u64)
        ensures
            *final(self) == old(self).after_speed(
                old(self).playback_speed.slower_spec(),
                offset,
                built,
                now,
            ),
            old(self).wf() ==> final(self).wf(),
    {
        let target = self.playback_speed.slower();
        self.update_speed(target, offset, built, now);
    }

    /// Turns the volume up by one percent, at most to 200, and says so. The
    /// caller sets the volume of the live channel, where there is one.
    pub fn increase_volume(&mut self, now: u64) -> (command: Command)
        ensures
            *final(self) == old(self).with_volume(old(self).louder(), now),
            command == if old(self).has_sink {
                Command::SetVolume(old(self).louder())
            } else {
                Command::Nothing
            },
            old(self).wf() ==> final(self).wf(),
    {
        let volume = if self.volume < MAX_VOLUME {
            self.volume + 1
        } else {
            MAX_VOLUME
        };
        self.apply_volume(volume, now)
    }

    /// Turns the volume down by one percent, at least to 0, and says so. The
    /// caller sets the volume of the live channel, where there is one.
    pub fn decrease_volume(&mut self, now: u64) -> (command: Command)
        ensures
            *final(self) == old(self).with_volume(old(self).quieter(), now),
            command == if old(self).has_sink {
                Command::SetVolume(old(self).quieter())
            } else {
                Command::Nothing
            },
            old(self).wf() ==> final(self).wf(),
    {
        let volume = if self.volume > MAX_VOLUME {
            MAX_VOLUME
        } else if self.volume > 0 {
            self.volume - 1
        } else {
            0
        };
        self.apply_volume(volume, now)
    }

    /// Takes down the volume and says so.
    fn apply_volume(&mut self, volume: u32, now: u64) -> (command: Command)
        ensures
            *final(self) == old(self).with_volume(volume, now),
            command == if old(self).has_sink {
                Command::SetVolume(volume)
            } else {
                Command::Nothing
            },
    {
        self.volume = volume;
        self.set_message(Notice::Volume(volume), now);
        if self.has_sink {
            Command::SetVolume(volume)
        } else {
            Command::Nothing
        }
    }

    /// Pauses what plays, or lets it go on where it is paused, and says so.
    /// Where no channel is live only a message is set.
    pub fn toggle_pause(&mut self, now: u64) -> (command: Command)
        ensures
            *final(self) == old(self).after_toggle_pause(now),
            command == if !old(self).has_sink {
                Command::Nothing
            } else if old(self).clock.paused {
                Command::Play
            } else {
                Command::Pause
            },
            old(self).wf() ==> final(self).wf(),
    {
        if self.has_sink {
            if self.clock.paused {
                self.clock.resume(now);
                self.set_message(Notice::Resumed, now);
                Command::Play
            } else {
                self.clock.pause(now);
                self.set_message(Notice::Paused, now);
                Command::Pause
            }
        } else {
            self.set_message(Notice::NothingInserted, now);
            Command::Nothing
        }
    }

    /// What the space bar does: [`App::toggle_pause`].
    pub fn space_action(&mut self, now: u64) -> (command: Command)
        ensures
            *final(self) == old(self).after_toggle_pause(now),
            command == if !old(self).has_sink {
                Command::Nothing
            } else if old(self).clock.paused {
                Command::Play
            } else {
                Command::Pause
            },
            old(self).wf() ==> final(self).wf(),
    {
        self.toggle_pause(now)
    }
}

} // verus!
