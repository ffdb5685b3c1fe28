//! What each key does.

use crate::player::{App, Focus};
use crate::session::Command;
use vstd::prelude::*;

verus! {

/// A key as the terminal reports it.
#[derive(Clone, Copy, Debug, PartialEq, Eq, Structural)]
pub enum Key {
    /// A character.
    Char(char),
    /// The enter key.
    Enter,
    /// Any other key.
    Other,
}

/// What is left for the caller to do after a key.
#[derive(Clone, Copy, Debug, PartialEq, Eq, Structural)]
pub enum KeyAction {
    /// End the program.
    Quit,
    /// Do this with the live audio channel.
    Channel(Command),
    /// Insert the selected album: build the channel that
    /// [`App::insert_request`] asks for, then call [`App::insert_album`].
    Insert,
    /// Skip to the song at the cursor: build the channel that
    /// [`App::skip_request`] asks for, then call [`App::skip_to_song`].
    SkipToSong,
    /// Set the next faster speed: build the channel that
    /// [`App::speed_request`] asks for, then call [`App::increase_speed`].
    IncreaseSpeed,
    /// Set the next slower speed: build the channel that
    /// [`App::speed_request`] asks for, then call [`App::decrease_speed`].
    DecreaseSpeed,
}

/// The operation that a key stands for.
#[derive(Clone, Copy, Debug, PartialEq, Eq, Structural)]
pub enum Binding {
    Quit,
    NextBookmark,
    PrevBookmark,
    ShiftKey(char),
    Down,
    Up,
    Left,
    Right,
    Space,
    Enter,
    VolumeUp,
    VolumeDown,
    SpeedUp,
    SpeedDown,
    ToggleBookmark,
    JumpToPlaying,
    G,
    HalfPageDown,
    HalfPageUp,
    Nothing,
}

/// True for the capital letters `A`..=`Z`.
pub open spec fn is_capital(c: char) -> bool {
    'A' <= c && c <= 'Z'
}

/// The operation bound to `key`, typed with the control key where `control`
/// is true and with shift where `shift` is.
pub open spec fn binding_of(key: Key, control: bool, shift: bool) -> Binding {
    match key {
        Key::Enter => Binding::Enter,
        Key::Other => Binding::Nothing,
        Key::Char(c) => if c == 'q' {
            Binding::Quit
        } else if c == 'n' {
            if control || shift {
                Binding::PrevBookmark
            } else {
                Binding::NextBookmark
            }
        } else if c == 'N' {
            Binding::PrevBookmark
        } else if is_capital(c) {
            Binding::ShiftKey(c)
        } else if c == 'j' {
            Binding::Down
        } else if c == 'k' {
            Binding::Up
        } else if c == 'h' {
            Binding::Left
        } else if c == 'l' {
            Binding::Right
        } else if c == ' ' {
            Binding::Space
        } else if c == '+' || c == '=' {
            Binding::VolumeUp
        } else if c == '-' {
            Binding::VolumeDown
        } else if c == '>' {
            Binding::SpeedUp
        } else if c == '<' {
            Binding::SpeedDown
        } else if c == 'm' {
            Binding::ToggleBookmark
        } else if c == 'p' {
            Binding::JumpToPlaying
        } else if c == 'g' {
            Binding::G
        } else if c == 'd' && control {
            Binding::HalfPageDown
        } else if c == 'u' && control {
            Binding::HalfPageUp
        } else {
            Binding::Nothing
        },
    }
}

/// Finds the operation bound to a key.
pub fn bind(key: Key, control: bool, shift: bool) -> (binding: Binding)
    ensures
        binding == binding_of(key, control, shift),
{
    match key {
        Key::Enter => Binding::Enter,
        Key::Other => Binding::Nothing,
        Key::Char(c) => {
            if c == 'q' {
                Binding::Quit
            } else if c == 'n' {
                if control || shift {
                    Binding::PrevBookmark
                } else {
                    Binding::NextBookmark
                }
            } else if c == 'N' {
                Binding::PrevBookmark
            } else if 'A' <= c && c <= 'Z' {
                Binding::ShiftKey(c)
            } else if c == 'j' {
                Binding::Down
            } else if c == 'k' {
                Binding::Up
            } else if c == 'h' {
                Binding::Left
            } else if c == 'l' {
                Binding::Right
            } else if c == ' ' {
                Binding::Space
            } else if c == '+' || c == '=' {
                Binding::VolumeUp
            } else if c == '-' {
                Binding::VolumeDown
            } else if c == '>' {
                Binding::SpeedUp
            } else if c == '<' {
                Binding::SpeedDown
            } else if c == 'm' {
                Binding::ToggleBookmark
            } else if c == 'p' {
                Binding::JumpToPlaying
            } else if c == 'g' {
                Binding::G
            } else if c == 'd' && control {
                Binding::HalfPageDown
            } else if c == 'u' && control {
                Binding::HalfPageUp
            } else {
                Binding::Nothing
            }
        },
    }
}

impl App {
    /// The state with no `g` awaited.
    pub open spec fn settled(self) -> App {
        App { pending_g: false, ..self }
    }

    /// True where the selected album is the one inserted.
    pub open spec fn selected_is_inserted(self) -> bool {
        self.playing_album == Some(self.selected_index)
    }

    /// The state after the key that opens the list of songs: from the list
    /// of albums the keys go to the list of songs, with the cursor on the
    /// song that plays where the selected album is inserted, and on the first
    /// song otherwise.
    pub open spec fn after_right(self) -> App {
        if self.focus == Focus::Albums {
            App {
                focus: Focus::SongList,
                song_cursor: Some(
                    if self.selected_is_inserted() {
                        self.current_song_index
                    } else {
                        0
                    },
                ),
                ..self
            }
        } else {
            self
        }
    }

    /// The state after the key `g`: in the list of albums the second `g` in
    /// a row selects the first album, the first is only taken down.
    pub open spec fn after_g(self) -> App {
        if self.focus == Focus::Albums {
            if !self.pending_g {
                App { pending_g: true, ..self }
            } else {
                self.after_go_to_top().settled()
            }
        } else {
            self.settled()
        }
    }

    /// True where `after` and `action` are the state and what is left to do
    /// after the operation `binding` at `now`.
    ///
    /// Every operation but `g` ends the wait for a second `g`. The four
    /// operations that need a new audio channel change nothing else: the
    /// caller builds the channel and calls the operation itself.
    pub open spec fn key_effect(
        self,
        binding: Binding,
        now: u64,
        after: App,
        action: KeyAction,
    ) -> bool {
        match binding {
            Binding::Quit => after == self && action == KeyAction::Quit,
            Binding::NextBookmark => after == self.after_next_bookmark(now).settled() && action
                == KeyAction::Channel(Command::Nothing),
            Binding::PrevBookmark => after == self.after_prev_bookmark(now).settled() && action
                == KeyAction::Channel(Command::Nothing),
            Binding::ShiftKey(c) => after == self.after_shift_key(c, now).settled() && action
                == KeyAction::Channel(Command::Nothing),
            Binding::Down => after == (match self.focus {
                Focus::Vinyl => App { focus: Focus::Albums, ..self },
                Focus::Albums => self.after_next_album(),
                Focus::SongList => self.after_next_song(),
            }).settled() && action == KeyAction::Channel(Command::Nothing),
            Binding::Up => after == (match self.focus {
                Focus::Vinyl => self,
                Focus::Albums => self.after_previous_album(),
                Focus::SongList => self.after_previous_song(),
            }).settled() && action == KeyAction::Channel(Command::Nothing),
            Binding::Left => match self.focus {
                Focus::SongList => after == (App { focus: Focus::Albums, ..self }).settled()
                    && action == KeyAction::Channel(Command::Nothing),
                Focus::Vinyl => after == self.after_eject(now).settled() && action
                    == KeyAction::Channel(
                    if self.playing_album is Some {
                        Command::Close
                    } else {
                        Command::Nothing
                    },
                ),
                Focus::Albums => after == self.settled() && action == KeyAction::Channel(
                    Command::Nothing,
                ),
            },
            Binding::Right => after == self.after_right().settled() && action
                == KeyAction::Channel(Command::Nothing),
            Binding::Space => after == self.after_toggle_pause(now).settled() && action
                == KeyAction::Channel(
                if !self.has_sink {
                    Command::Nothing
                } else if self.clock.paused {
                    Command::Play
                } else {
                    Command::Pause
                },
            ),
            Binding::Enter => match self.focus {
                Focus::SongList => after == self.settled() && action == KeyAction::SkipToSong,
                _ => if self.selected_is_inserted() {
                    after == self.after_eject(now).settled() && action == KeyAction::Channel(
                        Command::Close,
                    )
                } else {
                    after == self.settled() && action == KeyAction::Insert
                },
            },
            Binding::VolumeUp => after == self.with_volume(self.louder(), now).settled() && action
                == KeyAction::Channel(
                if self.has_sink {
                    Command::SetVolume(self.louder())
                } else {
                    Command::Nothing
                },
            ),
            Binding::VolumeDown => after == self.with_volume(self.quieter(), now).settled()
                && action == KeyAction::Channel(
                if self.has_sink {
                    Command::SetVolume(self.quieter())
                } else {
                    Command::Nothing
                },
            ),
            Binding::SpeedUp => after == self.settled() && action == KeyAction::IncreaseSpeed,
            Binding::SpeedDown => after == self.settled() && action == KeyAction::DecreaseSpeed,
            Binding::ToggleBookmark => !after.pending_g && self.bookmark_toggled(
                App { pending_g: self.pending_g, ..after },
                now,
            ) && action == KeyAction::Channel(Command::Nothing),
            Binding::JumpToPlaying => after == self.after_jump_to_playing(now).settled() && action
                == KeyAction::Channel(Command::Nothing),
            Binding::G => after == self.after_g() && action == KeyAction::Channel(
                Command::Nothing,
            ),
            Binding::HalfPageDown => after == (if self.focus == Focus::Albums {
                self.after_half_page_down()
            } else {
                self
            }).settled() && action == KeyAction::Channel(Command::Nothing),
            Binding::HalfPageUp => after == (if self.focus == Focus::Albums {
                self.after_half_page_up()
            } else {
                self
            }).settled() && action == KeyAction::Channel(Command::Nothing),
            Binding::Nothing => after == self.settled() && action == KeyAction::Channel(
                Command::Nothing,
            ),
        }
    }

    /// Moves the selection or the focus for one of the keys that do so.
    fn key_move(&mut self, binding: Binding, now: u64) -> (action: KeyAction)
        requires
            binding == Binding::Down || binding == Binding::Up || binding == Binding::Left
                || binding == Binding::Right || binding == Binding::HalfPageDown || binding
                == Binding::HalfPageUp,
        ensures
            old(self).key_effect(binding, now, *final(self), action),
            old(self).wf() ==> final(self).wf(),
    {
        let mut action = KeyAction::Channel(Command::Nothing);
        match binding {
            Binding::Down => {
                match self.focus {
                    Focus::Vinyl => {
                        self.set_focus(Focus::Albums);
                    },
                    Focus::Albums => {
                        self.next_album();
                    },
                    Focus::SongList => {
                        self.next_song();
                    },
                }
            },
            Binding::Up => {
                match self.focus {
                    Focus::Vinyl => {},
                    Focus::Albums => {
                        self.previous_album();
                    },
                    Focus::SongList => {
                        self.previous_song();
                    },
                }
            },
            Binding::Left => {
                match self.focus {
                    Focus::SongList => {
                        self.set_focus(Focus::Albums);
                    },
                    Focus::Vinyl => {
                        action = KeyAction::Channel(self.eject_current_album(now));
                    },
                    Focus::Albums => {},
                }
            },
            Binding::Right => {
                if self.focus == Focus::Albums {
                    let inserted = match self.playing_album {
                        Some(playing) => playing == self.selected_index,
                        None => false,
                    };
                    self.focus = Focus::SongList;
                    self.song_cursor = Some(
                        if inserted {
                            self.current_song_index
                        } else {
                            0
                        },
                    );
                }
            },
            Binding::HalfPageDown => {
                if self.focus == Focus::Albums {
                    self.half_page_down_album();
                }
            },
            _ => {
                if self.focus == Focus::Albums {
                    self.half_page_up_album();
                }
            },
        }
        self.pending_g = false;
        action
    }

    /// Handles one of the keys that select an album by a bookmark or by what
    /// plays, set a bookmark, or come with shift.
    fn key_select(&mut self, binding: Binding, now: u64) -> (action: KeyAction)
        requires
            binding == Binding::NextBookmark || binding == Binding::PrevBookmark || binding
                == Binding::ToggleBookmark || binding == Binding::JumpToPlaying
                || binding is ShiftKey,
        ensures
            old(self).key_effect(binding, now, *final(self), action),
            old(self).wf() ==> final(self).wf(),
    {
        match binding {
            Binding::NextBookmark => {
                self.next_bookmark(now);
            },
            Binding::PrevBookmark => {
                self.prev_bookmark(now);
            },
            Binding::ShiftKey(c) => {
                self.handle_shift_key(c, now);
            },
            Binding::ToggleBookmark => {
                self.toggle_bookmark(now);
                let ghost toggled = *self;
                self.pending_g = false;
                assert((App { pending_g: old(self).pending_g, ..*self }) == toggled);
                return KeyAction::Channel(Command::Nothing);
            },
            _ => {
                self.jump_to_playing_album(now);
            },
        }
        self.pending_g = false;
        KeyAction::Channel(Command::Nothing)
    }

    /// Handles one of the keys of the player, and the keys that do nothing.
    fn key_play(&mut self, binding: Binding, now: u64) -> (action: KeyAction)
        requires
            binding == Binding::Space || binding == Binding::Enter || binding == Binding::VolumeUp
                || binding == Binding::VolumeDown || binding == Binding::SpeedUp || binding
                == Binding::SpeedDown || binding == Binding::Nothing,
        ensures
            old(self).key_effect(binding, now, *final(self), action),
            old(self).wf() ==> final(self).wf(),
    {
        let mut action = KeyAction::Channel(Command::Nothing);
        match binding {
            Binding::Space => {
                action = KeyAction::Channel(self.space_action(now));
            },
            Binding::Enter => {
                match self.focus {
                    Focus::SongList => {
                        action = KeyAction::SkipToSong;
                    },
                    _ => {
                        let inserted = match self.playing_album {
                            Some(playing) => playing == self.selected_index,
                            None => false,
                        };
                        if inserted {
                            action = KeyAction::Channel(self.eject_current_album(now));
                        } else {
                            action = KeyAction::Insert;
                        }
                    },
                }
            },
            Binding::VolumeUp => {
                action = KeyAction::Channel(self.increase_volume(now));
            },
            Binding::VolumeDown => {
                action = KeyAction::Channel(self.decrease_volume(now));
            },
            Binding::SpeedUp => {
                action = KeyAction::IncreaseSpeed;
            },
            Binding::SpeedDown => {
                action = KeyAction::DecreaseSpeed;
            },
            _ => {},
        }
        self.pending_g = false;
        action
    }

    /// Handles the key `g`.
    fn key_g(&mut self, now: u64) -> (action: KeyAction)
        ensures
            old(self).key_effect(Binding::G, now, *final(self), action),
            old(self).wf() ==> final(self).wf(),
    {
        if self.focus == Focus::Albums {
            if !self.pending_g {
                self.pending_g = true;
            } else {
                self.go_to_top_album();
                self.pending_g = false;
            }
        } else {
            self.pending_g = false;
        }
        KeyAction::Channel(Command::Nothing)
    }

    /// Does what the key asks for, as far as it needs no new audio channel,
    /// and says what is left for the caller to do.
    pub fn handle_key(
        &mut self,
        key: Key,
        control: bool,
        shift: bool,
        now: u64,
    ) -> (action: KeyAction)
        ensures
            old(self).key_effect(binding_of(key, control, shift), now, *final(self), action),
            old(self).wf() ==> final(self).wf(),
    {
        let binding = bind(key, control, shift);
        match binding {
            Binding::Quit => KeyAction::Quit,
            Binding::G => self.key_g(now),
            Binding::Down | Binding::Up | Binding::Left | Binding::Right | Binding::HalfPageDown
            | Binding::HalfPageUp => self.key_move(binding, now),
            Binding::NextBookmark | Binding::PrevBookmark | Binding::ToggleBookmark
            | Binding::JumpToPlaying | Binding::ShiftKey(_) => self.key_select(binding, now),
            Binding::Space | Binding::Enter | Binding::VolumeUp | Binding::VolumeDown
            | Binding::SpeedUp | Binding::SpeedDown | Binding::Nothing => self.key_play(
                binding,
                now,
            ),
        }
    }
}

} // verus!
