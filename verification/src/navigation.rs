//! Moving the selection through the albums and the songs, bookmarks, and the
//! keys that change the focus.

use crate::player::{App, Focus, Notice};
use crate::catalog::Album;
use vstd::prelude::*;

verus! {

/// The larger of `len / 2` and 1: how far half a page moves the selection.
pub open spec fn half_page(len: int) -> int {
    if len / 2 >= 1 {
        len / 2
    } else {
        1
    }
}

/// Which albums are bookmarked, by index.
pub open spec fn bookmarks_of(albums: Seq<Album>) -> Seq<bool> {
    Seq::new(albums.len(), |i: int| albums[i].bookmarked)
}

/// The first bookmarked index met from `start` going forward by `offset`
/// steps or more, wrapping at the end, before the walk has gone round once;
/// the walk ends on `start` itself.
pub open spec fn bookmark_ahead(marks: Seq<bool>, start: int, offset: int) -> Option<int>
    decreases marks.len() - offset + 1,
{
    if offset < 1 || offset > marks.len() {
        None
    } else if marks[(start + offset) % (marks.len() as int)] {
        Some((start + offset) % (marks.len() as int))
    } else {
        bookmark_ahead(marks, start, offset + 1)
    }
}

/// The first bookmarked index met from `start` going backward by `offset`
/// steps or more, wrapping at the beginning, before the walk has gone round
/// once; the walk ends on `start` itself.
pub open spec fn bookmark_behind(marks: Seq<bool>, start: int, offset: int) -> Option<int>
    decreases marks.len() - offset + 1,
{
    if offset < 1 || offset > marks.len() {
        None
    } else if marks[(start + marks.len() - offset) % (marks.len() as int)] {
        Some((start + marks.len() - offset) % (marks.len() as int))
    } else {
        bookmark_behind(marks, start, offset + 1)
    }
}

/// The album `album` with its bookmark set where it was not, and removed
/// where it was.
pub open spec fn toggled(album: Album) -> Album {
    Album { bookmarked: !album.bookmarked, ..album }
}

impl App {
    /// The state with album `index` selected.
    pub open spec fn selecting(self, index: usize) -> App {
        App { selected_index: index, album_cursor: Some(index), ..self }
    }

    /// The state after `next_album`.
    pub open spec fn after_next_album(self) -> App {
        if self.albums@.len() > 0 && self.selected_index < self.albums@.len() - 1 {
            self.selecting((self.selected_index + 1) as usize)
        } else {
            self
        }
    }

    /// The state after `previous_album`.
    pub open spec fn after_previous_album(self) -> App {
        if self.albums@.len() == 0 {
            self
        } else if self.selected_index == 0 {
            App { focus: Focus::Vinyl, ..self }
        } else {
            self.selecting((self.selected_index - 1) as usize)
        }
    }

    /// The state after `go_to_top_album`.
    pub open spec fn after_go_to_top(self) -> App {
        if self.albums@.len() > 0 {
            self.selecting(0)
        } else {
            self
        }
    }

    /// The state after `go_to_bottom_album`.
    pub open spec fn after_go_to_bottom(self) -> App {
        if self.albums@.len() > 0 {
            self.selecting((self.albums@.len() - 1) as usize)
        } else {
            self
        }
    }

    /// The state after `half_page_down_album`.
    pub open spec fn after_half_page_down(self) -> App {
        if self.albums@.len() > 0 {
            let target = self.selected_index + half_page(self.albums@.len() as int);
            if target < self.albums@.len() - 1 {
                self.selecting(target as usize)
            } else {
                self.selecting((self.albums@.len() - 1) as usize)
            }
        } else {
            self
        }
    }

    /// The state after `half_page_up_album`.
    pub open spec fn after_half_page_up(self) -> App {
        if self.albums@.len() > 0 {
            let target = self.selected_index - half_page(self.albums@.len() as int);
            if target > 0 {
                self.selecting(target as usize)
            } else {
                self.selecting(0)
            }
        } else {
            self
        }
    }

    /// The number of songs of the selected album, 0 where no album is
    /// selected.
    pub open spec fn selected_song_count(self) -> int {
        if self.selected_index < self.albums@.len() {
            self.albums@[self.selected_index as int].songs@.len() as int
        } else {
            0
        }
    }

    /// The song that the list of songs shows as selected, the first where
    /// none is.
    pub open spec fn song_at_cursor(self) -> usize {
        match self.song_cursor {
            Some(song) => song,
            None => 0,
        }
    }

    /// The state after `next_song`.
    pub open spec fn after_next_song(self) -> App {
        if self.focus == Focus::SongList && self.selected_song_count() > 0 {
            if self.song_at_cursor() + 1 >= self.selected_song_count() {
                App { song_cursor: Some(self.song_at_cursor()), ..self }
            } else {
                App { song_cursor: Some((self.song_at_cursor() + 1) as usize), ..self }
            }
        } else {
            self
        }
    }

    /// The state after `previous_song`.
    pub open spec fn after_previous_song(self) -> App {
        if self.focus == Focus::SongList && self.selected_song_count() > 0 {
            if self.song_at_cursor() == 0 {
                App { song_cursor: Some(0), ..self }
            } else {
                App { song_cursor: Some((self.song_at_cursor() - 1) as usize), ..self }
            }
        } else {
            self
        }
    }

    /// Moves the selection to the next album, if there is one.
    pub fn next_album(&mut self)
        ensures
            *final(self) == old(self).after_next_album(),
            old(self).wf() ==> final(self).wf(),
    {
        if self.albums.len() > 0 && self.selected_index < self.albums.len() - 1 {
            self.selected_index = self.selected_index + 1;
            self.album_cursor = Some(self.selected_index);
        }
    }

    /// Moves the selection to the album before, or from the first album up
    /// to the player.
    pub fn previous_album(&mut self)
        ensures
            *final(self) == old(self).after_previous_album(),
            old(self).wf() ==> final(self).wf(),
    {
        if self.albums.len() == 0 {
            return ;
        }
        if self.selected_index == 0 {
            self.focus = Focus::Vinyl;
        } else {
            self.selected_index = self.selected_index - 1;
            self.album_cursor = Some(self.selected_index);
        }
    }

    /// Selects the first album.
    pub fn go_to_top_album(&mut self)
        ensures
            *final(self) == old(self).after_go_to_top(),
            old(self).wf() ==> final(self).wf(),
    {
        if self.albums.len() > 0 {
            self.selected_index = 0;
            self.album_cursor = Some(0);
        }
    }

    /// Selects the last album.
    pub fn go_to_bottom_album(&mut self)
        ensures
            *final(self) == old(self).after_go_to_bottom(),
            old(self).wf() ==> final(self).wf(),
    {
        if self.albums.len() > 0 {
            let last = self.albums.len() - 1;
            self.selected_index = last;
            self.album_cursor = Some(last);
        }
    }

    /// Moves the selection down by half the catalog, at least by one album
    /// and at most to the last.
    pub fn half_page_down_album(&mut self)
        ensures
            *final(self) == old(self).after_half_page_down(),
            old(self).wf() ==> final(self).wf(),
    {
        let len = self.albums.len();
        if len == 0 {
            return ;
        }
        let half = len / 2;
        let step = if half >= 1 {
            half
        } else {
            1
        };
        let target = self.selected_index.saturating_add(step);
        let next = if target < len - 1 {
            target
        } else {
            len - 1
        };
        self.selected_index = next;
        self.album_cursor = Some(next);
    }

    /// Moves the selection up by half the catalog, at least by one album and
    /// at most to the first.
    pub fn half_page_up_album(&mut self)
        ensures
            *final(self) == old(self).after_half_page_up(),
            old(self).wf() ==> final(self).wf(),
    {
        let len = self.albums.len();
        if len == 0 {
            return ;
        }
        let half = len / 2;
        let step = if half >= 1 {
            half
        } else {
            1
        };
        let next = self.selected_index.saturating_sub(step);
        self.selected_index = next;
        self.album_cursor = Some(next);
    }

    /// Moves the song cursor to the next song of the selected album, while
    /// the keys go to the list of songs.
    pub fn next_song(&mut self)
        ensures
            *final(self) == old(self).after_next_song(),
            old(self).wf() ==> final(self).wf(),
    {
        if self.focus != Focus::SongList || self.selected_index >= self.albums.len() {
            return ;
        }
        let count = self.albums[self.selected_index].songs.len();
        if count == 0 {
            return ;
        }
        let cur = match self.song_cursor {
            Some(song) => song,
            None => 0,
        };
        let next = if cur >= count - 1 {
            cur
        } else {
            cur + 1
        };
        self.song_cursor = Some(next);
    }

    /// Moves the song cursor to the song before, while the keys go to the
    /// list of songs.
    pub fn previous_song(&mut self)
        ensures
            *final(self) == old(self).after_previous_song(),
            old(self).wf() ==> final(self).wf(),
    {
        if self.focus != Focus::SongList || self.selected_index >= self.albums.len() {
            return ;
        }
        if self.albums[self.selected_index].songs.len() == 0 {
            return ;
        }
        let cur = match self.song_cursor {
            Some(song) => song,
            None => 0,
        };
        let prev = if cur == 0 {
            cur
        } else {
            cur - 1
        };
        self.song_cursor = Some(prev);
    }

    /// Gives the keys to `new_focus`.
    pub fn set_focus(&mut self, new_focus: Focus)
        ensures
            *final(self) == (App { focus: new_focus, ..*old(self) }),
            old(self).wf() ==> final(self).wf(),
    {
        self.focus = new_focus;
    }
}

impl App {
    /// True where `other` differs from `self` at most in the catalog and in
    /// the message.
    pub open spec fn same_but_albums_and_message(self, other: App) -> bool {
        &&& other.state == self.state
        &&& other.selected_index == self.selected_index
        &&& other.playing_album == self.playing_album
        &&& other.clock == self.clock
        &&& other.album_cursor == self.album_cursor
        &&& other.song_cursor == self.song_cursor
        &&& other.has_sink == self.has_sink
        &&& other.volume == self.volume
        &&& other.current_song_index == self.current_song_index
        &&& other.focus == self.focus
        &&& other.title_phrase == self.title_phrase
        &&& other.playback_speed == self.playback_speed
        &&& other.pending_g == self.pending_g
    }

    /// True where the keys go to the list of albums and an album is selected.
    pub open spec fn album_in_hand(self) -> bool {
        self.focus == Focus::Albums && self.selected_index < self.albums@.len()
    }

    /// True where `after` is the state after `toggle_bookmark` at `now`:
    /// while the keys go to the list of albums and an album is selected, that
    /// album's bookmark is set where it was not and removed where it was, and
    /// a message says which; otherwise nothing is changed.
    pub open spec fn bookmark_toggled(self, after: App, now: u64) -> bool {
        if self.album_in_hand() {
            &&& after.albums@ == self.albums@.update(
                self.selected_index as int,
                toggled(self.albums@[self.selected_index as int]),
            )
            &&& after.current_message == Some(
                if self.albums@[self.selected_index as int].bookmarked {
                    Notice::BookmarkRemoved(self.selected_index)
                } else {
                    Notice::Bookmarked(self.selected_index)
                },
            )
            &&& after.message_time == Some(now)
            &&& self.same_but_albums_and_message(after)
        } else {
            after == self
        }
    }

    /// The state after `next_bookmark` at `now`.
    pub open spec fn after_next_bookmark(self, now: u64) -> App {
        if self.focus == Focus::Albums && self.albums@.len() > 0 {
            match bookmark_ahead(bookmarks_of(self.albums@), self.selected_index as int, 1) {
                Some(found) => self.selecting(found as usize).with_message(
                    Notice::JumpedToBookmark(found as usize),
                    now,
                ),
                None => self,
            }
        } else {
            self
        }
    }

    /// The state after `prev_bookmark` at `now`.
    pub open spec fn after_prev_bookmark(self, now: u64) -> App {
        if self.focus == Focus::Albums && self.albums@.len() > 0 {
            match bookmark_behind(bookmarks_of(self.albums@), self.selected_index as int, 1) {
                Some(found) => self.selecting(found as usize).with_message(
                    Notice::JumpedToBookmark(found as usize),
                    now,
                ),
                None => self,
            }
        } else {
            self
        }
    }

    /// The state after `jump_to_playing_album` at `now`.
    pub open spec fn after_jump_to_playing(self, now: u64) -> App {
        match self.playing_album {
            Some(playing) => App { focus: Focus::Albums, ..self.selecting(playing) }.with_message(
                Notice::JumpedToPlaying(playing),
                now,
            ),
            None => self.with_message(Notice::NoAlbumPlaying, now),
        }
    }

    /// The state after the key `key`, typed with shift, at `now`.
    pub open spec fn after_shift_key(self, key: char, now: u64) -> App {
        if key == 'J' && self.focus == Focus::Vinyl {
            App { focus: Focus::Albums, ..self }
        } else if key == 'K' && (self.focus == Focus::Albums || self.focus == Focus::SongList) {
            App { focus: Focus::Vinyl, ..self }
        } else if key == 'L' && self.focus == Focus::Albums {
            if self.playing_album == Some(self.selected_index) {
                App { focus: Focus::SongList, ..self }
            } else {
                self.with_message(Notice::NotInserted, now)
            }
        } else if key == 'H' && self.focus == Focus::SongList {
            App { focus: Focus::Albums, ..self }
        } else if key == 'G' && self.focus == Focus::Albums {
            self.after_go_to_bottom()
        } else {
            self
        }
    }

    /// Sets the bookmark of the selected album, or removes it where it is
    /// set, and says so. Only while the keys go to the list of albums.
    pub fn toggle_bookmark(&mut self, now: u64)
        ensures
            old(self).bookmark_toggled(*final(self), now),
            old(self).wf() ==> final(self).wf(),
    {
        if self.focus != Focus::Albums || self.selected_index >= self.albums.len() {
            return ;
        }
        let index = self.selected_index;
        let marked = !self.albums[index].bookmarked;
        self.albums[index].bookmarked = marked;
        assert(self.albums@ =~= old(self).albums@.update(
            index as int,
            toggled(old(self).albums@[index as int]),
        ));
        if marked {
            self.set_message(Notice::Bookmarked(index), now);
        } else {
            self.set_message(Notice::BookmarkRemoved(index), now);
        }
    }

    /// The bookmarked album that comes next after the selected one, going
    /// round the catalog once; the selected album itself comes last.
    pub fn find_next_bookmark(&self) -> (found: Option<usize>)
        ensures
            match found {
                Some(index) => bookmark_ahead(
                    bookmarks_of(self.albums@),
                    self.selected_index as int,
                    1,
                ) == Some(index as int) && index < self.albums@.len(),
                None => bookmark_ahead(bookmarks_of(self.albums@), self.selected_index as int, 1)
                    is None,
            },
    {
        let len = self.albums.len();
        let start = self.selected_index;
        let mut offset: u128 = 1;
        while offset <= len as u128
            invariant
                1 <= offset <= len + 1,
                len == self.albums@.len(),
                start == self.selected_index,
                bookmark_ahead(bookmarks_of(self.albums@), start as int, 1) == bookmark_ahead(
                    bookmarks_of(self.albums@),
                    start as int,
                    offset as int,
                ),
            decreases len + 1 - offset,
        {
            let index = ((start as u128 + offset) % (len as u128)) as usize;
            if self.albums[index].bookmarked {
                return Some(index);
            }
            offset = offset + 1;
        }
        None
    }

    /// The bookmarked album that comes first before the selected one, going
    /// round the catalog once; the selected album itself comes last.
    pub fn find_prev_bookmark(&self) -> (found: Option<usize>)
        ensures
            match found {
                Some(index) => bookmark_behind(
                    bookmarks_of(self.albums@),
                    self.selected_index as int,
                    1,
                ) == Some(index as int) && index < self.albums@.len(),
                None => bookmark_behind(bookmarks_of(self.albums@), self.selected_index as int, 1)
                    is None,
            },
    {
        let len = self.albums.len();
        let start = self.selected_index;
        let mut offset: u128 = 1;
        while offset <= len as u128
            invariant
                1 <= offset <= len + 1,
                len == self.albums@.len(),
                start == self.selected_index,
                bookmark_behind(bookmarks_of(self.albums@), start as int, 1) == bookmark_behind(
                    bookmarks_of(self.albums@),
                    start as int,
                    offset as int,
                ),
            decreases len + 1 - offset,
        {
            let index = ((start as u128 + len as u128 - offset) % (len as u128)) as usize;
            if self.albums[index].bookmarked {
                return Some(index);
            }
            offset = offset + 1;
        }
        None
    }

    /// Selects the next bookmarked album, going round the catalog, and says
    /// so. Nothing changes where no album is bookmarked, or while the keys do
    /// not go to the list of albums.
    pub fn next_bookmark(&mut self, now: u64)
        ensures
            *final(self) == old(self).after_next_bookmark(now),
            old(self).wf() ==> final(self).wf(),
    {
        if self.focus != Focus::Albums || self.albums.len() == 0 {
            return ;
        }
        match self.find_next_bookmark() {
            Some(index) => {
                self.selected_index = index;
                self.album_cursor = Some(index);
                self.set_message(Notice::JumpedToBookmark(index), now);
            },
            None => {},
        }
    }

    /// Selects the bookmarked album before, going round the catalog, and
    /// says so. Nothing changes where no album is bookmarked, or while the
    /// keys do not go to the list of albums.
    pub fn prev_bookmark(&mut self, now: u64)
        ensures
            *final(self) == old(self).after_prev_bookmark(now),
            old(self).wf() ==> final(self).wf(),
    {
        if self.focus != Focus::Albums || self.albums.len() == 0 {
            return ;
        }
        match self.find_prev_bookmark() {
            Some(index) => {
                self.selected_index = index;
                self.album_cursor = Some(index);
                self.set_message(Notice::JumpedToBookmark(index), now);
            },
            None => {},
        }
    }

    /// Selects the inserted album and gives the keys to the list of albums;
    /// says so, or that no album is inserted.
    pub fn jump_to_playing_album(&mut self, now: u64)
        ensures
            *final(self) == old(self).after_jump_to_playing(now),
            old(self).wf() ==> final(self).wf(),
    {
        match self.playing_album {
            Some(playing) => {
                self.selected_index = playing;
                self.album_cursor = Some(playing);
                self.focus = Focus::Albums;
                self.set_message(Notice::JumpedToPlaying(playing), now);
            },
            None => {
                self.set_message(Notice::NoAlbumPlaying, now);
            },
        }
    }

    /// Handles a letter typed with shift: `J`, `K`, `H` and `L` move the
    /// focus between the panels, `G` selects the last album.
    pub fn handle_shift_key(&mut self, key: char, now: u64)
        ensures
            *final(self) == old(self).after_shift_key(key, now),
            old(self).wf() ==> final(self).wf(),
    {
        if key == 'J' && self.focus == Focus::Vinyl {
            self.focus = Focus::Albums;
        } else if key == 'K' && (self.focus == Focus::Albums || self.focus == Focus::SongList) {
            self.focus = Focus::Vinyl;
        } else if key == 'L' && self.focus == Focus::Albums {
            let inserted = match self.playing_album {
                Some(playing) => playing == self.selected_index,
                None => false,
            };
            if inserted {
                self.focus = Focus::SongList;
            } else {
                self.set_message(Notice::NotInserted, now);
            }
        } else if key == 'H' && self.focus == Focus::SongList {
            self.focus = Focus::Albums;
        } else if key == 'G' && self.focus == Focus::Albums {
            self.go_to_bottom_album();
        }
    }
}

} // verus!
