use levari::player::{App, Focus, Notice};
use levari::catalog::{Album, Song};
use levari::keys::{bind, Binding, Key, KeyAction};
use levari::session::Command;

fn br_album(name: &str, songs: usize, bookmarked: bool) -> Album {
    Album {
        name: name.to_string(),
        path: 0,
        cover: None,
        songs: (0..songs)
            .map(|i| Song { title: format!("s{}", i), duration: 10, path: i + 1 })
            .collect(),
        bookmarked,
    }
}

fn br_app(marks: &[bool]) -> App {
    App::with_phrase(
        marks.iter().enumerate().map(|(i, m)| br_album(&format!("a{}", i), 3, *m)).collect(),
        "Groove On!".to_string(),
    )
}

fn br_next(app: &mut App) -> usize {
    app.next_bookmark(0);
    app.selected_index
}

fn br_prev(app: &mut App) -> usize {
    app.prev_bookmark(0);
    app.selected_index
}

#[test]
fn bookmark_search_goes_round_the_catalog() {
    let marks = [false, false, true, false, false, true];
    let mut app = br_app(&marks);
    assert_eq!(br_next(&mut app), 2);
    assert_eq!(app.album_cursor, Some(2));
    assert_eq!(app.current_message, Some(Notice::JumpedToBookmark(2)));
    assert_eq!(br_next(&mut app), 5);
    assert_eq!(br_next(&mut app), 2);
    let mut back = br_app(&marks);
    assert_eq!(br_prev(&mut back), 5);
    assert_eq!(br_prev(&mut back), 2);
    assert_eq!(br_prev(&mut back), 5);
    assert_eq!(back.find_next_bookmark(), Some(2));
    assert_eq!(back.find_prev_bookmark(), Some(2));
}

#[test]
fn bookmark_search_without_bookmarks_changes_nothing() {
    let mut app = br_app(&[false, false, false]);
    app.selected_index = 1;
    assert_eq!(app.find_next_bookmark(), None);
    assert_eq!(app.find_prev_bookmark(), None);
    assert_eq!(br_next(&mut app), 1);
    assert_eq!(br_prev(&mut app), 1);
    assert_eq!(app.current_message, None);
    let mut empty = br_app(&[]);
    assert_eq!(empty.find_next_bookmark(), None);
    assert_eq!(br_next(&mut empty), 0);
    assert_eq!(br_prev(&mut empty), 0);
}

#[test]
fn only_bookmark_is_found_from_itself() {
    let mut app = br_app(&[false, true, false]);
    app.selected_index = 1;
    assert_eq!(br_next(&mut app), 1);
    assert_eq!(app.current_message, Some(Notice::JumpedToBookmark(1)));
    assert_eq!(br_prev(&mut app), 1);
}

#[test]
fn bookmark_search_needs_the_focus_on_the_albums() {
    let mut app = br_app(&[false, true]);
    app.focus = Focus::Vinyl;
    assert_eq!(br_next(&mut app), 0);
    app.focus = Focus::SongList;
    assert_eq!(br_prev(&mut app), 0);
    app.toggle_bookmark(5);
    assert!(!app.albums[0].bookmarked);
    assert_eq!(app.current_message, None);
}

#[test]
fn bookmark_is_set_and_removed() {
    let mut app = br_app(&[false, false]);
    app.selected_index = 1;
    app.toggle_bookmark(5);
    assert!(app.albums[1].bookmarked);
    assert!(!app.albums[0].bookmarked);
    assert_eq!(app.current_message, Some(Notice::Bookmarked(1)));
    assert_eq!(app.message_time, Some(5));
    app.toggle_bookmark(6);
    assert!(!app.albums[1].bookmarked);
    assert_eq!(app.current_message, Some(Notice::BookmarkRemoved(1)));
    assert_eq!(app.albums[1].name, "a1");
    assert_eq!(app.albums[1].songs.len(), 3);
}

#[test]
fn selection_moves_within_the_catalog() {
    let mut app = br_app(&[false; 5]);
    app.next_album();
    assert_eq!((app.selected_index, app.album_cursor), (1, Some(1)));
    app.go_to_bottom_album();
    assert_eq!((app.selected_index, app.album_cursor), (4, Some(4)));
    app.next_album();
    assert_eq!(app.selected_index, 4);
    app.previous_album();
    assert_eq!((app.selected_index, app.album_cursor), (3, Some(3)));
    app.go_to_top_album();
    assert_eq!((app.selected_index, app.album_cursor), (0, Some(0)));
    assert_eq!(app.focus, Focus::Albums);
    app.previous_album();
    assert_eq!(app.selected_index, 0);
    assert_eq!(app.focus, Focus::Vinyl);
}

#[test]
fn half_pages_move_by_half_the_catalog() {
    let mut app = br_app(&[false; 5]);
    app.half_page_down_album();
    assert_eq!((app.selected_index, app.album_cursor), (2, Some(2)));
    app.half_page_down_album();
    assert_eq!(app.selected_index, 4);
    app.half_page_down_album();
    assert_eq!(app.selected_index, 4);
    app.half_page_up_album();
    assert_eq!((app.selected_index, app.album_cursor), (2, Some(2)));
    app.half_page_up_album();
    app.half_page_up_album();
    assert_eq!(app.selected_index, 0);
    let mut single = br_app(&[false]);
    single.half_page_down_album();
    assert_eq!(single.selected_index, 0);
    let mut two = br_app(&[false, false]);
    two.half_page_down_album();
    assert_eq!(two.selected_index, 1);
    two.half_page_up_album();
    assert_eq!(two.selected_index, 0);
}

#[test]
fn navigation_in_an_empty_catalog_does_nothing() {
    let mut app = br_app(&[]);
    app.next_album();
    app.previous_album();
    app.go_to_top_album();
    app.go_to_bottom_album();
    app.half_page_down_album();
    app.half_page_up_album();
    app.focus = Focus::SongList;
    app.next_song();
    app.previous_song();
    assert_eq!(app.selected_index, 0);
    assert_eq!(app.album_cursor, None);
    assert_eq!(app.song_cursor, Some(0));
    app.focus = Focus::Albums;
    app.toggle_bookmark(1);
    assert_eq!(app.current_message, None);
    assert_eq!(app.insert_request(), None);
    app.insert_album(true, 1);
    assert_eq!(app.playing_album, None);
}

#[test]
fn song_cursor_moves_within_the_album() {
    let mut app = br_app(&[false]);
    app.next_song();
    assert_eq!(app.song_cursor, Some(0));
    app.focus = Focus::SongList;
    app.next_song();
    assert_eq!(app.song_cursor, Some(1));
    app.next_song();
    app.next_song();
    assert_eq!(app.song_cursor, Some(2));
    app.previous_song();
    assert_eq!(app.song_cursor, Some(1));
    app.previous_song();
    app.previous_song();
    assert_eq!(app.song_cursor, Some(0));
    app.song_cursor = None;
    app.next_song();
    assert_eq!(app.song_cursor, Some(1));
}

#[test]
fn jump_selects_the_inserted_album() {
    let mut app = br_app(&[false; 4]);
    app.jump_to_playing_album(3);
    assert_eq!(app.current_message, Some(Notice::NoAlbumPlaying));
    app.selected_index = 2;
    app.insert_album(true, 4);
    app.go_to_top_album();
    app.focus = Focus::Vinyl;
    app.jump_to_playing_album(5);
    assert_eq!((app.selected_index, app.album_cursor), (2, Some(2)));
    assert_eq!(app.focus, Focus::Albums);
    assert_eq!(app.current_message, Some(Notice::JumpedToPlaying(2)));
}

#[test]
fn shift_keys_move_the_focus() {
    let mut app = br_app(&[false; 3]);
    app.handle_shift_key('K', 1);
    assert_eq!(app.focus, Focus::Vinyl);
    app.handle_shift_key('K', 1);
    assert_eq!(app.focus, Focus::Vinyl);
    app.handle_shift_key('J', 1);
    assert_eq!(app.focus, Focus::Albums);
    app.handle_shift_key('L', 2);
    assert_eq!(app.focus, Focus::Albums);
    assert_eq!(app.current_message, Some(Notice::NotInserted));
    app.insert_album(true, 3);
    app.handle_shift_key('L', 4);
    assert_eq!(app.focus, Focus::SongList);
    app.handle_shift_key('H', 4);
    assert_eq!(app.focus, Focus::Albums);
    app.handle_shift_key('G', 4);
    assert_eq!(app.selected_index, 2);
    app.handle_shift_key('L', 5);
    assert_eq!(app.focus, Focus::Albums);
    assert_eq!(app.current_message, Some(Notice::NotInserted));
    app.handle_shift_key('X', 6);
    assert_eq!(app.focus, Focus::Albums);
}

#[test]
fn keys_are_bound_as_the_help_line_says() {
    assert_eq!(bind(Key::Char('q'), false, false), Binding::Quit);
    assert_eq!(bind(Key::Char('n'), false, false), Binding::NextBookmark);
    assert_eq!(bind(Key::Char('n'), true, false), Binding::PrevBookmark);
    assert_eq!(bind(Key::Char('n'), false, true), Binding::PrevBookmark);
    assert_eq!(bind(Key::Char('N'), false, true), Binding::PrevBookmark);
    assert_eq!(bind(Key::Char('G'), false, true), Binding::ShiftKey('G'));
    assert_eq!(bind(Key::Char('Q'), false, false), Binding::ShiftKey('Q'));
    assert_eq!(bind(Key::Char('j'), false, false), Binding::Down);
    assert_eq!(bind(Key::Char('k'), false, false), Binding::Up);
    assert_eq!(bind(Key::Char('h'), false, false), Binding::Left);
    assert_eq!(bind(Key::Char('l'), false, false), Binding::Right);
    assert_eq!(bind(Key::Char(' '), false, false), Binding::Space);
    assert_eq!(bind(Key::Enter, false, false), Binding::Enter);
    assert_eq!(bind(Key::Char('+'), false, false), Binding::VolumeUp);
    assert_eq!(bind(Key::Char('='), false, false), Binding::VolumeUp);
    assert_eq!(bind(Key::Char('-'), false, false), Binding::VolumeDown);
    assert_eq!(bind(Key::Char('>'), false, false), Binding::SpeedUp);
    assert_eq!(bind(Key::Char('<'), false, false), Binding::SpeedDown);
    assert_eq!(bind(Key::Char('m'), false, false), Binding::ToggleBookmark);
    assert_eq!(bind(Key::Char('p'), false, false), Binding::JumpToPlaying);
    assert_eq!(bind(Key::Char('g'), false, false), Binding::G);
    assert_eq!(bind(Key::Char('d'), true, false), Binding::HalfPageDown);
    assert_eq!(bind(Key::Char('d'), false, false), Binding::Nothing);
    assert_eq!(bind(Key::Char('u'), true, false), Binding::HalfPageUp);
    assert_eq!(bind(Key::Char('u'), false, false), Binding::Nothing);
    assert_eq!(bind(Key::Char('\u{e9}'), false, false), Binding::Nothing);
    assert_eq!(bind(Key::Other, true, true), Binding::Nothing);
}

#[test]
fn second_g_in_a_row_selects_the_first_album() {
    let mut app = br_app(&[false; 4]);
    app.go_to_bottom_album();
    assert_eq!(app.handle_key(Key::Char('g'), false, false, 1), KeyAction::Channel(Command::Nothing));
    assert!(app.pending_g);
    assert_eq!(app.selected_index, 3);
    app.handle_key(Key::Char('g'), false, false, 1);
    assert!(!app.pending_g);
    assert_eq!(app.selected_index, 0);
    // Another key in between ends the wait.
    app.handle_key(Key::Char('G'), false, true, 1);
    assert_eq!(app.selected_index, 3);
    app.handle_key(Key::Char('g'), false, false, 1);
    app.handle_key(Key::Char('x'), false, false, 1);
    assert!(!app.pending_g);
    app.handle_key(Key::Char('g'), false, false, 1);
    assert_eq!(app.selected_index, 3);
    assert!(app.pending_g);
    // Outside the list of albums `g` is not awaited.
    app.focus = Focus::Vinyl;
    app.handle_key(Key::Char('g'), false, false, 1);
    assert!(!app.pending_g);
}

#[test]
fn enter_inserts_ejects_or_skips() {
    let mut app = br_app(&[false; 2]);
    assert_eq!(app.handle_key(Key::Enter, false, false, 1), KeyAction::Insert);
    assert_eq!(app.playing_album, None);
    app.insert_album(true, 1);
    assert_eq!(app.handle_key(Key::Enter, false, false, 2), KeyAction::Channel(Command::Close));
    assert_eq!(app.playing_album, None);
    assert_eq!(app.current_message, Some(Notice::Ejected(0)));
    app.insert_album(true, 3);
    app.handle_key(Key::Char('j'), false, false, 3);
    assert_eq!(app.selected_index, 1);
    assert_eq!(app.handle_key(Key::Enter, false, false, 4), KeyAction::Insert);
    assert_eq!(app.playing_album, Some(0));
    app.focus = Focus::SongList;
    assert_eq!(app.handle_key(Key::Enter, false, false, 5), KeyAction::SkipToSong);
    assert_eq!(app.playing_album, Some(0));
}

#[test]
fn keys_drive_the_player() {
    let mut app = br_app(&[false; 3]);
    assert_eq!(app.handle_key(Key::Char('q'), false, false, 1), KeyAction::Quit);
    assert_eq!(app.handle_key(Key::Char('>'), false, false, 1), KeyAction::IncreaseSpeed);
    assert_eq!(app.handle_key(Key::Char('<'), false, false, 1), KeyAction::DecreaseSpeed);
    assert_eq!(app.handle_key(Key::Char(' '), false, false, 1), KeyAction::Channel(Command::Nothing));
    assert_eq!(app.current_message, Some(Notice::NothingInserted));
    app.insert_album(true, 2);
    assert_eq!(app.handle_key(Key::Char(' '), false, false, 3), KeyAction::Channel(Command::Pause));
    assert_eq!(app.handle_key(Key::Char(' '), false, false, 4), KeyAction::Channel(Command::Play));
    assert_eq!(app.handle_key(Key::Char('+'), false, false, 5), KeyAction::Channel(Command::SetVolume(26)));
    assert_eq!(app.handle_key(Key::Char('='), false, false, 5), KeyAction::Channel(Command::SetVolume(27)));
    assert_eq!(app.handle_key(Key::Char('-'), false, false, 5), KeyAction::Channel(Command::SetVolume(26)));
    app.handle_key(Key::Char('m'), false, false, 6);
    assert!(app.albums[0].bookmarked);
    app.handle_key(Key::Char('j'), false, false, 6);
    app.handle_key(Key::Char('n'), false, false, 6);
    assert_eq!(app.selected_index, 0);
    app.handle_key(Key::Char('d'), true, false, 6);
    assert_eq!(app.selected_index, 1);
    app.handle_key(Key::Char('u'), true, false, 6);
    assert_eq!(app.selected_index, 0);
    app.handle_key(Key::Char('j'), false, false, 6);
    app.handle_key(Key::Char('p'), false, false, 7);
    assert_eq!(app.selected_index, 0);
    // `l` opens the songs with the cursor on the song that plays.
    app.song_cursor = Some(2);
    app.skip_to_song(true, 8);
    app.song_cursor = Some(0);
    app.handle_key(Key::Char('l'), false, false, 9);
    assert_eq!(app.focus, Focus::SongList);
    assert_eq!(app.song_cursor, Some(2));
    app.handle_key(Key::Char('k'), false, false, 9);
    assert_eq!(app.song_cursor, Some(1));
    app.handle_key(Key::Char('j'), false, false, 9);
    assert_eq!(app.song_cursor, Some(2));
    app.handle_key(Key::Char('h'), false, false, 9);
    assert_eq!(app.focus, Focus::Albums);
    app.handle_key(Key::Char('j'), false, false, 9);
    app.handle_key(Key::Char('l'), false, false, 9);
    assert_eq!(app.song_cursor, Some(0));
    app.handle_key(Key::Char('K'), false, true, 9);
    assert_eq!(app.focus, Focus::Vinyl);
    app.handle_key(Key::Char('k'), false, false, 9);
    assert_eq!(app.focus, Focus::Vinyl);
    assert_eq!(app.handle_key(Key::Char('h'), false, false, 10), KeyAction::Channel(Command::Close));
    assert_eq!(app.playing_album, None);
    assert_eq!(app.handle_key(Key::Char('h'), false, false, 10), KeyAction::Channel(Command::Nothing));
    app.handle_key(Key::Char('j'), false, false, 10);
    assert_eq!(app.focus, Focus::Albums);
}
