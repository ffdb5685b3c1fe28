//! Laws of the playback session.

use crate::player::{App, Rpm};
use crate::session::BuildRequest;
use vstd::prelude::*;

verus! {

/// Inserting an album while another is inserted ejects that one first: the
/// state is the one that ejecting and then inserting gives, and the selected
/// album is the only one inserted.
pub proof fn lemma_insert_ejects_first(app: App, now: u64)
    requires
        app.playing_album is Some,
        app.insert_plan() is Some,
    ensures
        app.after_insert(true, now) == app.after_eject(now).after_insert(true, now),
        app.after_insert(true, now).playing_album == Some(app.selected_index),
        app.after_insert(true, now).has_sink,
{
}

/// At most one album is inserted, and a channel is live exactly while one
/// is: every operation of the session keeps this, as it keeps the rest of the
/// player's invariant.
pub proof fn lemma_session_keeps_invariant(
    app: App,
    target: Rpm,
    offset: u64,
    built: bool,
    now: u64,
)
    requires
        app.wf(),
    ensures
        app.after_insert(built, now).wf(),
        app.after_eject(now).wf(),
        app.after_skip(built, now).wf(),
        app.after_speed(target, offset, built, now).wf(),
        app.after_toggle_pause(now).wf(),
        app.with_volume(app.louder(), now).wf(),
        app.with_volume(app.quieter(), now).wf(),
        app.has_sink <==> app.playing_album is Some,
{
}

/// Where the channel could not be built, the session is as it was but for
/// the message.
pub proof fn lemma_failure_changes_only_the_message(
    app: App,
    target: Rpm,
    offset: u64,
    now: u64,
)
    ensures
        app.insert_plan() is Some ==> app.after_insert(false, now) == app.with_message(
            app.after_insert(false, now).current_message->0,
            now,
        ),
        app.after_skip(false, now) == app.with_message(
            app.after_skip(false, now).current_message->0,
            now,
        ),
        app.speed_plan(target, now) is Some ==> app.after_speed(target, offset, false, now)
            == app.with_message(
            app.after_speed(target, offset, false, now).current_message->0,
            now,
        ),
{
}

/// A change of speed keeps the elapsed time: read at the instant at which the
/// new channel starts, it is what it was when the channel was asked for.
///
/// The elapsed time must not be more than the instant at which the new
/// channel starts, counted from the first instant of the clock; see
/// [`crate::clock::lemma_elapsed_within_now`].
pub proof fn lemma_speed_change_keeps_elapsed(app: App, target: Rpm, now: u64, later: u64)
    requires
        app.playing_album is Some,
        target != app.playback_speed,
        app.clock.elapsed_at(now) <= later,
    ensures
        app.speed_plan(target, now) is Some,
        app.after_speed(
            target,
            app.clock.elapsed_at(now) as u64,
            true,
            later,
        ).clock.elapsed_at(later) == app.clock.elapsed_at(now),
        app.after_speed(target, app.clock.elapsed_at(now) as u64, true, later).playback_speed
            == target,
{
}

/// Right after an album is inserted or a song is skipped to, no time has
/// elapsed.
pub proof fn lemma_new_song_starts_at_zero(app: App, request: BuildRequest, now: u64)
    requires
        request.offset == 0,
    ensures
        app.playing(request, now).clock.elapsed_at(now) == 0,
{
}

} // verus!
