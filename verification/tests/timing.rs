use levari::clock::Clock;

const SEC: u64 = 1_000_000_000;

fn running_since(start: u64) -> Clock {
    let mut clock = Clock::new();
    clock.reset(start, 0);
    clock
}

#[test]
fn stopped_clock_reads_zero() {
    let clock = Clock::new();
    assert_eq!(clock.playback_start, None);
    assert_eq!(clock.pause_start, None);
    assert!(!clock.paused);
    assert_eq!(clock.effective_elapsed(0), 0);
    assert_eq!(clock.effective_elapsed(77 * SEC), 0);
}

#[test]
fn running_clock_reads_time_since_start() {
    let clock = running_since(5 * SEC);
    assert_eq!(clock.effective_elapsed(5 * SEC), 0);
    assert_eq!(clock.effective_elapsed(15 * SEC), 10 * SEC);
    // A reading from before the start is clamped to zero.
    assert_eq!(clock.effective_elapsed(4 * SEC), 0);
}

#[test]
fn paused_clock_stands_still() {
    let mut clock = running_since(5 * SEC);
    clock.pause(12 * SEC);
    assert!(clock.paused);
    assert_eq!(clock.pause_start, Some(12 * SEC));
    assert_eq!(clock.effective_elapsed(12 * SEC), 7 * SEC);
    assert_eq!(clock.effective_elapsed(13 * SEC), 7 * SEC);
    assert_eq!(clock.effective_elapsed(1000 * SEC), 7 * SEC);
    // Pausing again changes nothing.
    clock.pause(20 * SEC);
    assert_eq!(clock.pause_start, Some(12 * SEC));
    assert_eq!(clock.effective_elapsed(30 * SEC), 7 * SEC);
}

#[test]
fn resume_goes_on_from_where_the_pause_began() {
    let mut clock = running_since(5 * SEC);
    clock.pause(12 * SEC);
    clock.resume(20 * SEC);
    assert!(!clock.paused);
    assert_eq!(clock.pause_start, None);
    assert_eq!(clock.pause_duration, 8 * SEC);
    assert_eq!(clock.effective_elapsed(20 * SEC), 7 * SEC);
    assert_eq!(clock.effective_elapsed(23 * SEC), 10 * SEC);
    clock.pause(23 * SEC);
    clock.resume(24 * SEC);
    assert_eq!(clock.pause_duration, 9 * SEC);
    assert_eq!(clock.effective_elapsed(25 * SEC), 11 * SEC);
    // Resuming a running clock changes nothing.
    clock.resume(100 * SEC);
    assert_eq!(clock.pause_duration, 9 * SEC);
}

#[test]
fn reset_reads_back_its_offset() {
    let mut clock = running_since(5 * SEC);
    clock.pause(6 * SEC);
    clock.reset(100 * SEC, 10 * SEC);
    assert!(!clock.paused);
    assert_eq!(clock.pause_start, None);
    assert_eq!(clock.pause_duration, 0);
    assert_eq!(clock.playback_start, Some(90 * SEC));
    assert_eq!(clock.effective_elapsed(100 * SEC), 10 * SEC);
    assert_eq!(clock.effective_elapsed(101 * SEC), 11 * SEC);
    clock.reset(100 * SEC, 0);
    assert_eq!(clock.effective_elapsed(100 * SEC), 0);
}

#[test]
fn reset_with_offset_beyond_now_starts_at_the_first_instant() {
    let mut clock = Clock::new();
    clock.reset(3 * SEC, 10 * SEC);
    assert_eq!(clock.playback_start, Some(0));
    assert_eq!(clock.effective_elapsed(3 * SEC), 3 * SEC);
}

#[test]
fn clock_arithmetic_saturates() {
    let mut clock = running_since(0);
    clock.pause_duration = u64::MAX - 5;
    clock.pause(10);
    clock.resume(100);
    assert_eq!(clock.pause_duration, u64::MAX);
    assert_eq!(clock.effective_elapsed(u64::MAX), 0);
    // A pause that would end before it began adds nothing.
    let mut other = running_since(0);
    other.pause(50);
    other.resume(20);
    assert_eq!(other.pause_duration, 0);
}

#[test]
fn clear_stops_the_clock() {
    let mut clock = running_since(5 * SEC);
    clock.pause(6 * SEC);
    clock.clear();
    assert_eq!(clock.playback_start, None);
    assert_eq!(clock.pause_start, None);
    assert_eq!(clock.pause_duration, 0);
    assert!(!clock.paused);
    assert_eq!(clock.effective_elapsed(9 * SEC), 0);
}
