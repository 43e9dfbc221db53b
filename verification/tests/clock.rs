use mytools::clock::{IndeterminateOffset, Timestamp};
use mytools::gui::{Effect, Message, MyTools};

fn utc_nanos() -> i128 {
    time::OffsetDateTime::now_utc().unix_timestamp_nanos()
}

#[test]
fn same_instant_looks_at_the_instant_only() {
    let one = Timestamp { unix_nanos: 1_000, offset_seconds: 0 };
    let shown_elsewhere = Timestamp { unix_nanos: 1_000, offset_seconds: 3_600 };
    let later = Timestamp { unix_nanos: 1_001, offset_seconds: 0 };
    assert!(one.is_same_instant(&one));
    assert!(one.is_same_instant(&shown_elsewhere));
    assert!(shown_elsewhere.is_same_instant(&one));
    assert!(!one.is_same_instant(&later));
    assert_ne!(one, shown_elsewhere);
}

#[test]
fn local_reading_is_kept_as_it_is() {
    let reading = Timestamp { unix_nanos: -5, offset_seconds: -3_600 };
    assert_eq!(Timestamp::local_or_utc(Ok(reading)), reading);
}

#[test]
fn without_a_local_offset_the_clock_is_read_in_utc() {
    let before = utc_nanos();
    let now = Timestamp::local_or_utc(Err(IndeterminateOffset));
    let after = utc_nanos();
    assert_eq!(now.offset_seconds, 0);
    assert!(before <= now.unix_nanos && now.unix_nanos <= after);
}

#[test]
fn now_reads_the_clock() {
    let before = utc_nanos();
    let now = Timestamp::now();
    let after = utc_nanos();
    assert!(before <= now.unix_nanos && now.unix_nanos <= after);
    assert!(-93_599 <= now.offset_seconds && now.offset_seconds <= 93_599);
}

#[test]
fn now_matches_what_time_reports() {
    let now = Timestamp::now();
    let back = time::OffsetDateTime::from_unix_timestamp_nanos(now.unix_nanos).unwrap();
    assert_eq!(back.unix_timestamp_nanos(), now.unix_nanos);
    assert!(back.year() >= 2019);
    assert!(time::UtcOffset::from_whole_seconds(now.offset_seconds).is_ok());
}

#[test]
fn new_starts_light_at_the_current_time() {
    let before = utc_nanos();
    let (state, effect): (MyTools, Effect<(), ()>) = MyTools::new();
    let after = utc_nanos();
    assert!(!state.theme);
    assert_eq!(f32::from_bits(state.runtime_bits), 0.0);
    assert_eq!(effect, Effect::LoadFont);
    assert!(before <= state.now.unix_nanos && state.now.unix_nanos <= after);
}

#[test]
fn tick_carries_the_current_time() {
    let before = utc_nanos();
    let message: Message<(), ()> = MyTools::tick();
    let after = utc_nanos();
    match message {
        Message::Datetime(now) => {
            assert!(before <= now.unix_nanos && now.unix_nanos <= after);
        }
        other => panic!("a tick delivered {:?}", other),
    }
}

#[test]
fn tick_after_a_tick_moves_the_stored_time_forward() {
    let (mut state, _): (MyTools, Effect<(), ()>) = MyTools::new();
    let started = state.now;
    let mut tick: Message<(), ()> = MyTools::tick();
    while let Message::Datetime(now) = &tick {
        if !now.is_same_instant(&started) {
            break;
        }
        tick = MyTools::tick();
    }
    let effect = state.update(tick.clone(), false);
    assert_eq!(Message::Datetime(state.now), tick);
    assert!(state.now.unix_nanos > started.unix_nanos);
    assert_eq!(effect, Effect::Nothing);
}
