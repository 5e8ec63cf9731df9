use planner::error::StoreError;
use planner::records::{JournalEntry, PomodoroState};
use planner::store::AppData;
use planner::time::Timestamp;

#[test]
fn same_day_upsert_overwrites() {
    let mut d = AppData::new();
    d.add_journal_entry("first".to_string(), "2024-03-05T08:00:00Z").unwrap();
    let e = d.add_journal_entry("second".to_string(), "2024-03-05T21:30:00Z").unwrap();
    assert_eq!(e.len(), 1);
    assert_eq!(e[0].id, 0);
    assert_eq!(e[0].content, "second");
    assert_eq!(e[0].date, Timestamp::new(1709674200, 0));
}

#[test]
fn other_day_appends() {
    let mut d = AppData::new();
    d.add_journal_entry("a".to_string(), "2024-03-05T08:00:00Z").unwrap();
    let e = d.add_journal_entry("b".to_string(), "2024-03-06T00:00:00Z").unwrap();
    assert_eq!(e.len(), 2);
    assert_eq!(e[1].id, 1);
}

#[test]
fn offset_dates_compare_by_utc_day() {
    let mut d = AppData::new();
    d.add_journal_entry("a".to_string(), "2024-03-05T23:30:00Z").unwrap();
    // 01:30 at +02:00 is 23:30 UTC of the day before
    let e = d.add_journal_entry("b".to_string(), "2024-03-06T01:30:00+02:00").unwrap();
    assert_eq!(e.len(), 1);
    assert_eq!(e[0].content, "b");
}

#[test]
fn listing_is_newest_first() {
    let mut d = AppData::new();
    d.add_journal_entry("one".to_string(), "2024-01-01T12:00:00Z").unwrap();
    d.add_journal_entry("three".to_string(), "2024-01-03T12:00:00Z").unwrap();
    d.add_journal_entry("two".to_string(), "2024-01-02T12:00:00Z").unwrap();
    let l = d.get_journal_entries();
    assert_eq!(l.len(), 3);
    assert_eq!(l[0].content, "three");
    assert_eq!(l[1].content, "two");
    assert_eq!(l[2].content, "one");
    // storage order is untouched
    assert_eq!(d.journal_entries[1].content, "three");
}

#[test]
fn listing_keeps_first_entry_of_each_day() {
    let mut d = AppData::new();
    let day = 19723i64 * 86400;
    d.journal_entries.push(JournalEntry { id: 0, date: Timestamp::new(day + 10, 0), content: "early".to_string() });
    d.journal_entries.push(JournalEntry { id: 1, date: Timestamp::new(day - 10, 0), content: "before".to_string() });
    d.journal_entries.push(JournalEntry { id: 2, date: Timestamp::new(day + 500, 0), content: "late".to_string() });
    let l = d.get_journal_entries();
    assert_eq!(l.len(), 2);
    assert_eq!(l[0].content, "early");
    assert_eq!(l[1].content, "before");
}

#[test]
fn listing_orders_by_nanoseconds_within_a_second() {
    let mut d = AppData::new();
    d.journal_entries.push(JournalEntry { id: 0, date: Timestamp::new(0, 5), content: "a".to_string() });
    d.journal_entries.push(JournalEntry { id: 1, date: Timestamp::new(-86400, 9), content: "b".to_string() });
    d.journal_entries.push(JournalEntry { id: 2, date: Timestamp::new(86400, 1), content: "c".to_string() });
    let l = d.get_journal_entries();
    assert_eq!(l[0].content, "c");
    assert_eq!(l[1].content, "a");
    assert_eq!(l[2].content, "b");
}

#[test]
fn invalid_date_is_reported() {
    let mut d = AppData::new();
    let r = d.add_journal_entry("x".to_string(), "yesterday");
    assert_eq!(r.unwrap_err(), StoreError::InvalidDate);
    assert!(d.journal_entries.is_empty());
    assert_eq!(d.get_journal_entry_for_date("2024-13-01T00:00:00Z").unwrap_err(), StoreError::InvalidDate);
}

#[test]
fn entry_for_date_finds_same_day() {
    let mut d = AppData::new();
    d.add_journal_entry("a".to_string(), "2024-01-01T05:00:00Z").unwrap();
    d.add_journal_entry("b".to_string(), "2024-01-02T05:00:00Z").unwrap();
    let e = d.get_journal_entry_for_date("2024-01-02T23:59:59Z").unwrap().unwrap();
    assert_eq!(e.content, "b");
    assert!(d.get_journal_entry_for_date("2024-01-03T00:00:00Z").unwrap().is_none());
}

#[test]
fn day_numbers_floor_toward_the_past() {
    assert_eq!(Timestamp::new(0, 0).day(), 0);
    assert_eq!(Timestamp::new(86399, 0).day(), 0);
    assert_eq!(Timestamp::new(86400, 0).day(), 1);
    assert_eq!(Timestamp::new(-1, 0).day(), -1);
    assert_eq!(Timestamp::new(-86400, 0).day(), -1);
    assert_eq!(Timestamp::new(-86401, 0).day(), -2);
    assert!(Timestamp::new(5, 0).same_day(&Timestamp::new(86399, 7)));
    assert!(Timestamp::new(5, 2).is_after(&Timestamp::new(5, 1)));
}

#[test]
fn millis_since_epoch() {
    assert_eq!(Timestamp::new(1, 999_999_999).epoch_millis(), 1999);
    assert_eq!(Timestamp::new(1_700_000_000, 250_000_000).epoch_millis(), 1_700_000_000_250);
}

#[test]
fn reset_restores_initial_timer() {
    let mut d = AppData::new();
    d.update_pomodoro_state(PomodoroState {
        session_name: "deep work".to_string(),
        current_mode: "break".to_string(),
        remaining_seconds: 7,
        is_running: true,
        cycle_count: 9,
        start_time: 123,
    });
    let p = d.reset_pomodoro();
    assert_eq!(p.session_name, "");
    assert_eq!(p.current_mode, "work");
    assert_eq!(p.remaining_seconds, 1500);
    assert!(!p.is_running);
    assert_eq!(p.cycle_count, 0);
    assert_eq!(p.start_time, 0);
}

#[test]
fn start_and_stop_keep_the_rest() {
    let mut d = AppData::new();
    d.save_pomodoro_state(PomodoroState {
        session_name: "s".to_string(),
        current_mode: "break".to_string(),
        remaining_seconds: 300,
        is_running: false,
        cycle_count: 2,
        start_time: 0,
    });
    let p = d.start_pomodoro_at(5000);
    assert!(p.is_running);
    assert_eq!(p.start_time, 5000);
    assert_eq!(p.remaining_seconds, 300);
    let p = d.stop_pomodoro();
    assert!(!p.is_running);
    assert_eq!(p.start_time, 5000);
    assert_eq!(p.cycle_count, 2);
    let p = d.start_pomodoro();
    assert!(p.is_running);
    assert!(p.start_time > 1_600_000_000_000);
}

#[test]
fn sessions_are_appended() {
    let mut d = AppData::new();
    d.save_pomodoro_session_at("a".to_string(), 25, Timestamp::new(10, 0));
    let s = d.save_pomodoro_session("b".to_string(), 50);
    assert_eq!(s.len(), 2);
    assert_eq!(s[1].id, 1);
    assert_eq!(s[1].work_minutes, 50);
    assert_eq!(d.get_pomodoro_sessions()[0].session_name, "a");
}
