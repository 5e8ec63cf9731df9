use planner::error::StoreError;
use planner::store::AppData;
use planner::time::Timestamp;

fn at(secs: i64) -> Timestamp {
    Timestamp::new(secs, 0)
}

#[test]
fn new_store_is_empty_with_initial_timer() {
    let d = AppData::new();
    assert!(d.get_todos().is_empty());
    assert!(d.get_notes().is_empty());
    assert!(d.get_goals().is_empty());
    assert!(d.get_pomodoro_sessions().is_empty());
    assert!(d.get_journal_entries().is_empty());
    let p = d.get_pomodoro_state();
    assert_eq!(p.current_mode, "work");
    assert_eq!(p.remaining_seconds, 1500);
    assert!(!p.is_running);
}

#[test]
fn created_ids_follow_collection_length() {
    let mut d = AppData::new();
    for k in 0..4usize {
        let todos = d.add_todo_at(format!("todo {}", k), at(100));
        assert_eq!(todos[k].id, k);
        let notes = d.add_note_at(format!("n{}", k), "body".to_string(), at(100));
        assert_eq!(notes[k].id, k);
        let goals = d.add_goal_at(format!("g{}", k), "why".to_string(), at(100));
        assert_eq!(goals[k].id, k);
        let sessions = d.save_pomodoro_session_at(format!("s{}", k), 25, at(100));
        assert_eq!(sessions[k].id, k);
    }
    assert_eq!(d.get_todos().len(), 4);
}

#[test]
fn add_todo_fills_fields() {
    let mut d = AppData::new();
    let todos = d.add_todo_at("buy milk".to_string(), at(42));
    assert_eq!(todos.len(), 1);
    assert_eq!(todos[0].text, "buy milk");
    assert!(!todos[0].completed);
    assert_eq!(todos[0].created_at, at(42));
    assert_eq!(todos[0].updated_at, at(42));
}

#[test]
fn add_with_clock_stamps_both_times_alike() {
    let mut d = AppData::new();
    let todos = d.add_todo("now".to_string());
    assert_eq!(todos[0].created_at, todos[0].updated_at);
    assert!(todos[0].created_at.secs > 0);
    let notes = d.add_note("t".to_string(), "c".to_string());
    assert_eq!(notes[0].created_at, notes[0].updated_at);
}

#[test]
fn delete_then_recreate_duplicates_an_id() {
    let mut d = AppData::new();
    d.add_todo_at("a".to_string(), at(1));
    d.add_todo_at("b".to_string(), at(2));
    let left = d.remove_todo(0);
    assert_eq!(left.len(), 1);
    assert_eq!(left[0].id, 1);
    let todos = d.add_todo_at("c".to_string(), at(3));
    assert_eq!(todos.len(), 2);
    assert_eq!(todos[0].id, 1);
    assert_eq!(todos[1].id, 1);
    assert_eq!(todos[0].text, "b");
    assert_eq!(todos[1].text, "c");
}

#[test]
fn remove_takes_every_record_with_the_id() {
    let mut d = AppData::new();
    d.add_todo_at("a".to_string(), at(1));
    d.add_todo_at("b".to_string(), at(2));
    d.remove_todo(0);
    d.add_todo_at("c".to_string(), at(3));
    let left = d.remove_todo(1);
    assert!(left.is_empty());
    assert!(d.get_todos().is_empty());
}

#[test]
fn toggle_flips_the_first_match() {
    let mut d = AppData::new();
    d.add_todo_at("a".to_string(), at(1));
    d.add_todo_at("b".to_string(), at(1));
    let todos = d.toggle_todo_at(1, at(9));
    assert!(!todos[0].completed);
    assert!(todos[1].completed);
    assert_eq!(todos[1].updated_at, at(9));
    assert_eq!(todos[1].created_at, at(1));
    let todos = d.toggle_todo_at(1, at(10));
    assert!(!todos[1].completed);
}

#[test]
fn toggle_unknown_id_changes_nothing() {
    let mut d = AppData::new();
    d.add_todo_at("a".to_string(), at(1));
    let todos = d.toggle_todo_at(7, at(9));
    assert_eq!(todos.len(), 1);
    assert!(!todos[0].completed);
    assert_eq!(todos[0].updated_at, at(1));
}

#[test]
fn update_note_rewrites_in_place() {
    let mut d = AppData::new();
    d.add_note_at("t0".to_string(), "c0".to_string(), at(1));
    d.add_note_at("t1".to_string(), "c1".to_string(), at(1));
    let notes = d.update_note_at(1, "T".to_string(), "C".to_string(), at(5)).unwrap();
    assert_eq!(notes[1].title, "T");
    assert_eq!(notes[1].content, "C");
    assert_eq!(notes[1].created_at, at(1));
    assert_eq!(notes[1].updated_at, at(5));
    assert_eq!(notes[0].title, "t0");
}

#[test]
fn update_missing_note_is_not_found() {
    let mut d = AppData::new();
    d.add_note_at("t0".to_string(), "c0".to_string(), at(1));
    let r = d.update_note_at(3, "T".to_string(), "C".to_string(), at(5));
    assert_eq!(r.unwrap_err(), StoreError::NoteNotFound);
    assert_eq!(d.get_notes()[0].title, "t0");
}

#[test]
fn update_and_remove_goals() {
    let mut d = AppData::new();
    d.add_goal_at("run".to_string(), "health".to_string(), at(1));
    let goals = d.update_goal(0, "run more".to_string(), "fun".to_string()).unwrap();
    assert_eq!(goals[0].title, "run more");
    assert_eq!(goals[0].motivation, "fun");
    assert_eq!(
        d.update_goal_at(4, "x".to_string(), "y".to_string(), at(2)).unwrap_err(),
        StoreError::GoalNotFound
    );
    assert!(d.remove_goal(0).is_empty());
}

#[test]
fn delete_note_keeps_others_in_order() {
    let mut d = AppData::new();
    for k in 0..3 {
        d.add_note_at(format!("t{}", k), String::new(), at(1));
    }
    let notes = d.delete_note(1);
    assert_eq!(notes.len(), 2);
    assert_eq!(notes[0].title, "t0");
    assert_eq!(notes[1].title, "t2");
}

#[test]
fn reads_repeat_without_change() {
    let mut d = AppData::new();
    d.add_todo_at("a".to_string(), at(1));
    d.add_journal_entry("x".to_string(), "2024-01-02T00:00:00Z").unwrap();
    d.add_journal_entry("y".to_string(), "2024-01-01T00:00:00Z").unwrap();
    let a = d.get_todos();
    let b = d.get_todos();
    assert_eq!(a.len(), b.len());
    assert_eq!(a[0].text, b[0].text);
    let j1 = d.get_journal_entries();
    let j2 = d.get_journal_entries();
    assert_eq!(j1.len(), j2.len());
    for k in 0..j1.len() {
        assert_eq!(j1[k].content, j2[k].content);
        assert_eq!(j1[k].date, j2[k].date);
    }
}
