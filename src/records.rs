use vstd::prelude::*;
use crate::time::Timestamp;

verus! {

/// One item of the todo list.
#[derive(Debug)]
pub struct TodoItem {
    pub id: usize,
    pub text: String,
    pub completed: bool,
    pub created_at: Timestamp,
    pub updated_at: Timestamp,
}

/// A note with a title.
#[derive(Debug)]
pub struct Note {
    pub id: usize,
    pub title: String,
    pub content: String,
    pub created_at: Timestamp,
    pub updated_at: Timestamp,
}

/// A goal and the reason for it.
#[derive(Debug)]
pub struct Goal {
    pub id: usize,
    pub title: String,
    pub motivation: String,
    pub created_at: Timestamp,
    pub updated_at: Timestamp,
}

/// The journal's text for one calendar day.
#[derive(Debug)]
pub struct JournalEntry {
    pub id: usize,
    pub date: Timestamp,
    pub content: String,
}

/// A finished pomodoro work period, kept as history.
#[derive(Debug)]
pub struct PomodoroSession {
    pub id: usize,
    pub session_name: String,
    pub work_minutes: u32,
    pub completed_at: Timestamp,
}

/// The pomodoro timer. It does not tick: the caller works out the elapsed
/// time from `start_time`, in milliseconds since the epoch.
#[derive(Debug)]
pub struct PomodoroState {
    pub session_name: String,
    pub current_mode: String,
    pub remaining_seconds: u32,
    pub is_running: bool,
    pub cycle_count: u32,
    pub start_time: u64,
}

impl Clone for TodoItem {
    fn clone(&self) -> (r: Self)
        ensures
            r == *self,
    {
        TodoItem {
            id: self.id,
            text: self.text.clone(),
            completed: self.completed,
            created_at: self.created_at,
            updated_at: self.updated_at,
        }
    }
}

impl Clone for Note {
    fn clone(&self) -> (r: Self)
        ensures
            r == *self,
    {
        Note {
            id: self.id,
            title: self.title.clone(),
            content: self.content.clone(),
            created_at: self.created_at,
            updated_at: self.updated_at,
        }
    }
}

impl Clone for Goal {
    fn clone(&self) -> (r: Self)
        ensures
            r == *self,
    {
        Goal {
            id: self.id,
            title: self.title.clone(),
            motivation: self.motivation.clone(),
            created_at: self.created_at,
            updated_at: self.updated_at,
        }
    }
}

impl Clone for JournalEntry {
    fn clone(&self) -> (r: Self)
        ensures
            r == *self,
    {
        JournalEntry { id: self.id, date: self.date, content: self.content.clone() }
    }
}

impl Clone for PomodoroSession {
    fn clone(&self) -> (r: Self)
        ensures
            r == *self,
    {
        PomodoroSession {
            id: self.id,
            session_name: self.session_name.clone(),
            work_minutes: self.work_minutes,
            completed_at: self.completed_at,
        }
    }
}

impl Clone for PomodoroState {
    fn clone(&self) -> (r: Self)
        ensures
            r == *self,
    {
        PomodoroState {
            session_name: self.session_name.clone(),
            current_mode: self.current_mode.clone(),
            remaining_seconds: self.remaining_seconds,
            is_running: self.is_running,
            cycle_count: self.cycle_count,
            start_time: self.start_time,
        }
    }
}

} // verus!
