use vstd::prelude::*;
use crate::records::{PomodoroSession, PomodoroState};
use crate::store::{pomodoro_initial, AppData};
use crate::time::{utc_now, Timestamp};

verus! {

/// The milliseconds since the epoch of an instant, cut to 64 bits.
pub open spec fn epoch_millis_spec(t: Timestamp) -> u64 {
    (t.secs as int * 1000 + t.nanos as int / 1_000_000) as u64
}

impl Timestamp {
    /// Milliseconds since the epoch of an instant at or after it, cut to 64
    /// bits.
    pub fn epoch_millis(&self) -> (r: u64)
        requires
            self.secs >= 0,
        ensures
            r == epoch_millis_spec(*self),
    {
        let m: u128 = (self.secs as u128) * 1000 + (self.nanos / 1_000_000) as u128;
        m as u64
    }
}

/// The session that `save_pomodoro_session_at` appends.
pub open spec fn new_session(id: int, session_name: String, work_minutes: u32, now: Timestamp) -> PomodoroSession {
    PomodoroSession { id: id as usize, session_name, work_minutes, completed_at: now }
}

impl PomodoroState {
    /// The timer in work mode with 25 minutes to go, stopped, with no cycles.
    pub fn initial() -> (r: PomodoroState)
        ensures
            pomodoro_initial(r),
    {
        let mode = String::from_str("work");
        proof {
            reveal_strlit("work");
            assert(mode@ =~= seq!['w', 'o', 'r', 'k']);
        }
        PomodoroState {
            session_name: String::new(),
            current_mode: mode,
            remaining_seconds: 1500,
            is_running: false,
            cycle_count: 0,
            start_time: 0,
        }
    }
}

impl AppData {
    /// Everything but the timer stays as it was.
    pub open spec fn all_but_timer_as(self, other: AppData) -> bool {
        &&& self.todos == other.todos
        &&& self.notes == other.notes
        &&& self.goals == other.goals
        &&& self.journal_entries == other.journal_entries
        &&& self.pomodoro_sessions == other.pomodoro_sessions
    }

    /// The timer as it stands.
    pub fn get_pomodoro_state(&self) -> (r: PomodoroState)
        ensures
            r == self.pomodoro,
    {
        self.pomodoro.clone()
    }

    /// Replaces the timer with the given one, as it is.
    pub fn update_pomodoro_state(&mut self, pomodoro_state: PomodoroState)
        ensures
            final(self).pomodoro == pomodoro_state,
            final(self).all_but_timer_as(*old(self)),
    {
        self.pomodoro = pomodoro_state;
    }

    /// Replaces the timer with the given one, field by field.
    pub fn save_pomodoro_state(&mut self, pomodoro_state: PomodoroState)
        ensures
            final(self).pomodoro == pomodoro_state,
            final(self).all_but_timer_as(*old(self)),
    {
        self.pomodoro = PomodoroState {
            session_name: pomodoro_state.session_name,
            current_mode: pomodoro_state.current_mode,
            remaining_seconds: pomodoro_state.remaining_seconds,
            is_running: pomodoro_state.is_running,
            cycle_count: pomodoro_state.cycle_count,
            start_time: pomodoro_state.start_time,
        };
    }

    /// Marks the timer running from `now_millis` (milliseconds since the
    /// epoch) and returns it; mode, name, remaining time and cycles stay.
    pub fn start_pomodoro_at(&mut self, now_millis: u64) -> (r: PomodoroState)
        ensures
            final(self).pomodoro == (PomodoroState { is_running: true, start_time: now_millis, ..old(self).pomodoro }),
            final(self).all_but_timer_as(*old(self)),
            r == final(self).pomodoro,
    {
        self.pomodoro.is_running = true;
        self.pomodoro.start_time = now_millis;
        self.pomodoro.clone()
    }

    /// `start_pomodoro_at` at the current time.
    pub fn start_pomodoro(&mut self) -> (r: PomodoroState)
        ensures
            final(self).pomodoro == (PomodoroState {
                is_running: true,
                start_time: final(self).pomodoro.start_time,
                ..old(self).pomodoro
            }),
            final(self).all_but_timer_as(*old(self)),
            r == final(self).pomodoro,
    {
        let now = utc_now();
        let millis = now.epoch_millis();
        self.start_pomodoro_at(millis)
    }

    /// Marks the timer stopped and returns it; the remaining time and the
    /// start time stay.
    pub fn stop_pomodoro(&mut self) -> (r: PomodoroState)
        ensures
            final(self).pomodoro == (PomodoroState { is_running: false, ..old(self).pomodoro }),
            final(self).all_but_timer_as(*old(self)),
            r == final(self).pomodoro,
    {
        self.pomodoro.is_running = false;
        self.pomodoro.clone()
    }

    /// Puts the timer back in its initial state, whatever it held, and
    /// returns it.
    pub fn reset_pomodoro(&mut self) -> (r: PomodoroState)
        ensures
            pomodoro_initial(final(self).pomodoro),
            final(self).all_but_timer_as(*old(self)),
            r == final(self).pomodoro,
    {
        self.pomodoro = PomodoroState::initial();
        self.pomodoro.clone()
    }

    /// Records a finished work period at `now`, whose id is the number of
    /// sessions before it, and returns the history.
    pub fn save_pomodoro_session_at(&mut self, session_name: String, work_minutes: u32, now: Timestamp) -> (r: Vec<PomodoroSession>)
        ensures
            final(self).pomodoro_sessions@ == old(self).pomodoro_sessions@.push(
                new_session(old(self).pomodoro_sessions@.len() as int, session_name, work_minutes, now),
            ),
            final(self).todos == old(self).todos,
            final(self).notes == old(self).notes,
            final(self).goals == old(self).goals,
            final(self).pomodoro == old(self).pomodoro,
            final(self).journal_entries == old(self).journal_entries,
            r@ == final(self).pomodoro_sessions@,
    {
        let id = self.pomodoro_sessions.len();
        self.pomodoro_sessions.push(PomodoroSession { id, session_name, work_minutes, completed_at: now });
        self.pomodoro_sessions.clone()
    }

    /// `save_pomodoro_session_at` at the current time.
    pub fn save_pomodoro_session(&mut self, session_name: String, work_minutes: u32) -> (r: Vec<PomodoroSession>)
        ensures
            final(self).pomodoro_sessions@.len() == old(self).pomodoro_sessions@.len() + 1,
            final(self).pomodoro_sessions@ == old(self).pomodoro_sessions@.push(
                new_session(
                    old(self).pomodoro_sessions@.len() as int,
                    session_name,
                    work_minutes,
                    final(self).pomodoro_sessions@.last().completed_at,
                ),
            ),
            final(self).todos == old(self).todos,
            final(self).notes == old(self).notes,
            final(self).goals == old(self).goals,
            final(self).pomodoro == old(self).pomodoro,
            final(self).journal_entries == old(self).journal_entries,
            r@ == final(self).pomodoro_sessions@,
    {
        let now = utc_now();
        self.save_pomodoro_session_at(session_name, work_minutes, now)
    }

    /// The history of finished work periods, in order.
    pub fn get_pomodoro_sessions(&self) -> (r: Vec<PomodoroSession>)
        ensures
            r@ == self.pomodoro_sessions@,
    {
        self.pomodoro_sessions.clone()
    }
}

} // verus!
