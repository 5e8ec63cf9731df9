use vstd::prelude::*;
use crate::error::StoreError;
use crate::records::{Goal, JournalEntry, Note, PomodoroSession, PomodoroState, TodoItem};
use crate::time::{utc_now, Timestamp};

verus! {

/// The whole state of the planner: five collections and the pomodoro timer.
/// It is the unit that the caller saves and loads.
///
/// Ids are handed out as the length of the collection at the time of the
/// insertion, so after a removal a new record may share the id of an older one.
#[derive(Debug)]
pub struct AppData {
    pub todos: Vec<TodoItem>,
    pub notes: Vec<Note>,
    pub goals: Vec<Goal>,
    pub pomodoro: PomodoroState,
    pub journal_entries: Vec<JournalEntry>,
    pub pomodoro_sessions: Vec<PomodoroSession>,
}

/// The todo that `add_todo_at` appends.
pub open spec fn new_todo(id: int, text: String, now: Timestamp) -> TodoItem {
    TodoItem { id: id as usize, text, completed: false, created_at: now, updated_at: now }
}

/// `s` with the todo at `i` flipped and stamped with `now`.
pub open spec fn toggled(s: Seq<TodoItem>, i: int, now: Timestamp) -> Seq<TodoItem> {
    s.update(i, TodoItem { completed: !s[i].completed, updated_at: now, ..s[i] })
}

/// `i` is the first position of a todo with this id.
pub open spec fn first_todo(s: Seq<TodoItem>, id: usize, i: int) -> bool {
    0 <= i < s.len() && s[i].id == id && forall|j: int| 0 <= j < i ==> s[j].id != id
}

/// The note that `add_note_at` appends.
pub open spec fn new_note(id: int, title: String, content: String, now: Timestamp) -> Note {
    Note { id: id as usize, title, content, created_at: now, updated_at: now }
}

/// `i` is the first position of a note with this id.
pub open spec fn first_note(s: Seq<Note>, id: usize, i: int) -> bool {
    0 <= i < s.len() && s[i].id == id && forall|j: int| 0 <= j < i ==> s[j].id != id
}

/// The goal that `add_goal_at` appends.
pub open spec fn new_goal(id: int, title: String, motivation: String, now: Timestamp) -> Goal {
    Goal { id: id as usize, title, motivation, created_at: now, updated_at: now }
}

/// `i` is the first position of a goal with this id.
pub open spec fn first_goal(s: Seq<Goal>, id: usize, i: int) -> bool {
    0 <= i < s.len() && s[i].id == id && forall|j: int| 0 <= j < i ==> s[j].id != id
}

/// The pomodoro timer as a fresh store has it and as a reset leaves it: work
/// mode, 25 minutes to go, stopped, no cycles.
pub open spec fn pomodoro_initial(p: PomodoroState) -> bool {
    &&& p.session_name@ == Seq::<char>::empty()
    &&& p.current_mode@ == seq!['w', 'o', 'r', 'k']
    &&& p.remaining_seconds == 1500
    &&& !p.is_running
    &&& p.cycle_count == 0
    &&& p.start_time == 0
}

impl Clone for AppData {
    fn clone(&self) -> (r: Self)
        ensures
            r.todos@ == self.todos@,
            r.notes@ == self.notes@,
            r.goals@ == self.goals@,
            r.pomodoro == self.pomodoro,
            r.journal_entries@ == self.journal_entries@,
            r.pomodoro_sessions@ == self.pomodoro_sessions@,
    {
        let r = AppData {
            todos: self.todos.clone(),
            notes: self.notes.clone(),
            goals: self.goals.clone(),
            pomodoro: self.pomodoro.clone(),
            journal_entries: self.journal_entries.clone(),
            pomodoro_sessions: self.pomodoro_sessions.clone(),
        };
        proof {
            assert(r.todos@ =~= self.todos@);
            assert(r.notes@ =~= self.notes@);
            assert(r.goals@ =~= self.goals@);
            assert(r.journal_entries@ =~= self.journal_entries@);
            assert(r.pomodoro_sessions@ =~= self.pomodoro_sessions@);
        }
        r
    }
}

impl AppData {
    /// `self` agrees with `other` on the timer, the journal, the sessions,
    /// and on each of todos, notes and goals whose flag is false.
    pub open spec fn others_as(self, other: AppData, todos: bool, notes: bool, goals: bool) -> bool {
        &&& (todos || self.todos == other.todos)
        &&& (notes || self.notes == other.notes)
        &&& (goals || self.goals == other.goals)
        &&& self.pomodoro == other.pomodoro
        &&& self.journal_entries == other.journal_entries
        &&& self.pomodoro_sessions == other.pomodoro_sessions
    }

    /// An empty store with the timer in its initial state.
    pub fn new() -> (r: AppData)
        ensures
            r.todos@.len() == 0,
            r.notes@.len() == 0,
            r.goals@.len() == 0,
            pomodoro_initial(r.pomodoro),
            r.journal_entries@.len() == 0,
            r.pomodoro_sessions@.len() == 0,
    {
        AppData {
            todos: Vec::new(),
            notes: Vec::new(),
            goals: Vec::new(),
            pomodoro: PomodoroState::initial(),
            journal_entries: Vec::new(),
            pomodoro_sessions: Vec::new(),
        }
    }

    // ----- todos -----

    /// Appends a todo stamped with `now`, whose id is the number of todos
    /// before it, and returns the todos.
    pub fn add_todo_at(&mut self, text: String, now: Timestamp) -> (r: Vec<TodoItem>)
        ensures
            final(self).todos@ == old(self).todos@.push(new_todo(old(self).todos@.len() as int, text, now)),
            final(self).others_as(*old(self), true, false, false),
            r@ == final(self).todos@,
    {
        let id = self.todos.len();
        self.todos.push(TodoItem { id, text, completed: false, created_at: now, updated_at: now });
        self.todos.clone()
    }

    /// `add_todo_at` at the current time.
    pub fn add_todo(&mut self, text: String) -> (r: Vec<TodoItem>)
        ensures
            final(self).todos@.len() == old(self).todos@.len() + 1,
            final(self).todos@ == old(self).todos@.push(
                new_todo(old(self).todos@.len() as int, text, final(self).todos@.last().created_at),
            ),
            final(self).others_as(*old(self), true, false, false),
            r@ == final(self).todos@,
    {
        let now = utc_now();
        self.add_todo_at(text, now)
    }

    /// Removes every todo with this id and returns the rest, in order.
    pub fn remove_todo(&mut self, id: usize) -> (r: Vec<TodoItem>)
        ensures
            final(self).todos@ == old(self).todos@.filter(|t: TodoItem| t.id != id),
            final(self).others_as(*old(self), true, false, false),
            r@ == final(self).todos@,
    {
        let mut kept: Vec<TodoItem> = Vec::new();
        let mut i: usize = 0;
        while i < self.todos.len()
            invariant
                *self == *old(self),
                i <= self.todos@.len(),
                kept@ == self.todos@.take(i as int).filter(|t: TodoItem| t.id != id),
            decreases self.todos@.len() - i,
        {
            proof {
                lemma_filter_take_step(self.todos@, |t: TodoItem| t.id != id, i as int);
            }
            if self.todos[i].id != id {
                kept.push(self.todos[i].clone());
            }
            i += 1;
        }
        proof {
            assert(self.todos@.take(i as int) =~= self.todos@);
        }
        self.todos = kept;
        self.todos.clone()
    }

    /// Flips the first todo with this id and stamps it with `now`; without
    /// such a todo nothing changes. Returns the todos either way.
    pub fn toggle_todo_at(&mut self, id: usize, now: Timestamp) -> (r: Vec<TodoItem>)
        ensures
            forall|i: int| first_todo(old(self).todos@, id, i)
                ==> final(self).todos@ == toggled(old(self).todos@, i, now),
            (forall|j: int| 0 <= j < old(self).todos@.len() ==> old(self).todos@[j].id != id)
                ==> final(self).todos@ == old(self).todos@,
            final(self).others_as(*old(self), true, false, false),
            r@ == final(self).todos@,
    {
        let mut i: usize = 0;
        while i < self.todos.len()
            invariant
                *self == *old(self),
                i <= self.todos@.len(),
                forall|j: int| 0 <= j < i ==> self.todos@[j].id != id,
            decreases self.todos@.len() - i,
        {
            if self.todos[i].id == id {
                let mut t = self.todos[i].clone();
                t.completed = !t.completed;
                t.updated_at = now;
                self.todos.set(i, t);
                proof {
                    assert(self.todos@ =~= toggled(old(self).todos@, i as int, now));
                }
                return self.todos.clone();
            }
            i += 1;
        }
        self.todos.clone()
    }

    /// `toggle_todo_at` at the current time.
    pub fn toggle_todo(&mut self, id: usize) -> (r: Vec<TodoItem>)
        ensures
            forall|i: int| first_todo(old(self).todos@, id, i)
                ==> final(self).todos@ == toggled(old(self).todos@, i, final(self).todos@[i].updated_at),
            (forall|j: int| 0 <= j < old(self).todos@.len() ==> old(self).todos@[j].id != id)
                ==> final(self).todos@ == old(self).todos@,
            final(self).others_as(*old(self), true, false, false),
            r@ == final(self).todos@,
    {
        let now = utc_now();
        self.toggle_todo_at(id, now)
    }

    /// The todos, in order.
    pub fn get_todos(&self) -> (r: Vec<TodoItem>)
        ensures
            r@ == self.todos@,
    {
        self.todos.clone()
    }

    // ----- notes -----

    /// Appends a note stamped with `now`, whose id is the number of notes before
    /// it, and returns the notes.
    pub fn add_note_at(&mut self, title: String, content: String, now: Timestamp) -> (r: Vec<Note>)
        ensures
            final(self).notes@ == old(self).notes@.push(new_note(old(self).notes@.len() as int, title, content, now)),
            final(self).others_as(*old(self), false, true, false),
            r@ == final(self).notes@,
    {
        let id = self.notes.len();
        self.notes.push(Note { id, title, content, created_at: now, updated_at: now });
        self.notes.clone()
    }

    /// `add_note_at` at the current time.
    pub fn add_note(&mut self, title: String, content: String) -> (r: Vec<Note>)
        ensures
            final(self).notes@.len() == old(self).notes@.len() + 1,
            final(self).notes@ == old(self).notes@.push(new_note(
                old(self).notes@.len() as int,
                title,
                content,
                final(self).notes@.last().created_at,
            )),
            final(self).others_as(*old(self), false, true, false),
            r@ == final(self).notes@,
    {
        let now = utc_now();
        self.add_note_at(title, content, now)
    }

    /// Gives the first note with this id the new title and content, stamped with
    /// `now`, and returns the notes; without such a note, fails and changes
    /// nothing.
    pub fn update_note_at(&mut self, id: usize, title: String, content: String, now: Timestamp) -> (r: Result<Vec<Note>, StoreError>)
        ensures
            forall|i: int| first_note(old(self).notes@, id, i) ==> {
                &&& final(self).notes@ == old(self).notes@.update(
                    i,
                    Note { title, content, updated_at: now, ..old(self).notes@[i] },
                )
                &&& r matches Ok(v) && v@ == final(self).notes@
            },
            (forall|j: int| 0 <= j < old(self).notes@.len() ==> old(self).notes@[j].id != id) ==> {
                &&& r == Err::<Vec<Note>, StoreError>(StoreError::NoteNotFound)
                &&& final(self).notes == old(self).notes
            },
            final(self).others_as(*old(self), false, true, false),
    {
        let mut i: usize = 0;
        while i < self.notes.len()
            invariant
                *self == *old(self),
                i <= self.notes@.len(),
                forall|j: int| 0 <= j < i ==> self.notes@[j].id != id,
            decreases self.notes@.len() - i,
        {
            if self.notes[i].id == id {
                let old_item = self.notes[i].clone();
                let item = Note { title, content, updated_at: now, ..old_item };
                self.notes.set(i, item);
                return Ok(self.notes.clone());
            }
            i += 1;
        }
        Err(StoreError::NoteNotFound)
    }

    /// `update_note_at` at the current time.
    pub fn update_note(&mut self, id: usize, title: String, content: String) -> (r: Result<Vec<Note>, StoreError>)
        ensures
            forall|i: int| first_note(old(self).notes@, id, i) ==> {
                &&& final(self).notes@ == old(self).notes@.update(
                    i,
                    Note { title, content, updated_at: final(self).notes@[i].updated_at, ..old(self).notes@[i] },
                )
                &&& r matches Ok(v) && v@ == final(self).notes@
            },
            (forall|j: int| 0 <= j < old(self).notes@.len() ==> old(self).notes@[j].id != id) ==> {
                &&& r == Err::<Vec<Note>, StoreError>(StoreError::NoteNotFound)
                &&& final(self).notes == old(self).notes
            },
            final(self).others_as(*old(self), false, true, false),
    {
        let now = utc_now();
        self.update_note_at(id, title, content, now)
    }

    /// Removes every note with this id and returns the rest, in order.
    pub fn delete_note(&mut self, id: usize) -> (r: Vec<Note>)
        ensures
            final(self).notes@ == old(self).notes@.filter(|x: Note| x.id != id),
            final(self).others_as(*old(self), false, true, false),
            r@ == final(self).notes@,
    {
        let mut kept: Vec<Note> = Vec::new();
        let mut i: usize = 0;
        while i < self.notes.len()
            invariant
                *self == *old(self),
                i <= self.notes@.len(),
                kept@ == self.notes@.take(i as int).filter(|x: Note| x.id != id),
            decreases self.notes@.len() - i,
        {
            proof {
                lemma_filter_take_step(self.notes@, |x: Note| x.id != id, i as int);
            }
            if self.notes[i].id != id {
                kept.push(self.notes[i].clone());
            }
            i += 1;
        }
        proof {
            assert(self.notes@.take(i as int) =~= self.notes@);
        }
        self.notes = kept;
        self.notes.clone()
    }

    /// The notes, in order.
    pub fn get_notes(&self) -> (r: Vec<Note>)
        ensures
            r@ == self.notes@,
    {
        self.notes.clone()
    }

    // ----- goals -----

    /// Appends a goal stamped with `now`, whose id is the number of goals before
    /// it, and returns the goals.
    pub fn add_goal_at(&mut self, title: String, motivation: String, now: Timestamp) -> (r: Vec<Goal>)
        ensures
            final(self).goals@ == old(self).goals@.push(new_goal(old(self).goals@.len() as int, title, motivation, now)),
            final(self).others_as(*old(self), false, false, true),
            r@ == final(self).goals@,
    {
        let id = self.goals.len();
        self.goals.push(Goal { id, title, motivation, created_at: now, updated_at: now });
        self.goals.clone()
    }

    /// `add_goal_at` at the current time.
    pub fn add_goal(&mut self, title: String, motivation: String) -> (r: Vec<Goal>)
        ensures
            final(self).goals@.len() == old(self).goals@.len() + 1,
            final(self).goals@ == old(self).goals@.push(new_goal(
                old(self).goals@.len() as int,
                title,
                motivation,
                final(self).goals@.last().created_at,
            )),
            final(self).others_as(*old(self), false, false, true),
            r@ == final(self).goals@,
    {
        let now = utc_now();
        self.add_goal_at(title, motivation, now)
    }

    /// Gives the first goal with this id the new title and motivation, stamped with
    /// `now`, and returns the goals; without such a goal, fails and changes
    /// nothing.
    pub fn update_goal_at(&mut self, id: usize, title: String, motivation: String, now: Timestamp) -> (r: Result<Vec<Goal>, StoreError>)
        ensures
            forall|i: int| first_goal(old(self).goals@, id, i) ==> {
                &&& final(self).goals@ == old(self).goals@.update(
                    i,
                    Goal { title, motivation, updated_at: now, ..old(self).goals@[i] },
                )
                &&& r matches Ok(v) && v@ == final(self).goals@
            },
            (forall|j: int| 0 <= j < old(self).goals@.len() ==> old(self).goals@[j].id != id) ==> {
                &&& r == Err::<Vec<Goal>, StoreError>(StoreError::GoalNotFound)
                &&& final(self).goals == old(self).goals
            },
            final(self).others_as(*old(self), false, false, true),
    {
        let mut i: usize = 0;
        while i < self.goals.len()
            invariant
                *self == *old(self),
                i <= self.goals@.len(),
                forall|j: int| 0 <= j < i ==> self.goals@[j].id != id,
            decreases self.goals@.len() - i,
        {
            if self.goals[i].id == id {
                let old_item = self.goals[i].clone();
                let item = Goal { title, motivation, updated_at: now, ..old_item };
                self.goals.set(i, item);
                return Ok(self.goals.clone());
            }
            i += 1;
        }
        Err(StoreError::GoalNotFound)
    }

    /// `update_goal_at` at the current time.
    pub fn update_goal(&mut self, id: usize, title: String, motivation: String) -> (r: Result<Vec<Goal>, StoreError>)
        ensures
            forall|i: int| first_goal(old(self).goals@, id, i) ==> {
                &&& final(self).goals@ == old(self).goals@.update(
                    i,
                    Goal { title, motivation, updated_at: final(self).goals@[i].updated_at, ..old(self).goals@[i] },
                )
                &&& r matches Ok(v) && v@ == final(self).goals@
            },
            (forall|j: int| 0 <= j < old(self).goals@.len() ==> old(self).goals@[j].id != id) ==> {
                &&& r == Err::<Vec<Goal>, StoreError>(StoreError::GoalNotFound)
                &&& final(self).goals == old(self).goals
            },
            final(self).others_as(*old(self), false, false, true),
    {
        let now = utc_now();
        self.update_goal_at(id, title, motivation, now)
    }

    /// Removes every goal with this id and returns the rest, in order.
    pub fn remove_goal(&mut self, id: usize) -> (r: Vec<Goal>)
        ensures
            final(self).goals@ == old(self).goals@.filter(|x: Goal| x.id != id),
            final(self).others_as(*old(self), false, false, true),
            r@ == final(self).goals@,
    {
        let mut kept: Vec<Goal> = Vec::new();
        let mut i: usize = 0;
        while i < self.goals.len()
            invariant
                *self == *old(self),
                i <= self.goals@.len(),
                kept@ == self.goals@.take(i as int).filter(|x: Goal| x.id != id),
            decreases self.goals@.len() - i,
        {
            proof {
                lemma_filter_take_step(self.goals@, |x: Goal| x.id != id, i as int);
            }
            if self.goals[i].id != id {
                kept.push(self.goals[i].clone());
            }
            i += 1;
        }
        proof {
            assert(self.goals@.take(i as int) =~= self.goals@);
        }
        self.goals = kept;
        self.goals.clone()
    }

    /// The goals, in order.
    pub fn get_goals(&self) -> (r: Vec<Goal>)
        ensures
            r@ == self.goals@,
    {
        self.goals.clone()
    }
}

/// One step of `filter` over a growing prefix.
proof fn lemma_filter_take_step<A>(s: Seq<A>, pred: spec_fn(A) -> bool, i: int)
    requires
        0 <= i < s.len(),
    ensures
        s.take(i + 1).filter(pred) == (if pred(s[i]) {
            s.take(i).filter(pred).push(s[i])
        } else {
            s.take(i).filter(pred)
        }),
{
    reveal(Seq::filter);
    assert(s.take(i + 1).drop_last() =~= s.take(i));
}

} // verus!
