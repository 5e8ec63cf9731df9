use vstd::prelude::*;

verus! {

/// Why an operation of the store was refused.
#[derive(Clone, Copy, Debug, PartialEq, Eq, Structural)]
pub enum StoreError {
    /// No note has the id that an update names.
    NoteNotFound,
    /// No goal has the id that an update names.
    GoalNotFound,
    /// A journal date is not an RFC 3339 date-time.
    InvalidDate,
}

} // verus!
