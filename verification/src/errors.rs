use vstd::prelude::*;

verus! {

/// The error taxonomy of the session multiplexer.
///
/// Every public operation reports failure through one of these variants;
/// none of them panics and none is retried automatically.
#[derive(Clone, Debug, PartialEq, Eq)]
pub enum SessionError {
    /// The given session identifier is not in the table.
    NotFound,
    /// The session's output reader was already handed out once.
    AlreadyTaken,
    /// Opening the pseudo-terminal, spawning the child, or taking the
    /// input writer failed; the payload describes the failure.
    SpawnError(String),
    /// A write, flush, resize or clone on a live transport failed;
    /// the payload describes the failure.
    IOError(String),
    /// The embedding shell could not acquire the table lock.
    LockError,
}

impl SessionError {
    /// A human-readable description of the error, for the boundary layer
    /// to surface as a command failure.
    pub fn message(&self) -> (r: String)
        ensures
            self is NotFound ==> r@ == "session not found"@,
            self is AlreadyTaken ==> r@ == "reader already taken for session"@,
            self matches SessionError::SpawnError(m) ==> r@ == m@,
            self matches SessionError::IOError(m) ==> r@ == m@,
            self is LockError ==> r@ == "session table lock poisoned"@,
    {
        match self {
            SessionError::NotFound => "session not found".to_owned(),
            SessionError::AlreadyTaken => "reader already taken for session".to_owned(),
            SessionError::SpawnError(m) => m.clone(),
            SessionError::IOError(m) => m.clone(),
            SessionError::LockError => "session table lock poisoned".to_owned(),
        }
    }
}

} // verus!
