//! Locks that keep two processes from changing the same files.

use vstd::prelude::*;

use crate::duplicate::Duplicate;

verus! {

/// Why a lock could not be taken.
#[derive(Debug, PartialEq, Eq)]
pub enum FileLockError {
    Open { path: String, message: String },
    Acquire { path: String, message: String },
}

/// The contents of a `FileLockError`.
#[verifier::ext_equal]
pub enum FileLockErrorView {
    Open { path: Seq<char>, message: Seq<char> },
    Acquire { path: Seq<char>, message: Seq<char> },
}

impl View for FileLockError {
    type V = FileLockErrorView;

    open spec fn view(&self) -> FileLockErrorView {
        match self {
            FileLockError::Open { path, message } => FileLockErrorView::Open { path: path@, message: message@ },
            FileLockError::Acquire { path, message } => FileLockErrorView::Acquire { path: path@, message: message@ },
        }
    }
}

impl DeepView for FileLockError {
    type V = FileLockErrorView;

    open spec fn deep_view(&self) -> FileLockErrorView {
        self@
    }
}

impl Duplicate for FileLockError {
    fn duplicate(&self) -> (r: Self) {
        match self {
            FileLockError::Open { path, message } => FileLockError::Open { path: path.duplicate(), message: message.duplicate() },
            FileLockError::Acquire { path, message } => FileLockError::Acquire { path: path.duplicate(), message: message.duplicate() },
        }
    }
}

impl Clone for FileLockError {
    fn clone(&self) -> (r: Self)
        ensures
            r@ == self@,
    {
        self.duplicate()
    }
}

impl FileLockErrorView {
    /// The text shown for the error.
    pub open spec fn message(self) -> Seq<char> {
        match self {
            FileLockErrorView::Open { path, .. } => "failed to open lock file "@ + path,
            FileLockErrorView::Acquire { path, .. } => "failed to acquire lock file "@ + path,
        }
    }
}

impl FileLockError {
    /// The text shown for the error.
    pub fn message(&self) -> (r: String)
        ensures
            r@ == self@.message(),
    {
        match self {
            FileLockError::Open { path, .. } => {
                let mut out = "failed to open lock file ".to_owned();
                out.push_str(path.as_str());
                out
            },
            FileLockError::Acquire { path, .. } => {
                let mut out = "failed to acquire lock file ".to_owned();
                out.push_str(path.as_str());
                out
            },
        }
    }
}


/// What trying to take a lock gave.
#[derive(Debug, PartialEq, Eq)]
pub enum LockAttempt {
    /// The file could not be opened.
    NotOpened { message: String },
    /// The lock was taken.
    Taken,
    /// Another process holds the lock.
    Contended { message: String },
    /// The lock could not be taken for another reason.
    Failed { message: String },
}

/// The contents of a `LockAttempt`.
#[verifier::ext_equal]
pub enum LockAttemptView {
    NotOpened { message: Seq<char> },
    Taken,
    Contended { message: Seq<char> },
    Failed { message: Seq<char> },
}

impl View for LockAttempt {
    type V = LockAttemptView;

    open spec fn view(&self) -> LockAttemptView {
        match self {
            LockAttempt::NotOpened { message } => LockAttemptView::NotOpened { message: message@ },
            LockAttempt::Taken => LockAttemptView::Taken,
            LockAttempt::Contended { message } => LockAttemptView::Contended { message: message@ },
            LockAttempt::Failed { message } => LockAttemptView::Failed { message: message@ },
        }
    }
}

impl DeepView for LockAttempt {
    type V = LockAttemptView;

    open spec fn deep_view(&self) -> LockAttemptView {
        self@
    }
}

impl Duplicate for LockAttempt {
    fn duplicate(&self) -> (r: Self) {
        match self {
            LockAttempt::NotOpened { message } => LockAttempt::NotOpened { message: message.duplicate() },
            LockAttempt::Taken => LockAttempt::Taken,
            LockAttempt::Contended { message } => LockAttempt::Contended { message: message.duplicate() },
            LockAttempt::Failed { message } => LockAttempt::Failed { message: message.duplicate() },
        }
    }
}

impl Clone for LockAttempt {
    fn clone(&self) -> (r: Self)
        ensures
            r@ == self@,
    {
        self.duplicate()
    }
}


/// Whether a lock is held after trying to take it. One who does not wait for it is told that
/// another process holds it; one who waits is told why it could not be taken.
pub fn lock_result(path: &str, attempt: LockAttempt, waits: bool) -> (r: Result<bool, FileLockError>)
    ensures
        match r {
            Ok(held) => (attempt is Taken && held) || (attempt is Contended && !waits && !held),
            Err(e) => e@ == match attempt@ {
                LockAttemptView::NotOpened { message } => FileLockErrorView::Open {
                    path: path@,
                    message,
                },
                LockAttemptView::Contended { message } => FileLockErrorView::Acquire {
                    path: path@,
                    message,
                },
                LockAttemptView::Failed { message } => FileLockErrorView::Acquire {
                    path: path@,
                    message,
                },
                LockAttemptView::Taken => e@,
            } && !(attempt is Taken) && !(attempt is Contended && !waits),
        },
{
    match attempt {
        LockAttempt::NotOpened { message } => Err(
            FileLockError::Open { path: path.to_owned(), message },
        ),
        LockAttempt::Taken => Ok(true),
        LockAttempt::Contended { message } => if waits {
            Err(FileLockError::Acquire { path: path.to_owned(), message })
        } else {
            Ok(false)
        },
        LockAttempt::Failed { message } => Err(
            FileLockError::Acquire { path: path.to_owned(), message },
        ),
    }
}

} // verus!
