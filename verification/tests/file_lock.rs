//! A lock that one process holds at a time.

use agira::engine::file_lock::{lock_result, FileLockError, LockAttempt};

#[test]
fn a_lock_is_taken_or_left() {
    assert_eq!(lock_result("/l", LockAttempt::Taken, true), Ok(true));
    assert_eq!(lock_result("/l", LockAttempt::Taken, false), Ok(true));
    let contended = || LockAttempt::Contended { message: "busy".to_owned() };
    assert_eq!(lock_result("/l", contended(), false), Ok(false));
    assert_eq!(
        lock_result("/l", contended(), true),
        Err(FileLockError::Acquire { path: "/l".to_owned(), message: "busy".to_owned() })
    );
    assert!(matches!(
        lock_result("/l", LockAttempt::NotOpened { message: "m".to_owned() }, false),
        Err(FileLockError::Open { .. })
    ));
    assert!(matches!(
        lock_result("/l", LockAttempt::Failed { message: "m".to_owned() }, false),
        Err(FileLockError::Acquire { .. })
    ));
}
