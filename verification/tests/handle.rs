use file_mutex::{Mutex, MutexError, MutexState, StateWrite};

fn refused() -> std::io::Error {
    std::io::Error::new(std::io::ErrorKind::PermissionDenied, "read-only")
}

#[test]
fn default_construction() {
    let handle = Mutex::new();
    assert_eq!(handle.path, ".mutex.lock");
    assert_eq!(handle.timeout, 10);
    assert_eq!(handle.state, MutexState::Locked);
    let other = Mutex::default();
    assert_eq!(other.path, ".mutex.lock");
    assert_eq!(other.timeout, 10);
    assert_eq!(other.state, MutexState::Locked);
}

#[test]
fn setters_chain() {
    let handle = Mutex::new().set_path("/tmp/job.lock").set_timeout(2);
    assert_eq!(handle.path, "/tmp/job.lock");
    assert_eq!(handle.timeout, 2);
    assert_eq!(handle.state, MutexState::Locked);
}

#[test]
fn setters_update_the_receiver_too() {
    let mut handle = Mutex::new();
    let updated = handle.set_timeout(0);
    assert_eq!(updated.timeout, 0);
    assert_eq!(handle.timeout, 0);
    let updated = handle.set_path("");
    assert_eq!(updated.path, "");
    assert_eq!(handle.path, "");
    assert_eq!(handle.timeout, 0);
    let updated = handle.set_timeout(u64::MAX);
    assert_eq!(updated.timeout, u64::MAX);
    assert_eq!(updated.path, "");
}

#[test]
fn lock_asks_for_locked_to_be_written() {
    let mut handle = Mutex::new().set_path("a.lock");
    handle.state = MutexState::Open;
    let write = handle.lock();
    assert_eq!(write.path, "a.lock");
    assert_eq!(write.contents, "Locked");
    assert_eq!(handle.state, MutexState::Locked);
    assert_eq!(handle.path, "a.lock");
    assert_eq!(handle.timeout, 10);
}

#[test]
fn open_asks_for_open_to_be_written() {
    let mut handle = Mutex::new();
    let write = handle.open();
    assert_eq!(write.path, ".mutex.lock");
    assert_eq!(write.contents, "Open");
    assert_eq!(handle.state, MutexState::Open);
}

#[test]
fn sync_asks_for_the_current_state_to_be_written() {
    let mut handle = Mutex::new().set_path("b.lock");
    let write = handle.sync();
    assert_eq!(write.path, "b.lock");
    assert_eq!(write.contents, "Locked");
    assert_eq!(handle.state, MutexState::Locked);
    handle.lock_open().unwrap();
    let write = handle.sync();
    assert_eq!(write.contents, "Open");
    assert_eq!(handle.state, MutexState::Open);
}

#[test]
fn local_transitions_change_the_handle_only() {
    let mut handle = Mutex::new().set_timeout(4);
    let opened = handle.set_open_local().unwrap();
    assert_eq!(opened.state, MutexState::Open);
    assert_eq!(handle.state, MutexState::Open);
    assert_eq!(opened.timeout, 4);
    assert_eq!(opened.path, ".mutex.lock");
    let locked = handle.set_locked_local().unwrap();
    assert_eq!(locked.state, MutexState::Locked);
    assert_eq!(handle.state, MutexState::Locked);
    assert_eq!(locked.timeout, 4);
    assert_eq!(locked.path, ".mutex.lock");
}

#[test]
fn local_lock_locks_and_lock_open_opens() {
    let mut handle = Mutex::new().set_path("f.lock");
    let opened = handle.lock_open().unwrap();
    assert_eq!(opened.state, MutexState::Open);
    assert_eq!(handle.state, MutexState::Open);
    assert_eq!(opened.path, "f.lock");
    let locked = handle.local_lock().unwrap();
    assert_eq!(locked.state, MutexState::Locked);
    assert_eq!(handle.state, MutexState::Locked);
    assert_eq!(locked.timeout, 10);
}

#[test]
fn local_transitions_are_idempotent() {
    let mut handle = Mutex::new();
    assert_eq!(handle.set_locked_local().unwrap().state, MutexState::Locked);
    assert_eq!(handle.set_locked_local().unwrap().state, MutexState::Locked);
    assert_eq!(handle.set_open_local().unwrap().state, MutexState::Open);
    assert_eq!(handle.set_open_local().unwrap().state, MutexState::Open);
}

#[test]
fn clone_keeps_state_and_settings() {
    let mut handle = Mutex::new().set_path("g.lock").set_timeout(3);
    handle.set_open_local().unwrap();
    let copy = handle.clone();
    assert_eq!(copy.state, MutexState::Open);
    assert_eq!(copy.path, "g.lock");
    assert_eq!(copy.timeout, 3);
}

#[test]
fn a_performed_write_returns_the_handle() {
    let mut handle = Mutex::new().set_path("c.lock").set_timeout(7);
    let _write = handle.open();
    let result = handle.synced(Ok(())).unwrap();
    assert_eq!(result.state, MutexState::Open);
    assert_eq!(result.path, "c.lock");
    assert_eq!(result.timeout, 7);
}

#[test]
fn a_refused_write_is_a_file_error() {
    let mut handle = Mutex::new();
    let _write = handle.lock();
    match handle.synced(Err(refused())) {
        Err(MutexError::File(cause)) => {
            assert_eq!(cause.kind(), std::io::ErrorKind::PermissionDenied)
        }
        other => panic!("expected a file error, got {:?}", other),
    }
    assert!(StateWrite::done(Ok(())).is_ok());
    assert!(matches!(StateWrite::done(Err(refused())), Err(MutexError::File(_))));
}

#[test]
fn state_sync_names_the_path_and_the_word() {
    let write = MutexState::Open.sync("d.lock");
    assert_eq!(write.path, "d.lock");
    assert_eq!(write.contents, "Open");
    let write = MutexState::Locked.sync("");
    assert_eq!(write.path, "");
    assert_eq!(write.contents, "Locked");
}

#[test]
fn what_is_written_reads_back() {
    for state in [MutexState::Locked, MutexState::Open] {
        let write = state.sync("e.lock");
        let file = write.contents.into_bytes();
        assert_eq!(MutexState::from_read(Ok(file)).unwrap(), state);
    }
}

#[test]
fn two_handles_locking_leave_one_whole_word() {
    let mut file = MutexState::Open.sync("shared.lock").contents.into_bytes();
    let mut first = Mutex::new().set_path("shared.lock");
    let mut second = Mutex::new().set_path("shared.lock");
    let a = first.lock();
    let b = second.lock();
    assert_eq!(a.path, b.path);
    for write in [a, b] {
        file = write.contents.into_bytes();
        assert!(file == b"Locked" || file == b"Open");
    }
    assert_eq!(file, b"Locked");
    assert_eq!(MutexState::from_read(Ok(file)).unwrap(), MutexState::Locked);
    assert!(first.synced(Ok(())).is_ok());
    assert!(second.synced(Ok(())).is_ok());
}
