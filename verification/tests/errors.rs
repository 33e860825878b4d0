use file_mutex::{MutexError, MutexExceptions};

#[test]
fn exception_names() {
    assert_eq!(MutexExceptions::AlreadyLocked.to_string(), "AlreadyLocked");
    assert_eq!(MutexExceptions::InvalidState.to_string(), "InvalidState");
}

#[test]
fn file_error_message() {
    let cause = std::io::Error::new(std::io::ErrorKind::Other, "disk on fire");
    assert_eq!(
        MutexError::File(cause).to_string(),
        "Error occurred while manipulating mutex file: disk on fire"
    );
    assert_eq!(
        MutexError::file_message("gone"),
        "Error occurred while manipulating mutex file: gone"
    );
}

#[test]
fn state_error_messages() {
    assert_eq!(
        MutexError::State(MutexExceptions::AlreadyLocked).to_string(),
        "Error occurred with runtime mutex: AlreadyLocked"
    );
    assert_eq!(
        MutexError::State(MutexExceptions::InvalidState).to_string(),
        "Error occurred with runtime mutex: InvalidState"
    );
    assert_eq!(
        MutexError::state_message(MutexExceptions::InvalidState),
        "Error occurred with runtime mutex: InvalidState"
    );
}

#[test]
fn generic_error_message_is_its_text() {
    assert_eq!(MutexError::Generic(String::from("not text")).to_string(), "not text");
    assert_eq!(MutexError::Generic(String::new()).to_string(), "");
}

#[test]
fn state_message_agrees_with_the_debug_form() {
    for exception in [MutexExceptions::AlreadyLocked, MutexExceptions::InvalidState] {
        assert_eq!(
            MutexError::State(exception).to_string(),
            format!("Error occurred with runtime mutex: {:#?}", exception)
        );
    }
}
