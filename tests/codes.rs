use libjuice_rs::error::{CODE_FAILED, CODE_INVALID, CODE_NOT_AVAILABLE, CODE_SUCCESS};
use libjuice_rs::{code_is_known, result_from_code, AgentError, AgentState, ConcurrencyMode, Error, State};

#[test]
fn success_code_is_ok() {
    assert!(code_is_known(CODE_SUCCESS));
    assert_eq!(result_from_code(0), Ok(()));
}

#[test]
fn error_codes_map_to_errors() {
    assert_eq!(result_from_code(CODE_INVALID), Err(Error::InvalidArgument));
    assert_eq!(result_from_code(CODE_FAILED), Err(Error::Failed));
    assert_eq!(result_from_code(CODE_NOT_AVAILABLE), Err(Error::NotAvailable));
    assert_eq!(result_from_code(-1), Err(Error::InvalidArgument));
    assert_eq!(result_from_code(-2), Err(Error::Failed));
    assert_eq!(result_from_code(-3), Err(Error::NotAvailable));
}

#[test]
fn unknown_codes_are_reported() {
    assert!(!code_is_known(1));
    assert!(!code_is_known(-4));
    assert!(!code_is_known(i32::MIN));
    assert!(code_is_known(-3));
}

#[test]
fn error_messages() {
    assert_eq!(Error::InvalidArgument.message(), "invalid argument");
    assert_eq!(Error::Failed.message(), "failure");
    assert_eq!(Error::NotAvailable.message(), "not available");
    let e: AgentError = Error::Failed;
    assert_eq!(e, Error::Failed);
}

#[test]
fn state_codes_decode() {
    assert_eq!(State::from_code(0), Some(State::Disconnected));
    assert_eq!(State::from_code(1), Some(State::Gathering));
    assert_eq!(State::from_code(2), Some(State::Connecting));
    assert_eq!(State::from_code(3), Some(State::Connected));
    assert_eq!(State::from_code(4), Some(State::Completed));
    assert_eq!(State::from_code(5), Some(State::Failed));
}

#[test]
fn unknown_state_codes_do_not_decode() {
    assert_eq!(State::from_code(6), None);
    assert_eq!(State::from_code(u32::MAX), None);
    let s: Option<AgentState> = State::from_code(4);
    assert_eq!(s, Some(State::Completed));
}

#[test]
fn concurrency_mode_codes() {
    assert_eq!(ConcurrencyMode::default(), ConcurrencyMode::Poll);
    assert_eq!(ConcurrencyMode::Poll.code(), 0);
    assert_eq!(ConcurrencyMode::Mux.code(), 1);
    assert_eq!(ConcurrencyMode::Thread.code(), 2);
}
