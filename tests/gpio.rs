use sous_vide::gpio::{Direction, PinError, State};

#[test]
fn direction_words() {
    assert_eq!(Direction::In.name(), "in");
    assert_eq!(Direction::Out.name(), "out");
}

#[test]
fn output_lines_start_low() {
    assert_eq!(Direction::Out.initial_state(), Some(State::Low));
    assert_eq!(Direction::In.initial_state(), None);
}

#[test]
fn read_levels() {
    assert_eq!(State::from_read([b'0'], 1), Ok(State::Low));
    assert_eq!(State::from_read([b'1'], 1), Ok(State::High));
}

#[test]
fn read_without_byte_is_an_error() {
    assert_eq!(State::from_read([b'1'], 0), Err(PinError::NoState));
}

#[test]
fn read_of_other_byte_is_an_error() {
    assert_eq!(State::from_read([b'2'], 1), Err(PinError::UnexpectedState));
    assert_eq!(State::from_read([b'\n'], 1), Err(PinError::UnexpectedState));
}

#[test]
fn level_bytes() {
    assert_eq!(State::Low.byte(), b'0');
    assert_eq!(State::High.byte(), b'1');
    assert_eq!(State::from_bool(true), State::High);
    assert_eq!(State::from_bool(false), State::Low);
}

#[test]
fn pin_error_messages() {
    assert_eq!(PinError::NoState.message(), "no state read from pin");
    assert_eq!(PinError::UnexpectedState.message(), "unexpected state read from pin");
    assert_eq!(PinError::Seek.message(), "unable to seek gpio fd");
    assert_eq!(PinError::Write.message(), "unable to set gpio state");
}
