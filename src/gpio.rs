//! What travels over a digital line's control files: its direction, its
//! logic level, and the errors of talking to it.
use vstd::prelude::*;

verus! {

/// Whether a line is read or driven.
#[derive(Clone, Copy, Debug, PartialEq, Eq, Structural)]
pub enum Direction {
    In,
    Out,
}

/// Logic level of a line.
#[derive(Clone, Copy, Debug, PartialEq, Eq, Structural)]
pub enum State {
    Low,
    High,
}

/// Why an operation on a line failed.
#[derive(Clone, Copy, Debug, PartialEq, Eq, Structural)]
pub enum PinError {
    /// The line's control files could not be opened.
    Open,
    /// The direction could not be written.
    SetDirection,
    /// The initial level of an output line could not be written.
    SetValue,
    /// The value file could not be rewound.
    Seek,
    /// The value file could not be read.
    Read,
    /// Reading the value file gave no byte.
    NoState,
    /// Reading the value file gave a byte other than `'0'` or `'1'`.
    UnexpectedState,
    /// The level could not be written.
    Write,
}

/// The level that a byte of the value file stands for, if any.
pub open spec fn state_of_byte(b: u8) -> Option<State> {
    if b == 0x30 {
        Some(State::Low)
    } else if b == 0x31 {
        Some(State::High)
    } else {
        None
    }
}

/// What one read of the value file that gave `bytes_read` bytes, the first
/// being `b`, says of the line.
pub open spec fn state_of_read(b: u8, bytes_read: usize) -> Result<State, PinError> {
    if bytes_read == 0 {
        Err(PinError::NoState)
    } else {
        match state_of_byte(b) {
            Some(s) => Ok(s),
            None => Err(PinError::UnexpectedState),
        }
    }
}

/// The byte of the value file that stands for level `s`.
pub open spec fn byte_of_state(s: State) -> u8 {
    match s {
        State::Low => 0x30,
        State::High => 0x31,
    }
}

impl Direction {
    /// The word that the direction file takes for this direction.
    pub fn name(&self) -> (r: &'static str)
        ensures
            *self == Direction::In ==> r@ == "in"@,
            *self == Direction::Out ==> r@ == "out"@,
    {
        match self {
            Direction::In => "in",
            Direction::Out => "out",
        }
    }

    /// The level a line is driven to when it is opened in this direction:
    /// an output starts Low, an input is left alone.
    pub fn initial_state(&self) -> (r: Option<State>)
        ensures
            *self == Direction::In ==> r is None,
            *self == Direction::Out ==> r == Some(State::Low),
    {
        match self {
            Direction::In => None,
            Direction::Out => Some(State::Low),
        }
    }
}

impl State {
    /// The level that one read of the value file gave: `bytes_read` bytes
    /// of `buf`.
    pub fn from_read(buf: [u8; 1], bytes_read: usize) -> (r: Result<State, PinError>)
        ensures
            r == state_of_read(buf@[0], bytes_read),
    {
        if bytes_read == 0 {
            Err(PinError::NoState)
        } else if buf[0] == 0x30u8 {
            Ok(State::Low)
        } else if buf[0] == 0x31u8 {
            Ok(State::High)
        } else {
            Err(PinError::UnexpectedState)
        }
    }

    /// The byte written to the value file for this level.
    pub fn byte(&self) -> (r: u8)
        ensures
            r == byte_of_state(*self),
            state_of_byte(r) == Some(*self),
    {
        match self {
            State::Low => 0x30u8,
            State::High => 0x31u8,
        }
    }

    /// The level that drives an actuator on (`High`) or off (`Low`).
    pub fn from_bool(on: bool) -> (r: State)
        ensures
            r == (if on { State::High } else { State::Low }),
    {
        if on {
            State::High
        } else {
            State::Low
        }
    }
}

impl PinError {
    /// A short human-readable description of the error.
    pub fn message(&self) -> (r: &'static str)
        ensures
            *self == PinError::Open ==> r@ == "unable to open gpio"@,
            *self == PinError::SetDirection ==> r@ == "unable to set gpio direction"@,
            *self == PinError::SetValue ==> r@ == "unable to set gpio value"@,
            *self == PinError::Seek ==> r@ == "unable to seek gpio fd"@,
            *self == PinError::Read ==> r@ == "unable to read from gpio"@,
            *self == PinError::NoState ==> r@ == "no state read from pin"@,
            *self == PinError::UnexpectedState ==> r@ == "unexpected state read from pin"@,
            *self == PinError::Write ==> r@ == "unable to set gpio state"@,
    {
        match self {
            PinError::Open => "unable to open gpio",
            PinError::SetDirection => "unable to set gpio direction",
            PinError::SetValue => "unable to set gpio value",
            PinError::Seek => "unable to seek gpio fd",
            PinError::Read => "unable to read from gpio",
            PinError::NoState => "no state read from pin",
            PinError::UnexpectedState => "unexpected state read from pin",
            PinError::Write => "unable to set gpio state",
        }
    }
}

} // verus!
