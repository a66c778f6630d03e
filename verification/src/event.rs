//! The typed values the joystick driver hands to its callers: directions,
//! actions, timestamps, events, and the driver's error type.

use vstd::prelude::*;

verus! {

/// Direction in which the joystick was moved.
///
/// The hardware reports each direction as a fixed key code:
/// `Enter` = 28, `Up` = 103, `Down` = 108, `Left` = 105, `Right` = 106.
/// Any other code is invalid and decodes to an error, never to a default.
#[derive(Debug, Clone, Copy, PartialEq, Eq, Structural)]
pub enum Direction {
    Enter,
    Up,
    Down,
    Left,
    Right,
}

impl Direction {
    /// The key code the hardware uses for this direction.
    pub open spec fn spec_code(self) -> u16 {
        match self {
            Direction::Enter => 28,
            Direction::Up => 103,
            Direction::Down => 108,
            Direction::Left => 105,
            Direction::Right => 106,
        }
    }

    /// The direction a key code denotes, if any.
    pub open spec fn spec_from_code(code: u16) -> Option<Direction> {
        if code == 28 {
            Some(Direction::Enter)
        } else if code == 103 {
            Some(Direction::Up)
        } else if code == 108 {
            Some(Direction::Down)
        } else if code == 105 {
            Some(Direction::Left)
        } else if code == 106 {
            Some(Direction::Right)
        } else {
            None
        }
    }

    /// The key code bound to this direction.
    pub fn code(self) -> (c: u16)
        ensures
            c == self.spec_code(),
    {
        match self {
            Direction::Enter => 28,
            Direction::Up => 103,
            Direction::Down => 108,
            Direction::Left => 105,
            Direction::Right => 106,
        }
    }

    /// Decode a key code into a direction; `None` for a code outside the
    /// five defined ones.
    pub fn from_code(code: u16) -> (r: Option<Direction>)
        ensures
            r == Direction::spec_from_code(code),
    {
        if code == 28 {
            Some(Direction::Enter)
        } else if code == 103 {
            Some(Direction::Up)
        } else if code == 108 {
            Some(Direction::Down)
        } else if code == 105 {
            Some(Direction::Left)
        } else if code == 106 {
            Some(Direction::Right)
        } else {
            None
        }
    }
}

/// Law: decoding a direction's own code gives that direction back, so every
/// one of the five defined codes decodes to its named direction and to
/// nothing else.
pub proof fn lemma_direction_code_roundtrip(d: Direction)
    ensures
        Direction::spec_from_code(d.spec_code()) == Some(d),
{
}

/// Law: decoding succeeds exactly on the five defined key codes, and a
/// successful decode returns the direction bound to that very code.
pub proof fn lemma_direction_decode_exact(code: u16)
    ensures
        Direction::spec_from_code(code) is Some <==> (code == 28 || code == 103 || code == 108
            || code == 105 || code == 106),
        Direction::spec_from_code(code) matches Some(d) ==> d.spec_code() == code,
{
}

/// The action that was executed with the given `Direction`.
///
/// The hardware reports each action as a fixed value:
/// `Release` = 0, `Press` = 1, `Hold` = 2. Any other value is invalid.
#[derive(Debug, Clone, Copy, PartialEq, Eq, Structural)]
pub enum Action {
    Release,
    Press,
    Hold,
}

impl Action {
    /// The value the hardware uses for this action.
    pub open spec fn spec_code(self) -> i32 {
        match self {
            Action::Release => 0,
            Action::Press => 1,
            Action::Hold => 2,
        }
    }

    /// The action a raw value denotes, if any.
    pub open spec fn spec_from_code(value: i32) -> Option<Action> {
        if value == 0 {
            Some(Action::Release)
        } else if value == 1 {
            Some(Action::Press)
        } else if value == 2 {
            Some(Action::Hold)
        } else {
            None
        }
    }

    /// The value bound to this action.
    pub fn code(self) -> (c: i32)
        ensures
            c == self.spec_code(),
    {
        match self {
            Action::Release => 0,
            Action::Press => 1,
            Action::Hold => 2,
        }
    }

    /// Decode a raw value into an action; `None` for a value outside the
    /// three defined ones.
    pub fn from_code(value: i32) -> (r: Option<Action>)
        ensures
            r == Action::spec_from_code(value),
    {
        if value == 0 {
            Some(Action::Release)
        } else if value == 1 {
            Some(Action::Press)
        } else if value == 2 {
            Some(Action::Hold)
        } else {
            None
        }
    }
}

/// Law: decoding an action's own value gives that action back, so every one
/// of the three defined values decodes to its named action and to nothing
/// else.
pub proof fn lemma_action_code_roundtrip(a: Action)
    ensures
        Action::spec_from_code(a.spec_code()) == Some(a),
{
}

/// Law: decoding succeeds exactly on the three defined values, and a
/// successful decode returns the action bound to that very value.
pub proof fn lemma_action_decode_exact(value: i32)
    ensures
        Action::spec_from_code(value) is Some <==> (value == 0 || value == 1 || value == 2),
        Action::spec_from_code(value) matches Some(a) ==> a.spec_code() == value,
{
}

/// A point in time, as the duration elapsed since the UNIX epoch: whole
/// seconds plus a sub-second remainder in microseconds, the resolution of
/// kernel input-event timestamps.
#[derive(Debug, Clone, Copy, PartialEq, Eq, Structural)]
pub struct Timestamp {
    pub secs: u64,
    pub micros: u32,
}

impl Timestamp {
    /// A timestamp is well formed when its microsecond part is a proper
    /// sub-second remainder.
    pub open spec fn wf(self) -> bool {
        self.micros < 1_000_000
    }
}

/// An event issued by the joystick: when it happened, which direction was
/// touched, and what was done to it. Built only by the decoder from a
/// validated raw record.
#[derive(Debug, Clone, Copy, PartialEq, Eq, Structural)]
pub struct JoyStickEvent {
    pub timestamp: Timestamp,
    pub direction: Direction,
    pub action: Action,
}

impl JoyStickEvent {
    /// Pack a validated timestamp, direction and action into an event.
    pub fn new(timestamp: Timestamp, direction: Direction, action: Action) -> (e: JoyStickEvent)
        ensures
            e.timestamp == timestamp,
            e.direction == direction,
            e.action == action,
    {
        JoyStickEvent { timestamp, direction, action }
    }
}

/// Everything that can go wrong in the driver's own logic: the joystick is
/// absent from the host, or a raw record's fields fall outside the domains
/// the hardware contract defines.
#[derive(Debug, Clone, Copy, PartialEq, Eq, Structural)]
pub enum Error {
    /// No input device on the host reports the joystick's hardware name.
    NotFound,
    /// A key record's code denotes no `Direction`.
    InvalidDirection { code: u16 },
    /// A key record's value denotes no `Action`.
    InvalidAction { value: i32 },
    /// A record's timestamp is not a non-negative duration since the epoch.
    TimestampUnderflow,
}

impl Error {
    /// A human-readable description of the error.
    pub fn message(&self) -> (m: &'static str)
        ensures
            self is NotFound ==> m@ == "No Joystick found"@,
            self is InvalidDirection ==> m@ == "key code denotes no joystick direction"@,
            self is InvalidAction ==> m@ == "value denotes no joystick action"@,
            self is TimestampUnderflow ==> m@ == "event timestamp predates the UNIX epoch"@,
    {
        match self {
            Error::NotFound => "No Joystick found",
            Error::InvalidDirection { .. } => "key code denotes no joystick direction",
            Error::InvalidAction { .. } => "value denotes no joystick action",
            Error::TimestampUnderflow => "event timestamp predates the UNIX epoch",
        }
    }
}

} // verus!
