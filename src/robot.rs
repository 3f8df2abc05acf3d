use vstd::prelude::*;

use crate::motion::{command_of, is_motion_pattern, pattern_of, LinePattern, Motion};

verus! {

/// What one poll of the command source amounted to.
#[derive(Clone, Copy, Debug, PartialEq, Eq, Structural)]
pub enum Event {
    /// A command byte was received and its motion state entered.
    Command(Motion),
    /// A byte was received that names no command; the lines were left alone.
    Unrecognized(u8),
    /// No byte was ready.
    Idle,
}

/// The line levels after the byte `b` is received with the lines at `p`.
pub open spec fn after_byte(p: LinePattern, b: u8) -> LinePattern {
    match command_of(b) {
        Some(m) => pattern_of(m),
        None => p,
    }
}

/// The line levels after one poll that yielded `input` with the lines at `p`.
pub open spec fn after_poll(p: LinePattern, input: Option<u8>) -> LinePattern {
    match input {
        Some(b) => after_byte(p, b),
        None => p,
    }
}

/// The event that one poll yielding `input` gives rise to.
pub open spec fn event_of(input: Option<u8>) -> Event {
    match input {
        Some(b) => match command_of(b) {
            Some(m) => Event::Command(m),
            None => Event::Unrecognized(b),
        },
        None => Event::Idle,
    }
}

/// Sole owner of the four relay lines of the actuator.
pub struct Robot {
    relay1: bool,
    relay2: bool,
    relay3: bool,
    relay4: bool,
}

impl View for Robot {
    type V = LinePattern;

    closed spec fn view(&self) -> LinePattern {
        LinePattern {
            line1: self.relay1,
            line2: self.relay2,
            line3: self.relay3,
            line4: self.relay4,
        }
    }
}

impl Robot {
    /// The lines always hold the pattern of one motion state.
    #[verifier::type_invariant]
    spec fn inv(self) -> bool {
        is_motion_pattern(self@)
    }

    /// A controller whose lines are all low, as output pins start.
    pub fn new() -> (r: Robot)
        ensures
            r@ == pattern_of(Motion::Stop),
    {
        Robot { relay1: false, relay2: false, relay3: false, relay4: false }
    }

    /// The current line levels.
    pub fn lines(&self) -> (r: LinePattern)
        ensures
            r == self@,
            is_motion_pattern(r),
    {
        proof {
            use_type_invariant(self);
        }
        LinePattern {
            line1: self.relay1,
            line2: self.relay2,
            line3: self.relay3,
            line4: self.relay4,
        }
    }

    pub fn move_forward(&mut self)
        ensures
            final(self)@ == pattern_of(Motion::Forward),
    {
        *self = Robot { relay1: true, relay2: false, relay3: true, relay4: false };
    }

    pub fn move_backward(&mut self)
        ensures
            final(self)@ == pattern_of(Motion::Backward),
    {
        *self = Robot { relay1: false, relay2: true, relay3: false, relay4: true };
    }

    pub fn turn_left(&mut self)
        ensures
            final(self)@ == pattern_of(Motion::Left),
    {
        *self = Robot { relay1: false, relay2: true, relay3: true, relay4: false };
    }

    pub fn turn_right(&mut self)
        ensures
            final(self)@ == pattern_of(Motion::Right),
    {
        *self = Robot { relay1: true, relay2: false, relay3: false, relay4: true };
    }

    pub fn stop(&mut self)
        ensures
            final(self)@ == pattern_of(Motion::Stop),
    {
        *self = Robot { relay1: false, relay2: false, relay3: false, relay4: false };
    }

    /// Sets all four lines to the pattern of `m`.
    pub fn apply(&mut self, m: Motion)
        ensures
            final(self)@ == pattern_of(m),
    {
        match m {
            Motion::Forward => self.move_forward(),
            Motion::Backward => self.move_backward(),
            Motion::Left => self.turn_left(),
            Motion::Right => self.turn_right(),
            Motion::Stop => self.stop(),
        }
    }

    /// Acts on one poll of the command source: a command byte sets the lines
    /// to its motion state; an unrecognized byte, or no byte, leaves them.
    pub fn handle(&mut self, input: Option<u8>) -> (e: Event)
        ensures
            final(self)@ == after_poll(old(self)@, input),
            e == event_of(input),
    {
        match input {
            Some(b) => match Motion::from_command(b) {
                Some(m) => {
                    self.apply(m);
                    Event::Command(m)
                },
                None => Event::Unrecognized(b),
            },
            None => Event::Idle,
        }
    }
}

} // verus!
