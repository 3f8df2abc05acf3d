use vstd::prelude::*;

verus! {

/// Command byte `F`: move forward.
pub const CMD_FORWARD: u8 = 70;
/// Command byte `B`: move backward.
pub const CMD_BACKWARD: u8 = 66;
/// Command byte `L`: turn left.
pub const CMD_LEFT: u8 = 76;
/// Command byte `R`: turn right.
pub const CMD_RIGHT: u8 = 82;
/// Command byte `S`: stop.
pub const CMD_STOP: u8 = 83;

/// Levels of the four relay lines; `true` drives a line high.
#[derive(Clone, Copy, Debug, PartialEq, Eq, Structural)]
pub struct LinePattern {
    pub line1: bool,
    pub line2: bool,
    pub line3: bool,
    pub line4: bool,
}

/// The five motion states of the actuator.
#[derive(Clone, Copy, Debug, PartialEq, Eq, Structural)]
pub enum Motion {
    Forward,
    Backward,
    Left,
    Right,
    Stop,
}

/// The line levels that realise each motion state.
pub open spec fn pattern_of(m: Motion) -> LinePattern {
    match m {
        Motion::Forward => LinePattern { line1: true, line2: false, line3: true, line4: false },
        Motion::Backward => LinePattern { line1: false, line2: true, line3: false, line4: true },
        Motion::Left => LinePattern { line1: false, line2: true, line3: true, line4: false },
        Motion::Right => LinePattern { line1: true, line2: false, line3: false, line4: true },
        Motion::Stop => LinePattern { line1: false, line2: false, line3: false, line4: false },
    }
}

/// The line levels are those of one of the five motion states.
pub open spec fn is_motion_pattern(p: LinePattern) -> bool {
    ||| p == pattern_of(Motion::Forward)
    ||| p == pattern_of(Motion::Backward)
    ||| p == pattern_of(Motion::Left)
    ||| p == pattern_of(Motion::Right)
    ||| p == pattern_of(Motion::Stop)
}

/// The motion state that a command byte asks for, if the byte is a command.
pub open spec fn command_of(b: u8) -> Option<Motion> {
    if b == CMD_FORWARD {
        Some(Motion::Forward)
    } else if b == CMD_BACKWARD {
        Some(Motion::Backward)
    } else if b == CMD_LEFT {
        Some(Motion::Left)
    } else if b == CMD_RIGHT {
        Some(Motion::Right)
    } else if b == CMD_STOP {
        Some(Motion::Stop)
    } else {
        None
    }
}

/// The diagnostic text that reports a motion state being entered.
pub open spec fn action_text(m: Motion) -> Seq<char> {
    match m {
        Motion::Forward => "Moving forward"@,
        Motion::Backward => "Moving backward"@,
        Motion::Left => "Turning left"@,
        Motion::Right => "Turning right"@,
        Motion::Stop => "Stopping"@,
    }
}

impl Motion {
    /// Decodes a command byte: `F`, `B`, `L`, `R` and `S` name the five
    /// motion states; every other byte is no command.
    pub fn from_command(b: u8) -> (r: Option<Motion>)
        ensures
            r == command_of(b),
    {
        match b {
            CMD_FORWARD => Some(Motion::Forward),
            CMD_BACKWARD => Some(Motion::Backward),
            CMD_LEFT => Some(Motion::Left),
            CMD_RIGHT => Some(Motion::Right),
            CMD_STOP => Some(Motion::Stop),
            _ => None,
        }
    }

    /// The diagnostic text for entering this motion state.
    pub fn description(self) -> (r: &'static str)
        ensures
            r@ == action_text(self),
    {
        match self {
            Motion::Forward => "Moving forward",
            Motion::Backward => "Moving backward",
            Motion::Left => "Turning left",
            Motion::Right => "Turning right",
            Motion::Stop => "Stopping",
        }
    }
}

} // verus!
