use vstd::prelude::*;

use crate::motion::{
    command_of, is_motion_pattern, pattern_of, LinePattern, Motion, CMD_BACKWARD, CMD_FORWARD,
    CMD_LEFT, CMD_RIGHT, CMD_STOP,
};
use crate::robot::after_byte;

verus! {

/// The line levels after the bytes of `bs` are received in order, starting
/// with the lines at `p`.
pub open spec fn after_bytes(p: LinePattern, bs: Seq<u8>) -> LinePattern
    decreases bs.len(),
{
    if bs.len() == 0 {
        p
    } else {
        after_byte(after_bytes(p, bs.drop_last()), bs.last())
    }
}

/// The motion state named by the last command byte in `bs`, if any byte
/// there is a command.
pub open spec fn last_command(bs: Seq<u8>) -> Option<Motion>
    decreases bs.len(),
{
    if bs.len() == 0 {
        None
    } else {
        match command_of(bs.last()) {
            Some(m) => Some(m),
            None => last_command(bs.drop_last()),
        }
    }
}

/// Each command byte drives the four lines to its row of the table
/// (H = `true`, L = `false`), whatever they held before.
pub proof fn command_bytes_give_table_patterns(p: LinePattern)
    ensures
        after_byte(p, CMD_FORWARD) == (LinePattern {
            line1: true, line2: false, line3: true, line4: false }),
        after_byte(p, CMD_BACKWARD) == (LinePattern {
            line1: false, line2: true, line3: false, line4: true }),
        after_byte(p, CMD_LEFT) == (LinePattern {
            line1: false, line2: true, line3: true, line4: false }),
        after_byte(p, CMD_RIGHT) == (LinePattern {
            line1: true, line2: false, line3: false, line4: true }),
        after_byte(p, CMD_STOP) == (LinePattern {
            line1: false, line2: false, line3: false, line4: false }),
{
}

/// A byte other than the five command bytes leaves the lines as they were.
pub proof fn unrecognized_byte_keeps_lines(p: LinePattern, b: u8)
    requires
        b != CMD_FORWARD,
        b != CMD_BACKWARD,
        b != CMD_LEFT,
        b != CMD_RIGHT,
        b != CMD_STOP,
    ensures
        after_byte(p, b) == p,
{
}

/// Receiving the same byte twice in a row leaves the lines as receiving it
/// once does.
pub proof fn repeated_byte_is_idempotent(p: LinePattern, b: u8)
    ensures
        after_byte(after_byte(p, b), b) == after_byte(p, b),
{
}

/// A byte keeps the lines in one of the five motion patterns.
pub proof fn bytes_keep_motion_pattern(p: LinePattern, b: u8)
    requires
        is_motion_pattern(p),
    ensures
        is_motion_pattern(after_byte(p, b)),
{
}

/// After a sequence of bytes the lines hold the pattern of the last command
/// among them, and are unchanged when there is none.
pub proof fn after_bytes_follows_last_command(p: LinePattern, bs: Seq<u8>)
    ensures
        after_bytes(p, bs) == match last_command(bs) {
            Some(m) => pattern_of(m),
            None => p,
        },
    decreases bs.len(),
{
    if bs.len() > 0 {
        after_bytes_follows_last_command(p, bs.drop_last());
    }
}

/// Two histories that end with the same command leave the same line
/// pattern, whatever came before them and whatever the lines started at.
pub proof fn same_last_command_same_lines(p: LinePattern, q: LinePattern, bs: Seq<u8>, cs: Seq<u8>)
    requires
        last_command(bs) is Some,
        last_command(bs) == last_command(cs),
    ensures
        after_bytes(p, bs) == after_bytes(q, cs),
{
    after_bytes_follows_last_command(p, bs);
    after_bytes_follows_last_command(q, cs);
}

} // verus!
