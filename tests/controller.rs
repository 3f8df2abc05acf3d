use relay_robot::motion::{
    LinePattern, Motion, CMD_BACKWARD, CMD_FORWARD, CMD_LEFT, CMD_RIGHT, CMD_STOP,
};
use relay_robot::robot::{Event, Robot};

const FORWARD: LinePattern = LinePattern { line1: true, line2: false, line3: true, line4: false };
const BACKWARD: LinePattern = LinePattern { line1: false, line2: true, line3: false, line4: true };
const LEFT: LinePattern = LinePattern { line1: false, line2: true, line3: true, line4: false };
const RIGHT: LinePattern = LinePattern { line1: true, line2: false, line3: false, line4: true };
const STOP: LinePattern = LinePattern { line1: false, line2: false, line3: false, line4: false };

fn is_motion_pattern(p: LinePattern) -> bool {
    [FORWARD, BACKWARD, LEFT, RIGHT, STOP].contains(&p)
}

#[test]
fn command_constants_are_ascii_letters() {
    assert_eq!(CMD_FORWARD, b'F');
    assert_eq!(CMD_BACKWARD, b'B');
    assert_eq!(CMD_LEFT, b'L');
    assert_eq!(CMD_RIGHT, b'R');
    assert_eq!(CMD_STOP, b'S');
}

#[test]
fn new_controller_starts_stopped() {
    assert_eq!(Robot::new().lines(), STOP);
}

#[test]
fn each_command_byte_sets_its_table_row() {
    let cases = [
        (b'F', FORWARD, Motion::Forward),
        (b'B', BACKWARD, Motion::Backward),
        (b'L', LEFT, Motion::Left),
        (b'R', RIGHT, Motion::Right),
        (b'S', STOP, Motion::Stop),
    ];
    for start in [b'F', b'B', b'L', b'R', b'S'] {
        for (byte, pattern, motion) in cases {
            let mut robot = Robot::new();
            robot.handle(Some(start));
            assert_eq!(robot.handle(Some(byte)), Event::Command(motion));
            assert_eq!(robot.lines(), pattern);
        }
    }
}

#[test]
fn direct_operations_set_table_rows() {
    let mut robot = Robot::new();
    robot.move_forward();
    assert_eq!(robot.lines(), FORWARD);
    robot.move_backward();
    assert_eq!(robot.lines(), BACKWARD);
    robot.turn_left();
    assert_eq!(robot.lines(), LEFT);
    robot.turn_right();
    assert_eq!(robot.lines(), RIGHT);
    robot.stop();
    assert_eq!(robot.lines(), STOP);
    robot.apply(Motion::Left);
    assert_eq!(robot.lines(), LEFT);
}

#[test]
fn every_other_byte_leaves_lines_unchanged() {
    for b in 0..=255u8 {
        if [b'F', b'B', b'L', b'R', b'S'].contains(&b) {
            continue;
        }
        let mut robot = Robot::new();
        robot.turn_left();
        assert_eq!(robot.handle(Some(b)), Event::Unrecognized(b));
        assert_eq!(robot.lines(), LEFT);
    }
}

#[test]
fn lowercase_command_letters_are_unrecognized() {
    assert_eq!(Motion::from_command(b'f'), None);
    assert_eq!(Motion::from_command(b's'), None);
    assert_eq!(Motion::from_command(b'F'), Some(Motion::Forward));
}

#[test]
fn idle_poll_leaves_lines_unchanged() {
    let mut robot = Robot::new();
    robot.turn_right();
    assert_eq!(robot.handle(None), Event::Idle);
    assert_eq!(robot.lines(), RIGHT);
}

#[test]
fn same_command_twice_equals_once() {
    for b in [b'F', b'B', b'L', b'R', b'S'] {
        let mut once = Robot::new();
        once.handle(Some(b));
        let mut twice = Robot::new();
        twice.handle(Some(b));
        twice.handle(Some(b));
        assert_eq!(once.lines(), twice.lines());
    }
}

#[test]
fn lines_depend_only_on_last_command() {
    let mut a = Robot::new();
    for b in [b'F', b'L', b'x', b'B', b'R', b'?'] {
        a.handle(Some(b));
    }
    let mut b = Robot::new();
    b.handle(Some(b'S'));
    b.handle(None);
    b.handle(Some(b'R'));
    assert_eq!(a.lines(), RIGHT);
    assert_eq!(a.lines(), b.lines());
}

#[test]
fn lines_always_hold_a_motion_pattern() {
    let mut robot = Robot::new();
    for b in 0..=255u8 {
        robot.handle(Some(b));
        assert!(is_motion_pattern(robot.lines()));
    }
}

#[test]
fn forward_stop_right_sequence() {
    let mut robot = Robot::new();
    let mut seen = Vec::new();
    for b in [b'F', b'S', b'R'] {
        assert!(matches!(robot.handle(Some(b)), Event::Command(_)));
        seen.push(robot.lines());
    }
    assert_eq!(seen, vec![FORWARD, STOP, RIGHT]);
}

#[test]
fn unrecognized_q_while_stopped() {
    let mut robot = Robot::new();
    robot.handle(Some(b'S'));
    assert_eq!(robot.lines(), STOP);
    assert_eq!(robot.handle(Some(b'Q')), Event::Unrecognized(b'Q'));
    assert_eq!(robot.lines(), STOP);
}

#[test]
fn descriptions_name_each_action() {
    assert_eq!(Motion::Forward.description(), "Moving forward");
    assert_eq!(Motion::Backward.description(), "Moving backward");
    assert_eq!(Motion::Left.description(), "Turning left");
    assert_eq!(Motion::Right.description(), "Turning right");
    assert_eq!(Motion::Stop.description(), "Stopping");
}
