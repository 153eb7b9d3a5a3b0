use workflow::gantry::move_to_op;
use workflow::gcode::GcodeOp;

#[test]
fn enum_to_gcode() {
    assert_eq!(GcodeOp::GoHome.gcode(), String::from("G28"));
}

#[test]
fn goto_x_gcode_has_position_and_feed_rate() {
    assert_eq!(GcodeOp::GotoX { x: 100, mm_per_min: 1000 }.gcode(), String::from("G1 X100 F1000"));
}

#[test]
fn goto_y_gcode_has_position_and_feed_rate() {
    assert_eq!(GcodeOp::GotoY { y: 0, mm_per_min: 25 }.gcode(), String::from("G01 Y0 F25"));
}

#[test]
fn goto_xy_gcode_has_both_positions() {
    assert_eq!(
        GcodeOp::GotoXY { x: 1200, y: 4294967295, mm_per_min: 2000 }.gcode(),
        String::from("G01 X1200 Y4294967295 F2000")
    );
}

#[test]
fn motor_off_gcode() {
    assert_eq!(GcodeOp::MotorOff.gcode(), String::from("M84"));
}

use workflow::gcode::{GcodeInfo, Op, ToGcode};
use workflow::slider::{Position, Range};

const GANTRY: Range = Range { min: 0, max: 100 };

#[test]
fn op_code_and_description() {
    let op = Op::GotoX { x: Position::new(100, GANTRY), mm_per_min: 1000 };
    assert_eq!(op.code(), "G01");
    assert_eq!(op.description(), "Go to X");
    assert_eq!(Op::Reset.code(), "M999");
    assert_eq!(Op::MotorOff.description(), "Motor Off");
}

#[test]
fn op_gcode_lines_end_with_crlf() {
    let op = Op::GotoX { x: Position::new(100, GANTRY), mm_per_min: 1000 };
    assert_eq!(op.gcode(), b"G01 X100 F1000\r\n".to_vec());
    assert_eq!(Op::GoHome.gcode(), b"G28\r\n".to_vec());
    let op = Op::GotoXY { x: Position::new(150, GANTRY), y: Position::new(7, GANTRY), mm_per_min: 2000 };
    assert_eq!(op.as_bytes(), b"G01 X100 Y7 F2000\r\n".to_vec());
    let op = Op::GotoY { y: Position::new(42, GANTRY), mm_per_min: 60 };
    assert_eq!(op.gcode(), b"G01 Y42 F60\r\n".to_vec());
}

#[test]
fn gantry_moves_are_clamped_to_its_travel() {
    assert_eq!(move_to_op(100, 5000).gcode(), b"G01 X100 Y1200 F2000\r\n".to_vec());
}
