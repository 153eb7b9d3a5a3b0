//! G-code lines for the gantry's motion commands.
use vstd::prelude::*;
use vstd::utf8::encode_utf8;
use crate::slider::Position;
use crate::text::{decimal, decimal_text};

verus! {

/// A motion command of the gantry.
#[derive(Debug, Clone, Copy, PartialEq, Eq, Structural)]
pub enum GcodeOp {
    GoHome,
    GotoX { x: u32, mm_per_min: u32 },
    GotoY { y: u32, mm_per_min: u32 },
    GotoXY { x: u32, y: u32, mm_per_min: u32 },
    MotorOff,
}

/// The G-code line of a command.
pub open spec fn gcode_line(op: GcodeOp) -> Seq<char> {
    match op {
        GcodeOp::GoHome => "G28"@,
        GcodeOp::GotoX { x, mm_per_min } => "G1 X"@ + decimal(x as nat) + " F"@ + decimal(mm_per_min as nat),
        GcodeOp::GotoY { y, mm_per_min } => "G01 Y"@ + decimal(y as nat) + " F"@ + decimal(mm_per_min as nat),
        GcodeOp::GotoXY { x, y, mm_per_min } => "G01 X"@ + decimal(x as nat) + " Y"@ + decimal(y as nat) + " F"@
            + decimal(mm_per_min as nat),
        GcodeOp::MotorOff => "M84"@,
    }
}

impl GcodeOp {
    /// The G-code line of the command: `G28` homes, `G1`/`G01` moves at a
    /// feed rate in mm per minute, `M84` switches the motors off.
    pub fn gcode(&self) -> (r: String)
        ensures
            r@ == gcode_line(*self),
    {
        match self {
            GcodeOp::GoHome => String::from_str("G28"),
            GcodeOp::GotoX { x, mm_per_min } => {
                let mut line = String::from_str("G1 X");
                line.append(decimal_text(*x as u64).as_str());
                line.append(" F");
                line.append(decimal_text(*mm_per_min as u64).as_str());
                line
            },
            GcodeOp::GotoY { y, mm_per_min } => {
                let mut line = String::from_str("G01 Y");
                line.append(decimal_text(*y as u64).as_str());
                line.append(" F");
                line.append(decimal_text(*mm_per_min as u64).as_str());
                line
            },
            GcodeOp::GotoXY { x, y, mm_per_min } => {
                let mut line = String::from_str("G01 X");
                line.append(decimal_text(*x as u64).as_str());
                line.append(" Y");
                line.append(decimal_text(*y as u64).as_str());
                line.append(" F");
                line.append(decimal_text(*mm_per_min as u64).as_str());
                line
            },
            GcodeOp::MotorOff => String::from_str("M84"),
        }
    }
}

/// An operation of the gantry controller: one line of G-code.
#[derive(Debug, Clone, Copy, PartialEq, Eq, Structural)]
pub enum Op {
    GoHome,
    GotoX { x: Position, mm_per_min: u32 },
    GotoY { y: Position, mm_per_min: u32 },
    GotoXY { x: Position, y: Position, mm_per_min: u32 },
    MotorOff,
    Reset,
}

/// The command word of an operation.
pub open spec fn op_code(op: Op) -> Seq<char> {
    match op {
        Op::GoHome => "G28"@,
        Op::GotoX { .. } => "G01"@,
        Op::GotoY { .. } => "G01"@,
        Op::GotoXY { .. } => "G01"@,
        Op::MotorOff => "M84"@,
        Op::Reset => "M999"@,
    }
}

/// A short description of an operation.
pub open spec fn op_description(op: Op) -> Seq<char> {
    match op {
        Op::GoHome => "Go Home"@,
        Op::GotoX { .. } => "Go to X"@,
        Op::GotoY { .. } => "Go to Y"@,
        Op::GotoXY { .. } => "Go to XY"@,
        Op::MotorOff => "Motor Off"@,
        Op::Reset => "Reset"@,
    }
}

/// The G-code line of an operation, ended by a carriage return and a line
/// feed.
pub open spec fn op_line(op: Op) -> Seq<char> {
    let body = match op {
        Op::GotoX { x, mm_per_min } => op_code(op) + " X"@ + decimal(x.value as nat) + " F"@ + decimal(
            mm_per_min as nat,
        ),
        Op::GotoY { y, mm_per_min } => op_code(op) + " Y"@ + decimal(y.value as nat) + " F"@ + decimal(
            mm_per_min as nat,
        ),
        Op::GotoXY { x, y, mm_per_min } => op_code(op) + " X"@ + decimal(x.value as nat) + " Y"@ + decimal(
            y.value as nat,
        ) + " F"@ + decimal(mm_per_min as nat),
        _ => op_code(op),
    };
    body + "\r\n"@
}

/// The name and description of a G-code operation.
pub trait GcodeInfo {
    spec fn code_text(&self) -> Seq<char>;

    spec fn description_text(&self) -> Seq<char>;

    /// The command word.
    fn code(&self) -> (r: String)
        ensures
            r@ == self.code_text(),
    ;

    /// A short description.
    fn description(&self) -> (r: String)
        ensures
            r@ == self.description_text(),
    ;
}

/// The bytes sent to the controller for an operation.
pub trait ToGcode {
    spec fn line_text(&self) -> Seq<char>;

    /// The line, encoded as UTF-8.
    fn gcode(&self) -> (r: Vec<u8>)
        ensures
            r@ == encode_utf8(self.line_text()),
    ;

    /// The same bytes as `gcode`.
    fn as_bytes(&self) -> (r: Vec<u8>)
        ensures
            r@ == encode_utf8(self.line_text()),
    ;
}

/// Something the controller can carry out.
pub trait GcodeExecutable {
    fn execute(&mut self) -> Result<(), String>;
}

impl GcodeInfo for Op {
    open spec fn code_text(&self) -> Seq<char> {
        op_code(*self)
    }

    open spec fn description_text(&self) -> Seq<char> {
        op_description(*self)
    }

    fn code(&self) -> (r: String) {
        match self {
            Op::GoHome => String::from_str("G28"),
            Op::GotoX { .. } => String::from_str("G01"),
            Op::GotoY { .. } => String::from_str("G01"),
            Op::GotoXY { .. } => String::from_str("G01"),
            Op::MotorOff => String::from_str("M84"),
            Op::Reset => String::from_str("M999"),
        }
    }

    fn description(&self) -> (r: String) {
        match self {
            Op::GoHome => String::from_str("Go Home"),
            Op::GotoX { .. } => String::from_str("Go to X"),
            Op::GotoY { .. } => String::from_str("Go to Y"),
            Op::GotoXY { .. } => String::from_str("Go to XY"),
            Op::MotorOff => String::from_str("Motor Off"),
            Op::Reset => String::from_str("Reset"),
        }
    }
}

impl ToGcode for Op {
    open spec fn line_text(&self) -> Seq<char> {
        op_line(*self)
    }

    fn gcode(&self) -> (r: Vec<u8>) {
        let mut line = self.code();
        match self {
            Op::GotoX { x, mm_per_min } => {
                line.append(" X");
                line.append(decimal_text(x.value as u64).as_str());
                line.append(" F");
                line.append(decimal_text(*mm_per_min as u64).as_str());
            },
            Op::GotoY { y, mm_per_min } => {
                line.append(" Y");
                line.append(decimal_text(y.value as u64).as_str());
                line.append(" F");
                line.append(decimal_text(*mm_per_min as u64).as_str());
            },
            Op::GotoXY { x, y, mm_per_min } => {
                line.append(" X");
                line.append(decimal_text(x.value as u64).as_str());
                line.append(" Y");
                line.append(decimal_text(y.value as u64).as_str());
                line.append(" F");
                line.append(decimal_text(*mm_per_min as u64).as_str());
            },
            _ => {},
        }
        line.append("\r\n");
        assert(line@ == op_line(*self));
        line.as_str().as_bytes_vec()
    }

    fn as_bytes(&self) -> (r: Vec<u8>) {
        self.gcode()
    }
}

} // verus!
