//! The gantry controller: how it recognises its serial device (the
//! manufacturer string is not compared) and the operations it sends.
use vstd::prelude::*;
use crate::gcode::Op;
use crate::serial::{text_of, same_text, KnownSerialDevice, SerialPortType};
use crate::slider::{clamp, Position, Range};

verus! {

/// A port is the gantry's when it is a USB port reporting the device's
/// serial number and product.
pub open spec fn gantry_port_matches(port: SerialPortType, target_info: KnownSerialDevice) -> bool {
    match port {
        SerialPortType::UsbPort(info) => text_of(info.serial_number) == Some(target_info.serial_number@)
            && text_of(info.product) == text_of(target_info.product),
        _ => false,
    }
}

/// Whether the port is the gantry's.
pub fn port_match(port: &SerialPortType, target_info: &KnownSerialDevice) -> (r: bool)
    ensures
        r == gantry_port_matches(*port, *target_info),
{
    match port {
        SerialPortType::UsbPort(info) => {
            let serial = match &info.serial_number {
                Some(s) => *s == target_info.serial_number,
                None => false,
            };
            serial && same_text(&info.product, &target_info.product)
        },
        _ => false,
    }
}

/// The travel of both axes of the gantry, in millimetres.
pub fn gantry_range() -> (r: Range)
    ensures
        r == (Range { min: 0, max: 1200 }),
{
    Range { min: 0, max: 1200 }
}

/// The operation that moves the gantry to `(x, y)`, each kept within the
/// travel, at 2000 mm per minute.
pub fn move_to_op(x: u32, y: u32) -> (r: Op)
    ensures
        r == (Op::GotoXY {
            x: Position { value: clamp(x as int, Range { min: 0, max: 1200 }), range: Range { min: 0, max: 1200 } },
            y: Position { value: clamp(y as int, Range { min: 0, max: 1200 }), range: Range { min: 0, max: 1200 } },
            mm_per_min: 2000,
        }),
{
    let range = gantry_range();
    Op::GotoXY { x: Position::new(x, range), y: Position::new(y, range), mm_per_min: 2000 }
}

} // verus!
