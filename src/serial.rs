//! Recognising the serial device of a controller among the ports of the
//! machine.
use vstd::prelude::*;

verus! {

/// The identity a controller's serial device is recognised by.
#[derive(Debug, Clone, PartialEq)]
pub struct KnownSerialDevice {
    pub serial_number: String,
    pub manufacturer: Option<String>,
    pub product: Option<String>,
}

/// The settings file of a controller: the identity of its device.
#[derive(Debug, Clone, PartialEq)]
pub struct Config {
    pub identity: KnownSerialDevice,
}

/// What a USB port reports about the device behind it.
#[derive(Debug, Clone, PartialEq)]
pub struct UsbPortInfo {
    pub vid: u16,
    pub pid: u16,
    pub serial_number: Option<String>,
    pub manufacturer: Option<String>,
    pub product: Option<String>,
}

/// The kind of a serial port.
#[derive(Debug, Clone, PartialEq)]
pub enum SerialPortType {
    UsbPort(UsbPortInfo),
    PciPort,
    BluetoothPort,
    Unknown,
}

/// A serial port of the machine.
#[derive(Debug, Clone, PartialEq)]
pub struct SerialPortInfo {
    pub port_name: String,
    pub port_type: SerialPortType,
}

/// The text of an optional string.
pub open spec fn text_of(s: Option<String>) -> Option<Seq<char>> {
    match s {
        Some(t) => Some(t@),
        None => None,
    }
}

/// Whether two optional strings hold the same text.
pub fn same_text(a: &Option<String>, b: &Option<String>) -> (r: bool)
    ensures
        r == (text_of(*a) == text_of(*b)),
{
    match (a, b) {
        (Some(x), Some(y)) => *x == *y,
        (None, None) => true,
        _ => false,
    }
}

/// A port matches a device when it is a USB port reporting the device's
/// serial number, manufacturer and product.
pub open spec fn port_matches(port: SerialPortType, target_info: KnownSerialDevice) -> bool {
    match port {
        SerialPortType::UsbPort(info) => text_of(info.serial_number) == Some(target_info.serial_number@)
            && text_of(info.manufacturer) == text_of(target_info.manufacturer) && text_of(info.product)
            == text_of(target_info.product),
        _ => false,
    }
}

/// Whether the port is the one of the device.
pub fn port_match(port: &SerialPortType, target_info: &KnownSerialDevice) -> (r: bool)
    ensures
        r == port_matches(*port, *target_info),
{
    match port {
        SerialPortType::UsbPort(info) => {
            let serial = match &info.serial_number {
                Some(s) => *s == target_info.serial_number,
                None => false,
            };
            serial && same_text(&info.manufacturer, &target_info.manufacturer) && same_text(
                &info.product,
                &target_info.product,
            )
        },
        _ => false,
    }
}

/// The first of `ports` that matches the device, if any.
pub fn find_matching_port(ports: Vec<SerialPortInfo>, target_info: &KnownSerialDevice) -> (r: Option<SerialPortInfo>)
    ensures
        r is None <==> forall|i: int| 0 <= i < ports@.len() ==> !port_matches(#[trigger] ports@[i].port_type, *target_info),
        r matches Some(p) ==> exists|i: int|
            0 <= i < ports@.len() && ports@[i] == p && port_matches(p.port_type, *target_info) && forall|j: int|
                0 <= j < i ==> !port_matches(#[trigger] ports@[j].port_type, *target_info),
{
    let mut i: usize = 0;
    while i < ports.len()
        invariant
            0 <= i <= ports.len(),
            forall|j: int| 0 <= j < i ==> !port_matches(#[trigger] ports@[j].port_type, *target_info),
        ensures
            0 <= i <= ports.len(),
            forall|j: int| 0 <= j < i ==> !port_matches(#[trigger] ports@[j].port_type, *target_info),
            i < ports.len() ==> port_matches(ports@[i as int].port_type, *target_info),
        decreases ports.len() - i,
    {
        if port_match(&ports[i].port_type, target_info) {
            break;
        }
        i = i + 1;
    }
    if i < ports.len() {
        let ghost all = ports@;
        let mut remaining = ports;
        let found = remaining.remove(i);
        assert(found == all[i as int]);
        Some(found)
    } else {
        None
    }
}

/// The device identity of a settings file, with an empty manufacturer and
/// product where the file gives none.
pub fn identity_with_defaults(config: Config) -> (r: KnownSerialDevice)
    ensures
        r.serial_number@ == config.identity.serial_number@,
        text_of(r.manufacturer) == Some(
            match config.identity.manufacturer {
                Some(m) => m@,
                None => Seq::<char>::empty(),
            },
        ),
        text_of(r.product) == Some(
            match config.identity.product {
                Some(p) => p@,
                None => Seq::<char>::empty(),
            },
        ),
{
    let identity = config.identity;
    let manufacturer = match identity.manufacturer {
        Some(m) => m,
        None => String::new(),
    };
    let product = match identity.product {
        Some(p) => p,
        None => String::new(),
    };
    KnownSerialDevice {
        serial_number: identity.serial_number,
        manufacturer: Some(manufacturer),
        product: Some(product),
    }
}

} // verus!
