use workflow::gantry;
use workflow::paths::{name_from_path, root_library_path};
use workflow::serial::{
    find_matching_port, identity_with_defaults, port_match, same_text, Config, KnownSerialDevice,
    SerialPortInfo, SerialPortType, UsbPortInfo,
};
use workflow::workflow::{Step, Workflow};

fn stlink() -> UsbPortInfo {
    UsbPortInfo {
        serial_number: Some("0671FF555349898667170939".to_string()),
        manufacturer: Some("STMicroelectronics".to_string()),
        product: Some("STM32 STLink".to_string()),
        vid: 0,
        pid: 0,
    }
}

fn known_device() -> KnownSerialDevice {
    KnownSerialDevice {
        serial_number: "0671FF555349898667170939".to_string(),
        manufacturer: Some("STMicroelectronics".to_string()),
        product: Some("STM32 STLink".to_string()),
    }
}

#[test]
fn serial_test_is_orchestrator_port() {
    let info = stlink();
    let known_device = known_device();
    assert!(port_match(&SerialPortType::UsbPort(info), &known_device));
}

#[test]
fn test_is_orchestrator_port() {
    let info = stlink();
    let known_device = known_device();
    assert!(gantry::port_match(&SerialPortType::UsbPort(info), &known_device));
}

#[test]
fn manufacturer_matters_only_outside_the_gantry() {
    let mut info = stlink();
    info.manufacturer = Some("Other".to_string());
    let port = SerialPortType::UsbPort(info);
    assert!(!port_match(&port, &known_device()));
    assert!(gantry::port_match(&port, &known_device()));
    assert!(!port_match(&SerialPortType::PciPort, &known_device()));
    assert!(!gantry::port_match(&SerialPortType::Unknown, &known_device()));
}

#[test]
fn first_matching_port_is_found() {
    let mut other = stlink();
    other.serial_number = None;
    let ports = vec![
        SerialPortInfo { port_name: "/dev/ttyS0".to_string(), port_type: SerialPortType::BluetoothPort },
        SerialPortInfo { port_name: "/dev/ttyACM0".to_string(), port_type: SerialPortType::UsbPort(other) },
        SerialPortInfo { port_name: "/dev/ttyACM1".to_string(), port_type: SerialPortType::UsbPort(stlink()) },
        SerialPortInfo { port_name: "/dev/ttyACM2".to_string(), port_type: SerialPortType::UsbPort(stlink()) },
    ];
    let found = find_matching_port(ports, &known_device()).unwrap();
    assert_eq!(found.port_name, "/dev/ttyACM1");
    assert!(find_matching_port(vec![], &known_device()).is_none());
}

#[test]
fn missing_manufacturer_and_product_become_empty() {
    let config = Config {
        identity: KnownSerialDevice { serial_number: "42".to_string(), manufacturer: None, product: Some("Box".to_string()) },
    };
    let identity = identity_with_defaults(config);
    assert_eq!(identity.serial_number, "42");
    assert_eq!(identity.manufacturer, Some(String::new()));
    assert_eq!(identity.product, Some("Box".to_string()));
    assert!(same_text(&identity.product, &Some("Box".to_string())));
    assert!(!same_text(&identity.product, &None));
}

#[test]
fn document_names_drop_directories_and_extensions() {
    assert_eq!(name_from_path("/tmp/library/trees/get_tip.yaml"), "get_tip");
    assert_eq!(name_from_path("get_tip-0.0.1.yaml"), "get_tip-0");
    assert_eq!(name_from_path("modules"), "modules");
    assert_eq!(name_from_path("a.b/nodes.v2.yaml"), "nodes");
    assert_eq!(name_from_path("a/b.yaml/"), "b");
    assert_eq!(name_from_path("lib/trees/get_tip.yaml/./"), "get_tip");
    assert_eq!(name_from_path("lib//tools.yaml//"), "tools");
    assert_eq!(name_from_path(".hidden.yaml"), "");
}

#[test]
fn library_path_is_fixed() {
    assert_eq!(root_library_path(), "/tmp/tcr/genodatalib/library");
}

#[test]
fn test_workflow() {
    let steps = vec![
        Step::new("Step 1".to_string(), "echo 'Hello World'".to_string()),
        Step::new("Step 2".to_string(), "echo 'Hello World'".to_string()),
    ];
    let workflow = Workflow::new("Test Workflow".to_string(), steps);
    let workflow1 = Workflow {
        name: "Test Workflow".to_string(),
        steps: vec![
            Step::new("Step 1".to_string(), "echo 'Hello World'".to_string()),
            Step::new("Step 2".to_string(), "echo 'Hello World'".to_string()),
        ],
    };
    assert_eq!(workflow.name, workflow1.name);
    assert_eq!(workflow.steps.len(), 2);
    assert_eq!(workflow.steps[1].command, "echo 'Hello World'");
}
