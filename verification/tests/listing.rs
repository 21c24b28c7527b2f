use vex_link::device::DeviceDescriptor;
use vex_link::device::find_port_index;
use vex_link::device::list_ports;
use vex_link::error::ConnectError;
use vex_link::manager::list_devices;

fn descriptor(port: &str) -> DeviceDescriptor {
    DeviceDescriptor { system_port: port.to_string() }
}

#[test]
fn list_ports_yields_ports_in_enumeration_order() {
    let devices = vec![descriptor("COM3"), descriptor("COM5")];
    let ports = list_ports(&devices);
    assert_eq!(ports, vec!["COM3".to_string(), "COM5".to_string()]);
}

#[test]
fn list_ports_keeps_duplicates_and_order() {
    let devices = vec![descriptor("B"), descriptor("A"), descriptor("B")];
    let ports = list_ports(&devices);
    assert_eq!(ports, vec!["B".to_string(), "A".to_string(), "B".to_string()]);
}

#[test]
fn listing_no_devices_is_empty_not_an_error() {
    let r = list_devices(Ok(Vec::new()));
    match r {
        Ok(ports) => assert!(ports.is_empty()),
        Err(_) => panic!("an empty enumeration must not be an error"),
    }
}

#[test]
fn listing_failed_enumeration_is_enumeration_error() {
    let r = list_devices(Err("driver absent".to_string()));
    match r {
        Ok(_) => panic!("a failed enumeration must not yield a listing"),
        Err(ConnectError::Enumeration(m)) => assert_eq!(m, "driver absent"),
        Err(_) => panic!("a failed enumeration must be an enumeration error"),
    }
}

#[test]
fn find_port_index_finds_the_first_match() {
    let devices = vec![descriptor("COM3"), descriptor("COM5"), descriptor("COM5")];
    assert_eq!(find_port_index(&devices, &"COM5".to_string()), Some(1));
    assert_eq!(find_port_index(&devices, &"COM3".to_string()), Some(0));
}

#[test]
fn find_port_index_absent_port_is_none() {
    let devices = vec![descriptor("COM3"), descriptor("COM5")];
    assert_eq!(find_port_index(&devices, &"COM7".to_string()), None);
    assert_eq!(find_port_index(&Vec::new(), &"COM7".to_string()), None);
}
