use vex_link::error::ConnectError;

#[test]
fn enumeration_message_is_the_underlying_message() {
    let e = ConnectError::Enumeration("driver absent".to_string());
    assert_eq!(e.message(), "driver absent");
}

#[test]
fn device_not_found_message_names_the_port() {
    let e = ConnectError::DeviceNotFound("COM7".to_string());
    assert_eq!(e.message(), "No Vex device found at port COM7");
}

#[test]
fn connection_message_is_the_underlying_message() {
    let e = ConnectError::Connection("timed out".to_string());
    assert_eq!(e.message(), "timed out");
}
