use startup::addr::format_address;
use startup::addr::port_decimal;

#[test]
fn ports_are_written_in_decimal() {
    assert_eq!(port_decimal(0), "0".to_string());
    assert_eq!(port_decimal(7), "7".to_string());
    assert_eq!(port_decimal(10), "10".to_string());
    assert_eq!(port_decimal(8000), "8000".to_string());
    assert_eq!(port_decimal(65535), "65535".to_string());
}

#[test]
fn the_address_is_host_colon_port() {
    assert_eq!(format_address("127.0.0.1", 8000), "127.0.0.1:8000".to_string());
    assert_eq!(format_address("localhost", 0), "localhost:0".to_string());
    assert_eq!(format_address("", 443), ":443".to_string());
}
