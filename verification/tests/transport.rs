use dugong::transport::{client_bind_port, TransportType, DEFAULT_CLIENT_PORT, DEFAULT_SERVER_PORT};

#[test]
fn ports_of_each_kind_of_address() {
    assert_eq!(TransportType::VsockConnection { cid: 3, port: 5552 }.get_port(), Some(5552));
    assert_eq!(TransportType::IpConnection { addr: 0x7f00_0001, port: 65535 }.get_port(), Some(65535));
    assert_eq!(TransportType::FdConnection { read: 3, write: 4 }.get_port(), None);
}

#[test]
fn bind_port_for_the_default_server_port() {
    assert_eq!(DEFAULT_SERVER_PORT, 5552);
    assert_eq!(DEFAULT_CLIENT_PORT, 5553);
    assert_eq!(client_bind_port(DEFAULT_SERVER_PORT), Some(DEFAULT_CLIENT_PORT));
}

#[test]
fn bind_port_for_other_server_ports() {
    assert_eq!(client_bind_port(0), Some(1));
    assert_eq!(client_bind_port(8000), Some(8001));
    assert_eq!(client_bind_port(u32::MAX - 1), Some(u32::MAX));
    assert_eq!(client_bind_port(u32::MAX), None);
}
