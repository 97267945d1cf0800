use netstack::addr::{IpAddr, SocketAddr};

#[test]
fn parts_of_an_address() {
    let v4 = SocketAddr::V4 { ip: 0x0a000001, port: 80 };
    assert_eq!(v4.ip(), IpAddr::V4(0x0a000001));
    assert_eq!(v4.port(), 80);
    let v6 = SocketAddr::V6 { ip: 1, port: 443, flowinfo: 7, scope_id: 9 };
    assert_eq!(v6.ip(), IpAddr::V6(1));
    assert_eq!(v6.port(), 443);
}
