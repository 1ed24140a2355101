use rp::addr::{decimal, tunnel_port, SockAddr};

#[test]
fn decimal_text() {
    assert_eq!(decimal(0), "0");
    assert_eq!(decimal(7), "7");
    assert_eq!(decimal(25), "25");
    assert_eq!(decimal(51001), "51001");
    assert_eq!(decimal(u32::MAX), "4294967295");
}

#[test]
fn address_text() {
    let a = SockAddr { ip: "10.0.0.5".to_string(), v6: false, scope_id: 0, port: 51000 };
    assert_eq!(a.text(), "10.0.0.5:51000");
    let b = SockAddr { ip: "fe80::1".to_string(), v6: true, scope_id: 0, port: 443 };
    assert_eq!(b.text(), "[fe80::1]:443");
    let c = SockAddr { ip: "fe80::1".to_string(), v6: true, scope_id: 3, port: 443 };
    assert_eq!(c.text(), "[fe80::1%3]:443");
}

#[test]
fn tunnel_port_is_next_port() {
    assert_eq!(tunnel_port(0), Some(1));
    assert_eq!(tunnel_port(51000), Some(51001));
    assert_eq!(tunnel_port(65534), Some(65535));
    assert_eq!(tunnel_port(65535), None);
}

#[test]
fn tunnel_address_drops_scope() {
    let c = SockAddr { ip: "fe80::1".to_string(), v6: true, scope_id: 3, port: 443 };
    let t = c.to_tunnel().unwrap();
    assert_eq!(t.text(), "[fe80::1]:444");
    let last = SockAddr { ip: "1.1.1.1".to_string(), v6: false, scope_id: 0, port: 65535 };
    assert!(last.to_tunnel().is_none());
}
