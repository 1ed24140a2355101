use rp::addr::SockAddr;
use rp::error::ErrorKind;
use rp::exchange::{device_name, device_settings, plan_peer, DeviceSetting, ExchangePeer};
use rp::key::{decode_private_key, public_key_text};

const SK_B64: &str = "dwdtCnMYpX08FsFyUbJmRd9ML4frwJkqsXf7pR25LCo=";
const PK_B64: &str = "hSDwCYkwp1R0i33ctD73Wg2/Og0mOBr066SpjqqbTmo=";
const SK_HEX: &str = "77076d0a7318a57d3c16c17251b26645df4c2f87ebc0992ab177fba51db92c2a";

fn sk_bytes() -> [u8; 32] {
    let mut b = [0u8; 32];
    for i in 0..32 {
        b[i] = u8::from_str_radix(&SK_HEX[2 * i..2 * i + 2], 16).unwrap();
    }
    b
}

fn peer(endpoint: Option<(&str, u16)>, keepalive: Option<u32>, ips: Option<&str>) -> ExchangePeer {
    ExchangePeer {
        public_keys_dir: "peer".to_string(),
        endpoint: endpoint.map(|(ip, port)| SockAddr { ip: ip.to_string(), v6: false, scope_id: 0, port }),
        persistent_keepalive: keepalive,
        allowed_ips: ips.map(|s| s.to_string()),
    }
}

#[test]
fn private_key_decodes() {
    assert_eq!(decode_private_key(SK_B64), Ok(sk_bytes()));
    assert_eq!(decode_private_key("not base64!"), Err(ErrorKind::KeyLoadError));
    // 31 bytes: well-formed base64, wrong length
    assert_eq!(
        decode_private_key("AAAAAAAAAAAAAAAAAAAAAAAAAAAAAAAAAAAAAAAAAA=="),
        Err(ErrorKind::KeyLoadError)
    );
}

#[test]
fn public_key_of_private_key() {
    assert_eq!(public_key_text(SK_B64), Ok(PK_B64.to_string()));
    assert_eq!(public_key_text(""), Err(ErrorKind::KeyLoadError));
}

#[test]
fn default_device_name() {
    assert_eq!(device_name(&None), "rosenpass0");
    assert_eq!(device_name(&Some("wg9".to_string())), "wg9");
}

#[test]
fn device_settings_without_listen() {
    let s = device_settings(SK_B64, &None).unwrap();
    assert_eq!(s.len(), 1);
    assert!(matches!(s[0], DeviceSetting::PrivateKey(k) if k == sk_bytes()));
}

#[test]
fn device_settings_listen_port_is_next_port() {
    let listen = SockAddr { ip: "0.0.0.0".to_string(), v6: false, scope_id: 0, port: 9999 };
    let s = device_settings(SK_B64, &Some(listen)).unwrap();
    assert_eq!(s.len(), 2);
    assert!(matches!(s[0], DeviceSetting::PrivateKey(k) if k == sk_bytes()));
    assert!(matches!(s[1], DeviceSetting::ListenPort(10000)));
}

#[test]
fn device_settings_errors() {
    let last = SockAddr { ip: "0.0.0.0".to_string(), v6: false, scope_id: 0, port: 65535 };
    assert!(matches!(device_settings(SK_B64, &Some(last)), Err(ErrorKind::DeviceConfigureError)));
    assert!(matches!(device_settings("garbage", &None), Err(ErrorKind::KeyLoadError)));
}

#[test]
fn peer_with_endpoint_and_keepalive() {
    let p = peer(Some(("10.0.0.5", 51000)), Some(25), None);
    let plan = plan_peer(&p, &"rosenpass0".to_string(), false).unwrap();
    assert_eq!(plan.extra_params, vec!["endpoint", "10.0.0.5:51001", "persistent-keepalive", "25"]);
    assert_eq!(plan.endpoint_hint.as_deref(), Some("10.0.0.5:51000"));
    assert!(!plan.load_psk);
    assert_eq!(plan.device, "rosenpass0");
}

#[test]
fn peer_without_endpoint() {
    let p = peer(None, None, Some("10.0.0.0/8"));
    let plan = plan_peer(&p, &"wg0".to_string(), true).unwrap();
    assert_eq!(plan.extra_params, vec!["allowed-ips", "10.0.0.0/8"]);
    assert!(plan.endpoint_hint.is_none());
    assert!(plan.load_psk);
    let bare = plan_peer(&peer(None, None, None), &"wg0".to_string(), false).unwrap();
    assert!(bare.extra_params.is_empty());
    assert!(bare.endpoint_hint.is_none());
}

#[test]
fn peer_with_all_parameters() {
    let p = peer(Some(("1.2.3.4", 0)), Some(0), Some("a,b"));
    let plan = plan_peer(&p, &"wg0".to_string(), true).unwrap();
    assert_eq!(
        plan.extra_params,
        vec!["endpoint", "1.2.3.4:1", "persistent-keepalive", "0", "allowed-ips", "a,b"]
    );
    assert_eq!(plan.endpoint_hint.as_deref(), Some("1.2.3.4:0"));
}

#[test]
fn peer_endpoint_on_last_port_is_refused() {
    let p = peer(Some(("1.2.3.4", 65535)), None, None);
    assert!(matches!(plan_peer(&p, &"wg0".to_string(), false), Err(ErrorKind::PeerRegisterError)));
}
