//! What one exchange run is asked to do: the local key directory, the
//! interface name, the listen address and the peers.

use vstd::prelude::*;
use crate::addr::{
    SockAddr, SockAddrView, addr_text, decimal, decimal_text, tunnel_addr, tunnel_port,
    tunnel_port_spec,
};
use crate::error::ErrorKind;
use crate::key::{base64_key_bytes, decode_private_key};

verus! {

pub open spec fn opt_addr_view(a: Option<SockAddr>) -> Option<SockAddrView> {
    match a {
        Some(x) => Some(x@),
        None => None,
    }
}

pub open spec fn opt_text_view(s: Option<String>) -> Option<Seq<char>> {
    match s {
        Some(x) => Some(x@),
        None => None,
    }
}

/// One remote peer.
pub struct ExchangePeer {
    pub public_keys_dir: String,
    pub endpoint: Option<SockAddr>,
    pub persistent_keepalive: Option<u32>,
    pub allowed_ips: Option<String>,
}

pub struct PeerView {
    pub public_keys_dir: Seq<char>,
    pub endpoint: Option<SockAddrView>,
    pub persistent_keepalive: Option<u32>,
    pub allowed_ips: Option<Seq<char>>,
}

impl View for ExchangePeer {
    type V = PeerView;

    open spec fn view(&self) -> PeerView {
        PeerView {
            public_keys_dir: self.public_keys_dir@,
            endpoint: opt_addr_view(self.endpoint),
            persistent_keepalive: self.persistent_keepalive,
            allowed_ips: opt_text_view(self.allowed_ips),
        }
    }
}

/// The settings of one exchange run.
pub struct ExchangeOptions {
    pub verbose: bool,
    pub private_keys_dir: String,
    pub dev: Option<String>,
    pub listen: Option<SockAddr>,
    pub peers: Vec<ExchangePeer>,
}

pub struct OptionsView {
    pub verbose: bool,
    pub private_keys_dir: Seq<char>,
    pub dev: Option<Seq<char>>,
    pub listen: Option<SockAddrView>,
    pub peers: Seq<PeerView>,
}

pub open spec fn peers_view(peers: Seq<ExchangePeer>) -> Seq<PeerView> {
    peers.map_values(|p: ExchangePeer| p@)
}

impl View for ExchangeOptions {
    type V = OptionsView;

    open spec fn view(&self) -> OptionsView {
        OptionsView {
            verbose: self.verbose,
            private_keys_dir: self.private_keys_dir@,
            dev: opt_text_view(self.dev),
            listen: opt_addr_view(self.listen),
            peers: peers_view(self.peers@),
        }
    }
}

/// Name of the interface where none is asked for.
pub const DEFAULT_DEVICE: &'static str = "rosenpass0";

pub open spec fn device_name_spec(dev: Option<Seq<char>>) -> Seq<char> {
    match dev {
        Some(d) => d,
        None => DEFAULT_DEVICE@,
    }
}

/// The interface name to use: the one asked for, else `rosenpass0`.
pub fn device_name(dev: &Option<String>) -> (r: String)
    ensures
        r@ == device_name_spec(opt_text_view(*dev)),
{
    match dev {
        Some(d) => d.clone(),
        None => String::from_str(DEFAULT_DEVICE),
    }
}

/// One field of the tunnel device's configuration. The interface index is
/// added by whoever sends them.
pub enum DeviceSetting {
    PrivateKey([u8; 32]),
    ListenPort(u16),
}

/// `s` is the private key setting for `key`.
pub open spec fn is_private_key(s: DeviceSetting, key: Seq<u8>) -> bool {
    match s {
        DeviceSetting::PrivateKey(k) => k@ == key,
        _ => false,
    }
}

/// The private key comes from its base64 text; the listen port is the
/// tunnel port of the listen address.
pub fn device_settings(private_key_text: &str, listen: &Option<SockAddr>) -> (r: Result<
    Vec<DeviceSetting>,
    ErrorKind,
>)
    ensures
        base64_key_bytes(private_key_text@) is None ==> r == Err::<Vec<DeviceSetting>, ErrorKind>(
            ErrorKind::KeyLoadError,
        ),
        base64_key_bytes(private_key_text@) is Some ==> match *listen {
            None => r is Ok && r->Ok_0@.len() == 1 && is_private_key(
                r->Ok_0@[0],
                base64_key_bytes(private_key_text@)->Some_0,
            ),
            Some(a) => match tunnel_port_spec(a.port) {
                Some(p) => r is Ok && r->Ok_0@.len() == 2 && is_private_key(
                    r->Ok_0@[0],
                    base64_key_bytes(private_key_text@)->Some_0,
                ) && r->Ok_0@[1] == DeviceSetting::ListenPort(p),
                None => r == Err::<Vec<DeviceSetting>, ErrorKind>(
                    ErrorKind::DeviceConfigureError,
                ),
            },
        },
{
    let key = decode_private_key(private_key_text)?;
    let mut settings: Vec<DeviceSetting> = Vec::new();
    settings.push(DeviceSetting::PrivateKey(key));
    if let Some(a) = listen {
        match tunnel_port(a.port) {
            Some(p) => settings.push(DeviceSetting::ListenPort(p)),
            None => {
                return Err(ErrorKind::DeviceConfigureError);
            },
        }
    }
    Ok(settings)
}

/// What is sent for one peer: the `wg set` parameters that the engine hands
/// to the classic tunnel, the endpoint the engine itself tries, and whether a
/// pre-shared key is to be loaded.
pub struct PeerPlan {
    pub device: String,
    pub extra_params: Vec<String>,
    pub endpoint_hint: Option<String>,
    pub load_psk: bool,
}

/// The `wg set` parameters of a peer, in this order and each only where the
/// peer has it: its endpoint on the tunnel port, its keep-alive interval,
/// its allowed IPs. `None` where the endpoint has no tunnel port.
pub open spec fn extra_params_spec(p: PeerView) -> Option<Seq<Seq<char>>> {
    match p.endpoint {
        None => Some(keepalive_params(p) + allowed_ips_params(p)),
        Some(e) => match tunnel_port_spec(e.port) {
            Some(port) => Some(
                seq!["endpoint"@, addr_text(tunnel_addr(e, port))] + keepalive_params(p)
                    + allowed_ips_params(p),
            ),
            None => None,
        },
    }
}

pub open spec fn keepalive_params(p: PeerView) -> Seq<Seq<char>> {
    match p.persistent_keepalive {
        Some(k) => seq!["persistent-keepalive"@, decimal_text(k as nat)],
        None => Seq::empty(),
    }
}

pub open spec fn allowed_ips_params(p: PeerView) -> Seq<Seq<char>> {
    match p.allowed_ips {
        Some(a) => seq!["allowed-ips"@, a],
        None => Seq::empty(),
    }
}

/// A peer's endpoint reaches the classic tunnel on the next port, and the
/// engine gets the endpoint as it was given.
pub proof fn lemma_peer_endpoint_on_next_port(p: PeerView)
    requires
        p.endpoint is Some,
        p.endpoint->Some_0.port < u16::MAX,
    ensures
        extra_params_spec(p) is Some,
        extra_params_spec(p)->Some_0[0] == "endpoint"@,
        extra_params_spec(p)->Some_0[1] == addr_text(
            tunnel_addr(p.endpoint->Some_0, (p.endpoint->Some_0.port + 1) as u16),
        ),
        endpoint_hint_spec(p) == Some(addr_text(p.endpoint->Some_0)),
{
}

/// A peer without an endpoint gets no endpoint parameter, and the engine no
/// endpoint: the parameter names are the keep-alive's and the allowed IPs'
/// alone.
pub proof fn lemma_no_endpoint_no_endpoint_param(p: PeerView)
    requires
        p.endpoint is None,
    ensures
        extra_params_spec(p) == Some(keepalive_params(p) + allowed_ips_params(p)),
        forall|i: int|
            0 <= i < extra_params_spec(p)->Some_0.len() && i % 2 == 0 ==> #[trigger] extra_params_spec(
                p,
            )->Some_0[i] != "endpoint"@,
        endpoint_hint_spec(p) is None,
{
    reveal_strlit("endpoint");
    reveal_strlit("persistent-keepalive");
    reveal_strlit("allowed-ips");
    let ps = extra_params_spec(p)->Some_0;
    assert forall|i: int| 0 <= i < ps.len() && i % 2 == 0 implies #[trigger] ps[i] != "endpoint"@ by {
        let ka = keepalive_params(p);
        if i < ka.len() {
            assert(ps[i] == "persistent-keepalive"@);
            assert(ps[i].len() != "endpoint"@.len());
        } else {
            assert(ps[i] == "allowed-ips"@);
            assert(ps[i].len() != "endpoint"@.len());
        }
    }
}

pub open spec fn endpoint_hint_spec(p: PeerView) -> Option<Seq<char>> {
    match p.endpoint {
        Some(e) => Some(addr_text(e)),
        None => None,
    }
}

pub open spec fn texts_view(v: Seq<String>) -> Seq<Seq<char>> {
    v.map_values(|s: String| s@)
}

impl PeerPlan {
    pub open spec fn matches(&self, p: PeerView, device: Seq<char>, psk_present: bool) -> bool {
        &&& extra_params_spec(p) is Some
        &&& texts_view(self.extra_params@) == extra_params_spec(p)->Some_0
        &&& opt_text_view(self.endpoint_hint) == endpoint_hint_spec(p)
        &&& self.device@ == device
        &&& self.load_psk == psk_present
    }
}

fn push_text(v: &mut Vec<String>, s: String)
    ensures
        texts_view(final(v)@) == texts_view(old(v)@).push(s@),
{
    v.push(s);
    assert(texts_view(v@) =~= texts_view(old(v)@).push(s@));
}

/// The plan for registering `peer` on interface `device`; `psk_present` says
/// whether its directory holds a pre-shared key file. Fails only where the
/// endpoint has no tunnel port.
pub fn plan_peer(peer: &ExchangePeer, device: &String, psk_present: bool) -> (r: Result<
    PeerPlan,
    ErrorKind,
>)
    ensures
        extra_params_spec(peer@) is None ==> r == Err::<PeerPlan, ErrorKind>(
            ErrorKind::PeerRegisterError,
        ),
        extra_params_spec(peer@) is Some ==> r is Ok && r->Ok_0.matches(
            peer@,
            device@,
            psk_present,
        ),
{
    let mut extra_params: Vec<String> = Vec::new();
    let mut endpoint_hint: Option<String> = None;
    if let Some(e) = &peer.endpoint {
        match e.to_tunnel() {
            Some(t) => {
                push_text(&mut extra_params, String::from_str("endpoint"));
                push_text(&mut extra_params, t.text());
            },
            None => {
                return Err(ErrorKind::PeerRegisterError);
            },
        }
        endpoint_hint = Some(e.text());
    }
    let ghost after_endpoint = texts_view(extra_params@);
    if let Some(k) = peer.persistent_keepalive {
        push_text(&mut extra_params, String::from_str("persistent-keepalive"));
        push_text(&mut extra_params, decimal(k));
    }
    let ghost after_keepalive = texts_view(extra_params@);
    if let Some(a) = &peer.allowed_ips {
        push_text(&mut extra_params, String::from_str("allowed-ips"));
        push_text(&mut extra_params, a.clone());
    }
    let plan = PeerPlan { device: device.clone(), extra_params, endpoint_hint, load_psk: psk_present };
    assert(texts_view(plan.extra_params@) =~= extra_params_spec(peer@)->Some_0);
    Ok(plan)
}

} // verus!
