//! Socket addresses as plain values, their text form, and the port offset
//! between the key-exchange namespace and the classic tunnel.

use vstd::prelude::*;

verus! {

/// A socket address. `ip` holds the address without port or brackets, in the
/// form that the standard library displays it (`10.0.0.5`, `fe80::1`).
pub struct SockAddr {
    pub ip: String,
    pub v6: bool,
    pub scope_id: u32,
    pub port: u16,
}

/// Mathematical model of a [`SockAddr`].
pub struct SockAddrView {
    pub ip: Seq<char>,
    pub v6: bool,
    pub scope_id: u32,
    pub port: u16,
}

impl View for SockAddr {
    type V = SockAddrView;

    open spec fn view(&self) -> SockAddrView {
        SockAddrView { ip: self.ip@, v6: self.v6, scope_id: self.scope_id, port: self.port }
    }
}

/// The classic tunnel listens one port above the key exchange.
pub const PORT_OFFSET: u16 = 1;

pub open spec fn digit_char(d: int) -> char {
    if d == 0 {
        '0'
    } else if d == 1 {
        '1'
    } else if d == 2 {
        '2'
    } else if d == 3 {
        '3'
    } else if d == 4 {
        '4'
    } else if d == 5 {
        '5'
    } else if d == 6 {
        '6'
    } else if d == 7 {
        '7'
    } else if d == 8 {
        '8'
    } else {
        '9'
    }
}

/// Decimal text of a natural number, without sign or leading zeros.
pub open spec fn decimal_text(n: nat) -> Seq<char>
    decreases n,
{
    if n < 10 {
        seq![digit_char(n as int)]
    } else {
        decimal_text(n / 10).push(digit_char((n % 10) as int))
    }
}

/// Text of an address as the standard library displays it:
/// `ip:port`, `[ip]:port`, or `[ip%scope]:port`.
pub open spec fn addr_text(a: SockAddrView) -> Seq<char> {
    if !a.v6 {
        a.ip + ":"@ + decimal_text(a.port as nat)
    } else if a.scope_id == 0 {
        "["@ + a.ip + "]:"@ + decimal_text(a.port as nat)
    } else {
        "["@ + a.ip + "%"@ + decimal_text(a.scope_id as nat) + "]:"@ + decimal_text(a.port as nat)
    }
}

/// The port that the classic tunnel uses for key-exchange port `p`, where
/// it exists.
pub open spec fn tunnel_port_spec(p: u16) -> Option<u16> {
    if p as int + PORT_OFFSET as int <= u16::MAX as int {
        Some((p + PORT_OFFSET) as u16)
    } else {
        None
    }
}

/// Same address on the tunnel port. The scope is not carried over.
pub open spec fn tunnel_addr(a: SockAddrView, port: u16) -> SockAddrView {
    SockAddrView { ip: a.ip, v6: a.v6, scope_id: 0, port }
}

/// The port that the classic tunnel is given is the key-exchange port plus
/// one, for every port below the last.
pub proof fn lemma_tunnel_port_is_next(p: u16)
    requires
        p < u16::MAX,
    ensures
        tunnel_port_spec(p) == Some((p + 1) as u16),
{
}

fn digit_text(d: u32) -> (r: String)
    requires
        d < 10,
    ensures
        r@ == seq![digit_char(d as int)],
{
    let s = if d == 0 {
        "0"
    } else if d == 1 {
        "1"
    } else if d == 2 {
        "2"
    } else if d == 3 {
        "3"
    } else if d == 4 {
        "4"
    } else if d == 5 {
        "5"
    } else if d == 6 {
        "6"
    } else if d == 7 {
        "7"
    } else if d == 8 {
        "8"
    } else {
        "9"
    };
    proof {
        reveal_strlit("0");
        reveal_strlit("1");
        reveal_strlit("2");
        reveal_strlit("3");
        reveal_strlit("4");
        reveal_strlit("5");
        reveal_strlit("6");
        reveal_strlit("7");
        reveal_strlit("8");
        reveal_strlit("9");
    }
    let r = String::from_str(s);
    assert(r@ =~= seq![digit_char(d as int)]);
    r
}

/// Decimal text of `n`, as `to_string` gives it.
pub fn decimal(n: u32) -> (r: String)
    ensures
        r@ == decimal_text(n as nat),
    decreases n,
{
    if n < 10 {
        digit_text(n)
    } else {
        let mut s = decimal(n / 10);
        let last = digit_text(n % 10);
        s.append(last.as_str());
        assert(s@ =~= decimal_text(n as nat));
        s
    }
}

impl SockAddr {
    /// Text of the address, as the standard library displays it.
    pub fn text(&self) -> (r: String)
        ensures
            r@ == addr_text(self@),
    {
        let port = decimal(self.port as u32);
        if !self.v6 {
            let mut s = self.ip.clone();
            s.append(":");
            s.append(port.as_str());
            s
        } else {
            let mut s = String::from_str("[");
            s.append(self.ip.as_str());
            if self.scope_id != 0 {
                let scope = decimal(self.scope_id);
                s.append("%");
                s.append(scope.as_str());
            }
            s.append("]:");
            s.append(port.as_str());
            s
        }
    }

    /// The address that the classic tunnel uses for this one: same host, the
    /// port one above. `None` where no such port exists.
    pub fn to_tunnel(&self) -> (r: Option<SockAddr>)
        ensures
            match tunnel_port_spec(self.port) {
                Some(p) => r is Some && r->Some_0@ == tunnel_addr(self@, p),
                None => r is None,
            },
    {
        match tunnel_port(self.port) {
            Some(p) => Some(SockAddr { ip: self.ip.clone(), v6: self.v6, scope_id: 0, port: p }),
            None => None,
        }
    }
}

/// The port that the classic tunnel uses for key-exchange port `p`: `p + 1`,
/// or `None` where that is past the last port.
pub fn tunnel_port(p: u16) -> (r: Option<u16>)
    ensures
        r == tunnel_port_spec(p),
        r is Some ==> r->Some_0 == p + 1,
{
    if p < u16::MAX {
        Some(p + PORT_OFFSET)
    } else {
        None
    }
}

} // verus!
