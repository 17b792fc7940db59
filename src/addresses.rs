use vstd::prelude::*;
use vstd::string::StringExecFns;
use vstd::string::StrSliceExecFns;
use crate::identity::{base58_text, is_identity_multihash, peer_id_text, NodeId, PeerId};
use crate::record::Endpoints;
use crate::text::{decimal, hex_lower, to_hex, write_decimal};
use libp2p_core::multiaddr::Protocol;

verus! {

/// An IP address as its octets.
#[derive(Clone, Copy, Debug, PartialEq, Eq)]
pub enum IpAddress {
    V4([u8; 4]),
    V6([u8; 16]),
}

/// The transports a record can advertise a port for.
#[derive(Clone, Copy, Debug, PartialEq, Eq, Structural)]
pub enum Transport {
    Tcp,
    Udp,
    Quic,
}

/// One dial-able address: an IP, a transport and its port.
#[derive(Clone, Copy, Debug, PartialEq, Eq)]
pub struct DialAddr {
    pub ip: IpAddress,
    pub transport: Transport,
    pub port: u16,
}

/// One protocol of a multiaddress.
#[derive(Clone, Copy, Debug, PartialEq, Eq)]
pub enum Component {
    Ip4([u8; 4]),
    Ip6([u8; 16]),
    Tcp(u16),
    Udp(u16),
    QuicV1,
}

/// The standard text of an IPv6 address.
pub uninterp spec fn ipv6_text(octets: Seq<u8>) -> Seq<char>;

/// The dotted-quad text of an IPv4 address.
pub open spec fn ipv4_text(o: Seq<u8>) -> Seq<char> {
    decimal(o[0] as nat) + "."@ + decimal(o[1] as nat) + "."@ + decimal(o[2] as nat) + "."@
        + decimal(o[3] as nat)
}

pub open spec fn ip_text(ip: IpAddress) -> Seq<char> {
    match ip {
        IpAddress::V4(o) => ipv4_text(o@),
        IpAddress::V6(o) => ipv6_text(o@),
    }
}

/// The text of one protocol: a slash, its name, a slash, its value.
pub open spec fn component_text(c: Component) -> Seq<char> {
    match c {
        Component::Ip4(o) => "/ip4/"@ + ipv4_text(o@),
        Component::Ip6(o) => "/ip6/"@ + ipv6_text(o@),
        Component::Tcp(p) => "/tcp/"@ + decimal(p as nat),
        Component::Udp(p) => "/udp/"@ + decimal(p as nat),
        Component::QuicV1 => "/quic-v1"@,
    }
}

/// The text of a multiaddress: its protocols' texts in order.
pub open spec fn components_text(c: Seq<Component>) -> Seq<char>
    decreases c.len(),
{
    if c.len() == 0 {
        Seq::empty()
    } else {
        components_text(c.drop_last()) + component_text(c.last())
    }
}

/// The protocols of a dial address: the IP, then the transport (QUIC runs over UDP).
pub open spec fn dial_components(a: DialAddr) -> Seq<Component> {
    let ip = match a.ip {
        IpAddress::V4(o) => Component::Ip4(o),
        IpAddress::V6(o) => Component::Ip6(o),
    };
    match a.transport {
        Transport::Tcp => seq![ip, Component::Tcp(a.port)],
        Transport::Udp => seq![ip, Component::Udp(a.port)],
        Transport::Quic => seq![ip, Component::Udp(a.port), Component::QuicV1],
    }
}

/// The multiaddress text of a dial address, with `/p2p/` and the peer
/// identifier's base58 text appended where one is given.
pub open spec fn dial_text(a: DialAddr, peer: Option<Seq<u8>>) -> Seq<char> {
    match peer {
        None => components_text(dial_components(a)),
        Some(p) => components_text(dial_components(a)) + "/p2p/"@ + base58_text(p),
    }
}

/// Relies on the `Display` of `Protocol::Ip6` in multiaddr: `/ip6/`, then the
/// address's standard text.
#[verifier::external_body]
fn ip6_protocol_text(o: [u8; 16]) -> (r: String)
    ensures
        r@ == "/ip6/"@ + ipv6_text(o@),
{
    Protocol::Ip6(o.into()).to_string()
}

/// Relies on the `Display` of `Multiaddr`: each protocol as `/`, its name, `/`
/// and its value (`/quic-v1` has none), with IPv4 in dotted decimal and ports in decimal.
#[verifier::external_body]
fn multiaddr_string(c: &Vec<Component>) -> (r: String)
    ensures
        r@ == components_text(c@),
{
    c.iter().map(|x| match *x {
        Component::Ip4(o) => Protocol::Ip4(o.into()),
        Component::Ip6(o) => Protocol::Ip6(o.into()),
        Component::Tcp(p) => Protocol::Tcp(p),
        Component::Udp(p) => Protocol::Udp(p),
        Component::QuicV1 => Protocol::QuicV1,
    }).collect::<libp2p_core::Multiaddr>().to_string()
}

/// Appends the text of an IP address.
pub fn write_ip(s: &mut String, ip: &IpAddress)
    ensures
        final(s)@ == old(s)@ + ip_text(*ip),
{
    match ip {
        IpAddress::V4(o) => {
            write_decimal(s, o[0] as u64);
            s.append(".");
            write_decimal(s, o[1] as u64);
            s.append(".");
            write_decimal(s, o[2] as u64);
            s.append(".");
            write_decimal(s, o[3] as u64);
            assert(final(s)@ =~= old(s)@ + ip_text(*ip));
        },
        IpAddress::V6(o) => {
            let t = ip6_protocol_text(*o);
            proof {
                reveal_strlit("/ip6/");
            }
            let n = t.as_str().unicode_len();
            let a = t.as_str().substring_char(5, n);
            assert(a@ =~= ipv6_text(o@));
            s.append(a);
        },
    }
}

/// The address for an IP and an optional port, if both are present.
pub open spec fn gated(ip: Option<IpAddress>, t: Transport, port: Option<u16>) -> Seq<DialAddr> {
    match (ip, port) {
        (Some(i), Some(p)) => seq![DialAddr { ip: i, transport: t, port: p }],
        _ => Seq::empty(),
    }
}

pub open spec fn v4(e: Endpoints) -> Option<IpAddress> {
    match e.ip4 {
        Some(o) => Some(IpAddress::V4(o)),
        None => None,
    }
}

pub open spec fn v6(e: Endpoints) -> Option<IpAddress> {
    match e.ip6 {
        Some(o) => Some(IpAddress::V6(o)),
        None => None,
    }
}

pub open spec fn keep(want: bool, port: Option<u16>) -> Option<u16> {
    if want {
        port
    } else {
        None
    }
}

/// The dial addresses of the selected transports: for IPv4 then IPv6, UDP, TCP
/// and QUIC in that order, each only where both the IP and the port are present.
pub open spec fn dial_addrs(e: Endpoints, tcp: bool, udp: bool, quic: bool) -> Seq<DialAddr> {
    gated(v4(e), Transport::Udp, keep(udp, e.udp4)) + gated(v4(e), Transport::Tcp, keep(tcp, e.tcp4))
        + gated(v4(e), Transport::Quic, keep(quic, e.quic4)) + gated(
        v6(e),
        Transport::Udp,
        keep(udp, e.udp6),
    ) + gated(v6(e), Transport::Tcp, keep(tcp, e.tcp6)) + gated(
        v6(e),
        Transport::Quic,
        keep(quic, e.quic6),
    )
}

fn push_gated(out: &mut Vec<DialAddr>, ip: Option<IpAddress>, t: Transport, port: Option<u16>)
    ensures
        final(out)@ == old(out)@ + gated(ip, t, port),
{
    if let Some(i) = ip {
        if let Some(p) = port {
            out.push(DialAddr { ip: i, transport: t, port: p });
        }
    }
    assert(final(out)@ =~= old(out)@ + gated(ip, t, port));
}

fn select(want: bool, port: Option<u16>) -> (r: Option<u16>)
    ensures
        r == keep(want, port),
{
    if want {
        port
    } else {
        None
    }
}

/// The dial addresses of the selected transports (see [`dial_addrs`]).
pub fn collect_dial_addrs(e: &Endpoints, tcp: bool, udp: bool, quic: bool) -> (r: Vec<DialAddr>)
    ensures
        r@ == dial_addrs(*e, tcp, udp, quic),
{
    let ip4 = match e.ip4 {
        Some(o) => Some(IpAddress::V4(o)),
        None => None,
    };
    let ip6 = match e.ip6 {
        Some(o) => Some(IpAddress::V6(o)),
        None => None,
    };
    let mut out: Vec<DialAddr> = Vec::new();
    push_gated(&mut out, ip4, Transport::Udp, select(udp, e.udp4));
    push_gated(&mut out, ip4, Transport::Tcp, select(tcp, e.tcp4));
    push_gated(&mut out, ip4, Transport::Quic, select(quic, e.quic4));
    push_gated(&mut out, ip6, Transport::Udp, select(udp, e.udp6));
    push_gated(&mut out, ip6, Transport::Tcp, select(tcp, e.tcp6));
    push_gated(&mut out, ip6, Transport::Quic, select(quic, e.quic6));
    assert(out@ =~= dial_addrs(*e, tcp, udp, quic));
    out
}

/// Every dial address: UDP, TCP and QUIC, IPv4 before IPv6.
pub fn multiaddr(e: &Endpoints) -> (r: Vec<DialAddr>)
    ensures
        r@ == dial_addrs(*e, true, true, true),
{
    collect_dial_addrs(e, true, true, true)
}

/// The TCP dial addresses.
pub fn multiaddr_tcp(e: &Endpoints) -> (r: Vec<DialAddr>)
    ensures
        r@ == dial_addrs(*e, true, false, false),
{
    collect_dial_addrs(e, true, false, false)
}

/// The UDP dial addresses.
pub fn multiaddr_udp(e: &Endpoints) -> (r: Vec<DialAddr>)
    ensures
        r@ == dial_addrs(*e, false, true, false),
{
    collect_dial_addrs(e, false, true, false)
}

/// The QUIC dial addresses.
pub fn multiaddr_quic(e: &Endpoints) -> (r: Vec<DialAddr>)
    ensures
        r@ == dial_addrs(*e, false, false, true),
{
    collect_dial_addrs(e, false, false, true)
}

fn dial_components_of(a: &DialAddr) -> (r: Vec<Component>)
    ensures
        r@ == dial_components(*a),
{
    let ip = match a.ip {
        IpAddress::V4(o) => Component::Ip4(o),
        IpAddress::V6(o) => Component::Ip6(o),
    };
    let r = match a.transport {
        Transport::Tcp => vec![ip, Component::Tcp(a.port)],
        Transport::Udp => vec![ip, Component::Udp(a.port)],
        Transport::Quic => vec![ip, Component::Udp(a.port), Component::QuicV1],
    };
    assert(r@ =~= dial_components(*a));
    r
}

/// Whether `t` is the text of `a` for an optional peer identifier: with the
/// `/p2p/` suffix where the peer identifier is an inline key libp2p reads, and
/// without a suffix where no peer identifier is given.
pub open spec fn is_dial_text(a: DialAddr, peer: Option<Seq<u8>>, t: Seq<char>) -> bool {
    match peer {
        None => t == dial_text(a, None),
        Some(p) => {
            &&& (is_identity_multihash(p) && p.len() <= 44 ==> t == dial_text(a, Some(p)))
            &&& (t == dial_text(a, None) || t == dial_text(a, Some(p)))
        },
    }
}

pub open spec fn peer_bytes(peer: Option<&PeerId>) -> Option<Seq<u8>> {
    match peer {
        Some(p) => Some(p.bytes@),
        None => None,
    }
}

/// The multiaddress text of a dial address, `/p2p/<peer>` appended where a peer
/// identifier is given and has a base58 text.
pub fn dial_addr_text(a: &DialAddr, peer: Option<&PeerId>) -> (r: String)
    ensures
        is_dial_text(*a, peer_bytes(peer), r@),
{
    let mut s = multiaddr_string(&dial_components_of(a));
    if let Some(p) = peer {
        if let Some(t) = peer_id_text(p) {
            s.append("/p2p/");
            s.append(t.as_str());
        }
    }
    s
}

/// The multiaddress texts of a list of dial addresses, in order.
pub fn dial_addr_texts(addrs: &Vec<DialAddr>, peer: Option<&PeerId>) -> (r: Vec<String>)
    ensures
        r@.len() == addrs@.len(),
        forall|i: int|
            0 <= i < addrs@.len() ==> is_dial_text(addrs@[i], peer_bytes(peer), #[trigger] r@[i]@),
{
    let mut out: Vec<String> = Vec::new();
    let mut i: usize = 0;
    while i < addrs.len()
        invariant
            i <= addrs@.len(),
            out@.len() == i,
            forall|j: int|
                0 <= j < i ==> is_dial_text(addrs@[j], peer_bytes(peer), #[trigger] out@[j]@),
        decreases addrs@.len() - i,
    {
        out.push(dial_addr_text(&addrs[i], peer));
        i = i + 1;
    }
    out
}

/// The legacy `enode://` address of a record: the node identifier in hex, then,
/// if the record has an IP (IPv4 preferred), `@` and the IP, `:` and the TCP port
/// if known, and `?discport=` and the UDP port if known and different from the TCP one.
pub open spec fn enode_text(node: Seq<u8>, e: Endpoints) -> Seq<char> {
    let head = "enode://"@ + hex_lower(node);
    let ip = match e.ip4 {
        Some(o) => Some(IpAddress::V4(o)),
        None => match e.ip6 {
            Some(o) => Some(IpAddress::V6(o)),
            None => None,
        },
    };
    match ip {
        None => head,
        Some(i) => {
            let at = head + "@"@ + ip_text(i);
            match (e.tcp4, e.udp4) {
                (Some(t), Some(u)) => if t != u {
                    at + ":"@ + decimal(t as nat) + "?discport="@ + decimal(u as nat)
                } else {
                    at + ":"@ + decimal(t as nat)
                },
                (Some(t), None) => at + ":"@ + decimal(t as nat),
                (None, Some(u)) => at + "?discport="@ + decimal(u as nat),
                (None, None) => at,
            }
        },
    }
}

/// The legacy `enode://` address (see [`enode_text`]); IPv6 records use the
/// IPv4 port fields, as the legacy format has no others.
pub fn enode_id(node: &NodeId, e: &Endpoints) -> (r: String)
    ensures
        r@ == enode_text(node.raw@, *e),
{
    let mut s = String::from_str("enode://");
    let h = to_hex(node.raw.as_slice());
    s.append(h.as_str());
    let ip = match e.ip4 {
        Some(o) => Some(IpAddress::V4(o)),
        None => match e.ip6 {
            Some(o) => Some(IpAddress::V6(o)),
            None => None,
        },
    };
    if let Some(i) = ip {
        s.append("@");
        write_ip(&mut s, &i);
        match (e.tcp4, e.udp4) {
            (Some(t), Some(u)) => {
                s.append(":");
                write_decimal(&mut s, t as u64);
                if t != u {
                    s.append("?discport=");
                    write_decimal(&mut s, u as u64);
                }
            },
            (Some(t), None) => {
                s.append(":");
                write_decimal(&mut s, t as u64);
            },
            (None, Some(u)) => {
                s.append("?discport=");
                write_decimal(&mut s, u as u64);
            },
            (None, None) => {},
        }
    }
    assert(s@ =~= enode_text(node.raw@, *e));
    s
}

} // verus!
