use vstd::prelude::*;
use vstd::string::StringExecFns;
use crate::addresses::{
    dial_addr_texts, dial_addrs, dial_text, is_dial_text, enode_id, enode_text, ip_text, multiaddr, write_ip,
    IpAddress,
};
use crate::fork_id::{decode_fork_id, fork_id_bytes, EnrForkId};
use crate::identity::{base58_text, node_id_of, peer_id, peer_id_of, peer_id_text, NodeId};
use crate::record::{Endpoints, Record};
use crate::text::{decimal, hex_lower, to_hex, write_decimal};

verus! {

/// The texts of a list of strings.
pub open spec fn texts(v: Seq<String>) -> Seq<Seq<char>> {
    v.map_values(|s: String| s@)
}

/// The text an optional string holds.
pub open spec fn opt_text(o: Option<String>) -> Option<Seq<char>> {
    match o {
        Some(p) => Some(p@),
        None => None,
    }
}

/// A line `label` followed by the decimal text of an optional port.
pub open spec fn port_line(label: Seq<char>, p: Option<u16>) -> Seq<Seq<char>> {
    match p {
        Some(v) => seq![label + decimal(v as nat)],
        None => Seq::empty(),
    }
}

/// The lines describing a decoded fork identifier.
pub open spec fn fork_id_lines(f: EnrForkId) -> Seq<Seq<char>> {
    seq![
        "Eth2 Field:"@,
        "\tFork digest: "@ + hex_lower(f.fork_digest@),
        "\tNext fork version: "@ + hex_lower(f.next_fork_version@),
        "\tNext fork epoch: "@ + decimal(f.next_fork_epoch as nat),
        "\tEncoded bytes: "@ + hex_lower(fork_id_bytes(f)),
    ]
}

/// The multiaddress lines: a heading and one line per dial address, if there are any.
pub open spec fn multiaddr_lines(e: Endpoints) -> Seq<Seq<char>> {
    let addrs = dial_addrs(e, true, true, true);
    if addrs.len() == 0 {
        Seq::empty()
    } else {
        seq!["Known multiaddrs:"@] + addrs.map_values(|a| dial_text(a, None))
    }
}

/// The heading lines: sequence number, node identifier and legacy address.
pub open spec fn header_lines(node: Seq<u8>, seq_no: u64, e: Endpoints) -> Seq<Seq<char>> {
    seq![
        "ENR Read:"@,
        "Sequence No:"@ + decimal(seq_no as nat),
        "NodeId: "@ + hex_lower(node),
        "EnodeId: "@ + enode_text(node, e),
    ]
}

pub open spec fn peer_lines(peer: Option<Seq<char>>) -> Seq<Seq<char>> {
    match peer {
        Some(p) => seq!["Libp2p PeerId: "@ + p],
        None => Seq::empty(),
    }
}

pub open spec fn ip_lines(e: Endpoints) -> Seq<Seq<char>> {
    let v4: Seq<Seq<char>> = match e.ip4 {
        Some(o) => seq!["IP:"@ + ip_text(IpAddress::V4(o))],
        None => Seq::empty(),
    };
    let v6: Seq<Seq<char>> = match e.ip6 {
        Some(o) => seq!["IP6:"@ + ip_text(IpAddress::V6(o))],
        None => Seq::empty(),
    };
    v4 + v6
}

pub open spec fn port_lines(e: Endpoints) -> Seq<Seq<char>> {
    port_line("TCP Port:"@, e.tcp4) + port_line("TCP6 Port:"@, e.tcp6) + port_line(
        "UDP Port:"@,
        e.udp4,
    ) + port_line("UDP6 Port:"@, e.udp6) + port_line("QUIC Port:"@, e.quic4) + port_line(
        "QUIC6 Port:"@,
        e.quic6,
    )
}

pub open spec fn eth2_lines(eth2: Option<Seq<u8>>) -> Seq<Seq<char>> {
    match eth2 {
        Some(v) => match decode_fork_id(v) {
            Ok(f) => fork_id_lines(f),
            Err(_) => Seq::empty(),
        },
        None => Seq::empty(),
    }
}

/// The report on a record, given the text of its peer identifier if it has one.
pub open spec fn report(
    node: Seq<u8>,
    seq_no: u64,
    e: Endpoints,
    eth2: Option<Seq<u8>>,
    peer: Option<Seq<char>>,
) -> Seq<Seq<char>> {
    header_lines(node, seq_no, e) + peer_lines(peer) + ip_lines(e) + port_lines(e) + eth2_lines(
        eth2,
    ) + multiaddr_lines(e)
}

fn labelled(label: &str, value: &str) -> (r: String)
    ensures
        r@ == label@ + value@,
{
    let mut s = String::from_str(label);
    s.append(value);
    s
}

fn push_port_line(out: &mut Vec<String>, label: &str, p: Option<u16>)
    ensures
        texts(final(out)@) == texts(old(out)@) + port_line(label@, p),
{
    if let Some(v) = p {
        let mut s = String::from_str(label);
        write_decimal(&mut s, v as u64);
        out.push(s);
    }
    assert(texts(final(out)@) =~= texts(old(out)@) + port_line(label@, p));
}

fn push_fork_id_lines(out: &mut Vec<String>, f: &EnrForkId)
    ensures
        texts(final(out)@) == texts(old(out)@) + fork_id_lines(*f),
{
    out.push(String::from_str("Eth2 Field:"));
    let d = to_hex(&f.fork_digest);
    out.push(labelled("\tFork digest: ", d.as_str()));
    let v = to_hex(&f.next_fork_version);
    out.push(labelled("\tNext fork version: ", v.as_str()));
    let mut s = String::from_str("\tNext fork epoch: ");
    write_decimal(&mut s, f.next_fork_epoch);
    out.push(s);
    let b = f.encode();
    let h = to_hex(b.as_slice());
    out.push(labelled("\tEncoded bytes: ", h.as_str()));
    assert(texts(final(out)@) =~= texts(old(out)@) + fork_id_lines(*f));
}

fn push_header(out: &mut Vec<String>, node: &NodeId, seq_no: u64, e: &Endpoints)
    ensures
        texts(final(out)@) == texts(old(out)@) + header_lines(node.raw@, seq_no, *e),
{
    out.push(String::from_str("ENR Read:"));
    let mut s = String::from_str("Sequence No:");
    write_decimal(&mut s, seq_no);
    out.push(s);
    let h = to_hex(node.raw.as_slice());
    out.push(labelled("NodeId: ", h.as_str()));
    let en = enode_id(node, e);
    out.push(labelled("EnodeId: ", en.as_str()));
    assert(texts(final(out)@) =~= texts(old(out)@) + header_lines(node.raw@, seq_no, *e));
}

fn push_peer(out: &mut Vec<String>, peer: &Option<String>)
    ensures
        texts(final(out)@) == texts(old(out)@) + peer_lines(opt_text(*peer)),
{
    if let Some(p) = peer {
        out.push(labelled("Libp2p PeerId: ", p.as_str()));
    }
    assert(texts(final(out)@) =~= texts(old(out)@) + peer_lines(opt_text(*peer)));
}

fn push_ips(out: &mut Vec<String>, e: &Endpoints)
    ensures
        texts(final(out)@) == texts(old(out)@) + ip_lines(*e),
{
    if let Some(o) = e.ip4 {
        let mut s = String::from_str("IP:");
        write_ip(&mut s, &IpAddress::V4(o));
        out.push(s);
    }
    if let Some(o) = e.ip6 {
        let mut s = String::from_str("IP6:");
        write_ip(&mut s, &IpAddress::V6(o));
        out.push(s);
    }
    assert(texts(final(out)@) =~= texts(old(out)@) + ip_lines(*e));
}

fn push_ports(out: &mut Vec<String>, e: &Endpoints)
    ensures
        texts(final(out)@) == texts(old(out)@) + port_lines(*e),
{
    push_port_line(out, "TCP Port:", e.tcp4);
    push_port_line(out, "TCP6 Port:", e.tcp6);
    push_port_line(out, "UDP Port:", e.udp4);
    push_port_line(out, "UDP6 Port:", e.udp6);
    push_port_line(out, "QUIC Port:", e.quic4);
    push_port_line(out, "QUIC6 Port:", e.quic6);
    assert(texts(final(out)@) =~= texts(old(out)@) + port_lines(*e));
}

fn push_eth2(out: &mut Vec<String>, rec: &Record)
    ensures
        texts(final(out)@) == texts(old(out)@) + eth2_lines(rec.spec_eth2()),
{
    if let Ok(f) = rec.eth2() {
        push_fork_id_lines(out, &f);
    } else {
        assert(texts(final(out)@) =~= texts(old(out)@) + eth2_lines(rec.spec_eth2()));
    }
}

fn push_multiaddrs(out: &mut Vec<String>, e: &Endpoints)
    ensures
        texts(final(out)@) == texts(old(out)@) + multiaddr_lines(*e),
{
    let addrs = multiaddr(e);
    if addrs.len() > 0 {
        out.push(String::from_str("Known multiaddrs:"));
        let mut lines = dial_addr_texts(&addrs, None);
        let ghost mid = out@;
        let ghost added = lines@;
        out.append(&mut lines);
        assert(texts(out@) =~= texts(mid) + texts(added));
        assert forall|i: int| 0 <= i < added.len() implies #[trigger] added[i]@ == dial_text(addrs@[i], None) by {
            assert(is_dial_text(addrs@[i], None, added[i]@));
        }
        assert(texts(added) =~= addrs@.map_values(|a| dial_text(a, None)));
    }
    assert(texts(final(out)@) =~= texts(old(out)@) + multiaddr_lines(*e));
}

/// The report lines of a record, with the peer identifier text given.
pub fn report_lines_with(rec: &Record, peer: Option<String>) -> (r: Vec<String>)
    ensures
        texts(r@) == report(
            node_id_of(rec.spec_public_key()),
            rec.spec_seq(),
            rec.spec_endpoints(),
            rec.spec_eth2(),
            opt_text(peer),
        ),
{
    let e = rec.endpoints();
    let node = rec.node_id();
    let mut out: Vec<String> = Vec::new();
    push_header(&mut out, &node, rec.seq(), &e);
    push_peer(&mut out, &peer);
    push_ips(&mut out, &e);
    push_ports(&mut out, &e);
    push_eth2(&mut out, rec);
    push_multiaddrs(&mut out, &e);
    assert(texts(Seq::<String>::empty()) =~= Seq::<Seq<char>>::empty());
    assert(Seq::<Seq<char>>::empty() + header_lines(node.raw@, rec.spec_seq(), e) =~= header_lines(node.raw@, rec.spec_seq(), e));
    out
}

/// The report on a record, with the base58 text of its peer identifier.
pub open spec fn report_of(rec: Record) -> Seq<Seq<char>> {
    report(
        node_id_of(rec.spec_public_key()),
        rec.spec_seq(),
        rec.spec_endpoints(),
        rec.spec_eth2(),
        Some(base58_text(peer_id_of(rec.spec_public_key()))),
    )
}

/// The report lines of a record, with the base58 text of its peer identifier.
pub fn report_lines(rec: &Record) -> (r: Vec<String>)
    ensures
        texts(r@) == report_of(*rec),
{
    let p = peer_id(rec.public_key());
    let peer = peer_id_text(&p);
    report_lines_with(rec, peer)
}

} // verus!
