use vstd::prelude::*;
use crate::error::{EnrError, Field};
use crate::fork_id::{decode_fork_id, EnrForkId, BITFIELD_ENR_KEY, ETH2_ENR_KEY};
use crate::identity::{node_id, node_id_of, NodeId};
use crate::keys::{combined_key, ed25519_valid_point, secp256k1_decompressed, KeyMaterial, KeyScheme, PublicKey};
use enr::EnrPublicKey;

verus! {

/// The record key of the IPv4 QUIC port.
pub const QUIC_ENR_KEY: &'static str = "quic";

/// The record key of the IPv6 QUIC port.
pub const QUIC6_ENR_KEY: &'static str = "quic6";

/// The record key of the IPv4 TCP port.
pub const TCP_ENR_KEY: &'static str = "tcp";

/// The record key of the IPv6 TCP port.
pub const TCP6_ENR_KEY: &'static str = "tcp6";

/// The record key of the IPv4 UDP port.
pub const UDP_ENR_KEY: &'static str = "udp";

/// The record key of the IPv6 UDP port.
pub const UDP6_ENR_KEY: &'static str = "udp6";

/// The sequence number a record gets when none is given.
pub const DEFAULT_SEQ: u64 = 1;

/// The reachability fields of a record: addresses and ports, each optional.
#[derive(Clone, Copy, Debug, PartialEq, Eq)]
pub struct Endpoints {
    pub ip4: Option<[u8; 4]>,
    pub ip6: Option<[u8; 16]>,
    pub tcp4: Option<u16>,
    pub tcp6: Option<u16>,
    pub udp4: Option<u16>,
    pub udp6: Option<u16>,
    pub quic4: Option<u16>,
    pub quic6: Option<u16>,
}

impl Endpoints {
    /// No address and no port.
    pub fn empty() -> (r: Endpoints)
        ensures
            r.ip4 is None && r.ip6 is None,
            r.tcp4 is None && r.tcp6 is None && r.udp4 is None && r.udp6 is None,
            r.quic4 is None && r.quic6 is None,
    {
        Endpoints {
            ip4: None,
            ip6: None,
            tcp4: None,
            tcp6: None,
            udp4: None,
            udp6: None,
            quic4: None,
            quic6: None,
        }
    }
}

/// What a record is built from.
#[derive(Clone, Debug)]
pub struct RecordFields {
    pub seq: Option<u64>,
    pub endpoints: Endpoints,
    /// The raw eth2 extension value; it must decode as an [`EnrForkId`].
    pub eth2: Option<Vec<u8>>,
}

/// A signed record: its fields, its signer's public key, and its transport text.
#[derive(Debug)]
pub struct Record {
    seq: u64,
    endpoints: Endpoints,
    eth2: Option<Vec<u8>>,
    attnets: Option<Vec<u8>>,
    public_key: PublicKey,
    text: String,
}

/// The bytes an optional byte vector holds.
pub open spec fn opt_bytes(v: Option<Vec<u8>>) -> Option<Seq<u8>> {
    match v {
        Some(b) => Some(b@),
        None => None,
    }
}

/// A record under construction, held by the record library.
#[verifier::external_body]
pub struct Draft {
    inner: enr::Builder<enr::CombinedKey>,
}

/// A signed, verified record of the record library.
#[verifier::external_body]
pub struct Sealed {
    inner: enr::Enr<enr::CombinedKey>,
}

/// What a draft holds: each key with its RLP-encoded value.
pub uninterp spec fn draft_content(d: Draft) -> Map<Seq<char>, Seq<u8>>;

/// The sequence number a draft will be signed with.
pub uninterp spec fn draft_seq_no(d: Draft) -> u64;

/// What a signed record holds: each key with its RLP-encoded value.
pub uninterp spec fn sealed_content(s: Sealed) -> Map<Seq<char>, Seq<u8>>;

/// The sequence number of a signed record.
pub uninterp spec fn sealed_seq_no(s: Sealed) -> u64;

/// The transport text (`enr:` and base64url) of a signed record.
pub uninterp spec fn sealed_text_of(s: Sealed) -> Seq<char>;

/// The error that reading a transport string gives, None where it is accepted.
pub uninterp spec fn enr_text_error(t: Seq<char>) -> Option<EnrError>;

pub open spec fn ip_key() -> Seq<char> {
    seq!['i','p']
}

pub open spec fn ip6_key() -> Seq<char> {
    seq!['i','p','6']
}

pub open spec fn eth2_key() -> Seq<char> {
    seq!['e','t','h','2']
}

pub open spec fn attnets_key() -> Seq<char> {
    seq!['a','t','t','n','e','t','s']
}

pub open spec fn id_key() -> Seq<char> {
    seq!['i','d']
}

pub open spec fn secp256k1_key() -> Seq<char> {
    seq!['s','e','c','p','2','5','6','k','1']
}

pub open spec fn ed25519_key() -> Seq<char> {
    seq!['e','d','2','5','5','1','9']
}

pub open spec fn tcp_key() -> Seq<char> {
    seq!['t','c','p']
}

pub open spec fn tcp6_key() -> Seq<char> {
    seq!['t','c','p','6']
}

pub open spec fn udp_key() -> Seq<char> {
    seq!['u','d','p']
}

pub open spec fn udp6_key() -> Seq<char> {
    seq!['u','d','p','6']
}

pub open spec fn quic_key() -> Seq<char> {
    seq!['q','u','i','c']
}

pub open spec fn quic6_key() -> Seq<char> {
    seq!['q','u','i','c','6']
}

/// The minimal big-endian bytes of `n`; none for zero.
pub open spec fn min_be(n: nat) -> Seq<u8>
    decreases n,
{
    if n == 0 {
        Seq::empty()
    } else {
        min_be(n / 256).push((n % 256) as u8)
    }
}

/// The RLP encoding of a byte string.
pub open spec fn rlp_string(b: Seq<u8>) -> Seq<u8> {
    if b.len() == 1 && b[0] < 0x80 {
        b
    } else if b.len() <= 55 {
        seq![(0x80 + b.len()) as u8] + b
    } else {
        seq![(0xb7 + min_be(b.len()).len()) as u8] + min_be(b.len()) + b
    }
}

/// The RLP encoding of an integer: the string of its minimal big-endian bytes.
pub open spec fn rlp_u16(n: u16) -> Seq<u8> {
    rlp_string(min_be(n as nat))
}

/// The integer stored under `k`, where the value there encodes one.
pub open spec fn port_field(c: Map<Seq<char>, Seq<u8>>, k: Seq<char>) -> Option<u16> {
    if c.contains_key(k) && exists|n: u16| c[k] == rlp_u16(n) {
        Some(choose|n: u16| c[k] == rlp_u16(n))
    } else {
        None
    }
}

/// The byte string stored under `k`, where the value there encodes one.
pub open spec fn bytes_field(c: Map<Seq<char>, Seq<u8>>, k: Seq<char>) -> Option<Seq<u8>> {
    if c.contains_key(k) && exists|b: Seq<u8>| c[k] == rlp_string(b) {
        Some(choose|b: Seq<u8>| c[k] == rlp_string(b))
    } else {
        None
    }
}

/// The IPv4 address stored under `ip`: a 4-byte string.
pub open spec fn ip4_field(c: Map<Seq<char>, Seq<u8>>) -> Option<[u8; 4]> {
    match bytes_field(c, ip_key()) {
        Some(b) => if b.len() == 4 {
            Some([b[0], b[1], b[2], b[3]])
        } else {
            None
        },
        None => None,
    }
}

/// The IPv6 address stored under `ip6`: a 16-byte string.
pub open spec fn ip6_field(c: Map<Seq<char>, Seq<u8>>) -> Option<[u8; 16]> {
    match bytes_field(c, ip6_key()) {
        Some(b) => if b.len() == 16 {
            Some(
                [
                    b[0], b[1], b[2], b[3], b[4], b[5], b[6], b[7], b[8], b[9], b[10], b[11],
                    b[12], b[13], b[14], b[15],
                ],
            )
        } else {
            None
        },
        None => None,
    }
}

/// The addresses and ports a record's content holds.
pub open spec fn endpoints_field(c: Map<Seq<char>, Seq<u8>>) -> Endpoints {
    Endpoints {
        ip4: ip4_field(c),
        ip6: ip6_field(c),
        tcp4: port_field(c, tcp_key()),
        tcp6: port_field(c, tcp6_key()),
        udp4: port_field(c, udp_key()),
        udp6: port_field(c, udp6_key()),
        quic4: port_field(c, quic_key()),
        quic6: port_field(c, quic6_key()),
    }
}

/// The public key a record's content names: its `secp256k1` entry where that
/// is a compressed point, else its `ed25519` entry where that is a valid point.
pub open spec fn names_key(c: Map<Seq<char>, Seq<u8>>, pk: PublicKey) -> bool {
    let secp = bytes_field(c, secp256k1_key());
    let ed = bytes_field(c, ed25519_key());
    &&& (secp is Some && secp->0.len() == 33 && secp256k1_decompressed(secp->0) is Some)
        ==> (pk.scheme == KeyScheme::Secp256k1 && pk.bytes@ == secp->0)
    &&& (secp is None && ed is Some && ed->0.len() == 32 && ed25519_valid_point(ed->0))
        ==> (pk.scheme == KeyScheme::Ed25519 && pk.bytes@ == ed->0)
}

pub open spec fn put_port(c: Map<Seq<char>, Seq<u8>>, k: Seq<char>, p: Option<u16>) -> Map<Seq<char>, Seq<u8>> {
    match p {
        Some(v) => c.insert(k, rlp_u16(v)),
        None => c,
    }
}

pub open spec fn put_bytes(c: Map<Seq<char>, Seq<u8>>, k: Seq<char>, b: Option<Seq<u8>>) -> Map<Seq<char>, Seq<u8>> {
    match b {
        Some(v) => c.insert(k, rlp_string(v)),
        None => c,
    }
}

pub open spec fn ip4_bytes(e: Endpoints) -> Option<Seq<u8>> {
    match e.ip4 {
        Some(o) => Some(o@),
        None => None,
    }
}

pub open spec fn ip6_bytes(e: Endpoints) -> Option<Seq<u8>> {
    match e.ip6 {
        Some(o) => Some(o@),
        None => None,
    }
}

/// The port entries of `e` added to `c`.
pub open spec fn put_ports(c: Map<Seq<char>, Seq<u8>>, e: Endpoints) -> Map<Seq<char>, Seq<u8>> {
    let c = put_port(c, tcp_key(), e.tcp4);
    let c = put_port(c, tcp6_key(), e.tcp6);
    let c = put_port(c, udp_key(), e.udp4);
    let c = put_port(c, udp6_key(), e.udp6);
    let c = put_port(c, quic_key(), e.quic4);
    put_port(c, quic6_key(), e.quic6)
}

/// What a draft built from `fields` holds before signing.
pub open spec fn fields_content(fields: RecordFields) -> Map<Seq<char>, Seq<u8>> {
    let e = fields.endpoints;
    let c = put_bytes(Map::empty(), ip_key(), ip4_bytes(e));
    let c = put_bytes(c, ip6_key(), ip6_bytes(e));
    put_bytes(put_ports(c, e), eth2_key(), opt_bytes(fields.eth2))
}

/// The RLP encoding of the identity scheme name `v4`.
pub open spec fn v4_id() -> Seq<u8> {
    rlp_string(seq![0x76u8, 0x34u8])
}

/// The record key under which a scheme's public key is stored.
pub open spec fn scheme_key(s: KeyScheme) -> Seq<char> {
    match s {
        KeyScheme::Secp256k1 => secp256k1_key(),
        KeyScheme::Ed25519 => ed25519_key(),
    }
}

/// What signing a draft of content `c` adds: the identity scheme and the public key.
pub open spec fn signed_content(c: Map<Seq<char>, Seq<u8>>, s: KeyScheme, pk: Seq<u8>) -> Map<Seq<char>, Seq<u8>> {
    c.insert(id_key(), v4_id()).insert(scheme_key(s), rlp_string(pk))
}

/// Relies on `enr::Builder::default`: the v4 identity scheme, sequence number 1,
/// no entries.
#[verifier::external_body]
fn new_draft() -> (r: Draft)
    ensures
        draft_content(r).dom() == Set::<Seq<char>>::empty(),
        draft_seq_no(r) == DEFAULT_SEQ,
{
    Draft { inner: enr::Builder::default() }
}

/// Relies on `enr::Builder::seq`.
#[verifier::external_body]
fn draft_seq(d: &mut Draft, seq: u64)
    ensures
        draft_content(*final(d)) == draft_content(*old(d)),
        draft_seq_no(*final(d)) == seq,
{
    d.inner.seq(seq);
}

/// Relies on `enr::Builder::ip4`: the octets as a byte string under `ip`.
#[verifier::external_body]
fn draft_ip4(d: &mut Draft, ip: [u8; 4])
    ensures
        draft_content(*final(d)) == draft_content(*old(d)).insert(ip_key(), rlp_string(ip@)),
        draft_seq_no(*final(d)) == draft_seq_no(*old(d)),
{
    d.inner.ip4(ip.into());
}

/// Relies on `enr::Builder::ip6`: the octets as a byte string under `ip6`.
#[verifier::external_body]
fn draft_ip6(d: &mut Draft, ip: [u8; 16])
    ensures
        draft_content(*final(d)) == draft_content(*old(d)).insert(ip6_key(), rlp_string(ip@)),
        draft_seq_no(*final(d)) == draft_seq_no(*old(d)),
{
    d.inner.ip6(ip.into());
}

/// Relies on `enr::Builder::add_value` with a byte string under `eth2`.
#[verifier::external_body]
fn draft_eth2(d: &mut Draft, value: &[u8])
    ensures
        draft_content(*final(d)) == draft_content(*old(d)).insert(eth2_key(), rlp_string(value@)),
        draft_seq_no(*final(d)) == draft_seq_no(*old(d)),
{
    d.inner.add_value(ETH2_ENR_KEY, &value);
}

/// Relies on `enr::Builder::tcp4`: the port as an integer under `tcp`.
#[verifier::external_body]
fn draft_tcp4(d: &mut Draft, port: u16)
    ensures
        draft_content(*final(d)) == draft_content(*old(d)).insert(tcp_key(), rlp_u16(port)),
        draft_seq_no(*final(d)) == draft_seq_no(*old(d)),
{
    d.inner.tcp4(port);
}

/// Relies on `enr::Builder::tcp6`: the port as an integer under `tcp6`.
#[verifier::external_body]
fn draft_tcp6(d: &mut Draft, port: u16)
    ensures
        draft_content(*final(d)) == draft_content(*old(d)).insert(tcp6_key(), rlp_u16(port)),
        draft_seq_no(*final(d)) == draft_seq_no(*old(d)),
{
    d.inner.tcp6(port);
}

/// Relies on `enr::Builder::udp4`: the port as an integer under `udp`.
#[verifier::external_body]
fn draft_udp4(d: &mut Draft, port: u16)
    ensures
        draft_content(*final(d)) == draft_content(*old(d)).insert(udp_key(), rlp_u16(port)),
        draft_seq_no(*final(d)) == draft_seq_no(*old(d)),
{
    d.inner.udp4(port);
}

/// Relies on `enr::Builder::udp6`: the port as an integer under `udp6`.
#[verifier::external_body]
fn draft_udp6(d: &mut Draft, port: u16)
    ensures
        draft_content(*final(d)) == draft_content(*old(d)).insert(udp6_key(), rlp_u16(port)),
        draft_seq_no(*final(d)) == draft_seq_no(*old(d)),
{
    d.inner.udp6(port);
}

/// Relies on `enr::Builder::add_value` with an integer: the port as an integer under `quic`.
#[verifier::external_body]
fn draft_quic4(d: &mut Draft, port: u16)
    ensures
        draft_content(*final(d)) == draft_content(*old(d)).insert(quic_key(), rlp_u16(port)),
        draft_seq_no(*final(d)) == draft_seq_no(*old(d)),
{
    d.inner.add_value(QUIC_ENR_KEY, &port);
}

/// Relies on `enr::Builder::add_value` with an integer: the port as an integer under `quic6`.
#[verifier::external_body]
fn draft_quic6(d: &mut Draft, port: u16)
    ensures
        draft_content(*final(d)) == draft_content(*old(d)).insert(quic6_key(), rlp_u16(port)),
        draft_seq_no(*final(d)) == draft_seq_no(*old(d)),
{
    d.inner.add_value(QUIC6_ENR_KEY, &port);
}

/// Relies on `enr::Builder::build`: it adds the identity scheme `v4` under `id`
/// and the signer's encoded public key under its scheme's name, signs, and
/// refuses a record over the size limit (`ExceedsMaxSize`); its other errors are
/// signing failures.
#[verifier::external_body]
fn seal(d: &mut Draft, key: &KeyMaterial) -> (r: Result<Sealed, EnrError>)
    requires
        key.wf(),
    ensures
        r is Ok ==> sealed_content(r->Ok_0) == signed_content(
            draft_content(*old(d)),
            key.spec_scheme(),
            key.spec_public(),
        ),
        r is Ok ==> sealed_seq_no(r->Ok_0) == draft_seq_no(*old(d)),
        r is Err ==> r->Err_0 == EnrError::RecordTooLarge || r->Err_0 == EnrError::SigningFailed,
{
    match d.inner.build(&combined_key(key)) {
        Ok(inner) => Ok(Sealed { inner }),
        Err(enr::Error::ExceedsMaxSize) => Err(EnrError::RecordTooLarge),
        Err(_) => Err(EnrError::SigningFailed),
    }
}

/// Relies on `Enr::to_base64`: `enr:` and the base64url text of the signed encoding.
#[verifier::external_body]
fn sealed_text(s: &Sealed) -> (r: String)
    ensures
        r@ == sealed_text_of(*s),
{
    s.inner.to_base64()
}

/// Relies on `Enr::from_str`, which verifies the signature before it returns a
/// record, and whose outcome is a function of the text. Its error text tells
/// bad base64 (and a string too short to hold a record), an encoding over the
/// size limit, a bad signature, and other malformed content apart. The text of
/// a signed record (with or without `enr:`) decodes to that record: the
/// entries are stored in their canonical encoding, which decoding keeps.
#[verifier::external_body]
fn decode_text(t: &str) -> (r: Result<Sealed, EnrError>)
    ensures
        r is Ok <==> enr_text_error(t@) is None,
        r is Err ==> enr_text_error(t@) == Some(r->Err_0) && is_decode_error(r->Err_0),
        forall|s: Sealed|
            (#[trigger] sealed_text_of(s) == t@ || sealed_text_of(s) == "enr:"@ + t@) ==> {
                &&& r is Ok
                &&& sealed_content(r->Ok_0) == sealed_content(s)
                &&& sealed_seq_no(r->Ok_0) == sealed_seq_no(s)
                &&& sealed_text_of(r->Ok_0) == sealed_text_of(s)
            },
{
    match t.parse::<enr::Enr<enr::CombinedKey>>() {
        Ok(inner) => Ok(Sealed { inner }),
        Err(e) if e.starts_with("Invalid base64") || e == "Invalid ENR string" => Err(
            EnrError::MalformedEncoding,
        ),
        Err(e) if e.contains("enr exceeds max size") => Err(EnrError::RecordTooLarge),
        Err(e) if e.contains("Invalid Signature") => Err(EnrError::SignatureInvalid),
        Err(_) => Err(EnrError::MalformedRecord),
    }
}

/// Relies on `Enr::seq`.
#[verifier::external_body]
fn sealed_seq(s: &Sealed) -> (r: u64)
    ensures
        r == sealed_seq_no(*s),
{
    s.inner.seq()
}

/// Relies on `Enr::ip4`: a 4-byte string under `ip`.
#[verifier::external_body]
fn sealed_ip4(s: &Sealed) -> (r: Option<[u8; 4]>)
    ensures
        r == ip4_field(sealed_content(*s)),
{
    s.inner.ip4().map(|ip| ip.octets())
}

/// Relies on `Enr::ip6`: a 16-byte string under `ip6`.
#[verifier::external_body]
fn sealed_ip6(s: &Sealed) -> (r: Option<[u8; 16]>)
    ensures
        r == ip6_field(sealed_content(*s)),
{
    s.inner.ip6().map(|ip| ip.octets())
}

/// Relies on `Enr::get_decodable` of a byte string under `eth2`.
#[verifier::external_body]
fn sealed_eth2(s: &Sealed) -> (r: Option<Vec<u8>>)
    ensures
        opt_bytes(r) == bytes_field(sealed_content(*s), eth2_key()),
{
    s.inner.get_decodable::<bytes::Bytes>(ETH2_ENR_KEY).and_then(Result::ok).map(|b| b.to_vec())
}

/// Relies on `Enr::get_decodable` of a byte string under `attnets`.
#[verifier::external_body]
fn sealed_attnets(s: &Sealed) -> (r: Option<Vec<u8>>)
    ensures
        opt_bytes(r) == bytes_field(sealed_content(*s), attnets_key()),
{
    s.inner.get_decodable::<bytes::Bytes>(BITFIELD_ENR_KEY).and_then(Result::ok).map(|b| b.to_vec())
}

/// Relies on `Enr::tcp4`: an integer under `tcp`.
#[verifier::external_body]
fn sealed_tcp4(s: &Sealed) -> (r: Option<u16>)
    ensures
        r == port_field(sealed_content(*s), tcp_key()),
{
    s.inner.tcp4()
}

/// Relies on `Enr::tcp6`: an integer under `tcp6`.
#[verifier::external_body]
fn sealed_tcp6(s: &Sealed) -> (r: Option<u16>)
    ensures
        r == port_field(sealed_content(*s), tcp6_key()),
{
    s.inner.tcp6()
}

/// Relies on `Enr::udp4`: an integer under `udp`.
#[verifier::external_body]
fn sealed_udp4(s: &Sealed) -> (r: Option<u16>)
    ensures
        r == port_field(sealed_content(*s), udp_key()),
{
    s.inner.udp4()
}

/// Relies on `Enr::udp6`: an integer under `udp6`.
#[verifier::external_body]
fn sealed_udp6(s: &Sealed) -> (r: Option<u16>)
    ensures
        r == port_field(sealed_content(*s), udp6_key()),
{
    s.inner.udp6()
}

/// Relies on `Enr::get_decodable` of an integer: an integer under `quic`.
#[verifier::external_body]
fn sealed_quic4(s: &Sealed) -> (r: Option<u16>)
    ensures
        r == port_field(sealed_content(*s), quic_key()),
{
    s.inner.get_decodable::<u16>(QUIC_ENR_KEY).and_then(Result::ok)
}

/// Relies on `Enr::get_decodable` of an integer: an integer under `quic6`.
#[verifier::external_body]
fn sealed_quic6(s: &Sealed) -> (r: Option<u16>)
    ensures
        r == port_field(sealed_content(*s), quic6_key()),
{
    s.inner.get_decodable::<u16>(QUIC6_ENR_KEY).and_then(Result::ok)
}

/// Relies on `Enr::public_key` and `EnrPublicKey::encode`: the key under
/// `secp256k1` (compressed, 33 bytes, a point that decompresses), else the key
/// under `ed25519` (32 bytes, a valid point).
#[verifier::external_body]
fn sealed_public_key(s: &Sealed) -> (r: PublicKey)
    ensures
        r.wf(),
        names_key(sealed_content(*s), r),
{
    let pk = s.inner.public_key();
    match pk {
        enr::CombinedPublicKey::Secp256k1(_) => PublicKey {
            scheme: KeyScheme::Secp256k1,
            bytes: pk.encode(),
        },
        enr::CombinedPublicKey::Ed25519(_) => PublicKey {
            scheme: KeyScheme::Ed25519,
            bytes: pk.encode(),
        },
    }
}

/// The failures of reading a transport string.
pub open spec fn is_decode_error(e: EnrError) -> bool {
    ||| e == EnrError::MalformedEncoding
    ||| e == EnrError::RecordTooLarge
    ||| e == EnrError::MalformedRecord
    ||| e == EnrError::SignatureInvalid
}

/// Whether the eth2 value of `fields`, if any, decodes.
pub open spec fn eth2_valid(fields: RecordFields) -> bool {
    match fields.eth2 {
        Some(v) => decode_fork_id(v@) is Ok,
        None => true,
    }
}

/// The sequence number a record built from `fields` carries.
pub open spec fn built_seq(fields: RecordFields) -> u64 {
    match fields.seq {
        Some(s) => s,
        None => DEFAULT_SEQ,
    }
}

/// A record reads signed record `s`: its text is the text of `s`, and each
/// field is what the content of `s` holds.
pub open spec fn record_reads(rec: Record, s: Sealed) -> bool {
    let c = sealed_content(s);
    &&& rec.spec_text() == sealed_text_of(s)
    &&& rec.spec_seq() == sealed_seq_no(s)
    &&& rec.spec_endpoints() == endpoints_field(c)
    &&& rec.spec_eth2() == bytes_field(c, eth2_key())
    &&& rec.spec_attnets() == bytes_field(c, attnets_key())
    &&& names_key(c, rec.spec_public_key())
}

fn clone_bytes(v: &Vec<u8>) -> (r: Vec<u8>)
    ensures
        r@ == v@,
{
    let mut r: Vec<u8> = Vec::new();
    let mut i: usize = 0;
    while i < v.len()
        invariant
            i <= v@.len(),
            r@ == v@.subrange(0, i as int),
        decreases v@.len() - i,
    {
        r.push(v[i]);
        i = i + 1;
        assert(r@ =~= v@.subrange(0, i as int));
    }
    assert(r@ =~= v@);
    r
}

fn clone_opt_bytes(v: &Option<Vec<u8>>) -> (r: Option<Vec<u8>>)
    ensures
        opt_bytes(r) == opt_bytes(*v),
{
    match v {
        Some(b) => Some(clone_bytes(b)),
        None => None,
    }
}

proof fn lemma_rlp_u16_injective(a: u16, b: u16)
    ensures
        rlp_u16(a) == rlp_u16(b) ==> a == b,
{
    reveal_with_fuel(min_be, 3);
    if rlp_u16(a) == rlp_u16(b) {
        let (x, y) = (rlp_u16(a), rlp_u16(b));
        assert(x.len() == y.len());
        if a as nat >= 256 {
            assert(x[1] == y[1] && x[2] == y[2]);
        } else if a >= 0x80 {
            assert(x[1] == y[1]);
        } else if a > 0 {
            assert(x[0] == y[0]);
        } else {
            assert(x[0] == y[0]);
        }
    }
}

proof fn lemma_rlp_string_injective(a: Seq<u8>, b: Seq<u8>)
    requires
        a.len() <= 55,
    ensures
        rlp_string(a) == rlp_string(b) ==> a == b,
{
    if rlp_string(a) == rlp_string(b) {
        let x = rlp_string(a);
        if b.len() > 55 {
            assert(x.len() > 56);
        } else if a.len() == 1 && a[0] < 0x80 {
            assert(x[0] == rlp_string(b)[0]);
            assert(b =~= a);
        } else if b.len() == 1 && b[0] < 0x80 {
            assert(x[0] == rlp_string(b)[0]);
        } else {
            assert(x[0] == rlp_string(b)[0]);
            assert(a =~= x.drop_first());
            assert(b =~= rlp_string(b).drop_first());
        }
    }
}

proof fn lemma_port_field(c: Map<Seq<char>, Seq<u8>>, k: Seq<char>, p: Option<u16>)
    requires
        p matches Some(v) ==> c.contains_key(k) && c[k] == rlp_u16(v),
        p is None ==> !c.contains_key(k),
    ensures
        port_field(c, k) == p,
{
    if let Some(v) = p {
        let n = choose|n: u16| c[k] == rlp_u16(n);
        lemma_rlp_u16_injective(n, v);
    }
}

proof fn lemma_bytes_field(c: Map<Seq<char>, Seq<u8>>, k: Seq<char>, b: Option<Seq<u8>>)
    requires
        b matches Some(v) ==> c.contains_key(k) && c[k] == rlp_string(v) && v.len() <= 55,
        b is None ==> !c.contains_key(k),
    ensures
        bytes_field(c, k) == b,
{
    if let Some(v) = b {
        let w = choose|w: Seq<u8>| c[k] == rlp_string(w);
        lemma_rlp_string_injective(v, w);
    }
}

proof fn lemma_keys_distinct()
    ensures
        ip_key() != id_key(),
        ip6_key() != tcp_key() && ip6_key() != udp_key() && tcp_key() != udp_key(),
        tcp6_key() != udp6_key() && tcp6_key() != quic_key() && tcp6_key() != eth2_key(),
        udp6_key() != quic_key() && udp6_key() != eth2_key() && quic_key() != eth2_key(),
        attnets_key() != ed25519_key(),
        ip_key().len() == 2 && id_key().len() == 2,
        ip6_key().len() == 3 && tcp_key().len() == 3 && udp_key().len() == 3,
        tcp6_key().len() == 4 && udp6_key().len() == 4 && quic_key().len() == 4 && eth2_key().len() == 4,
        quic6_key().len() == 5 && attnets_key().len() == 7 && ed25519_key().len() == 7,
        secp256k1_key().len() == 9,
{
    assert(ip_key()[1] != id_key()[1]);
    assert(ip6_key()[0] != tcp_key()[0] && ip6_key()[0] != udp_key()[0] && tcp_key()[0] != udp_key()[0]);
    assert(tcp6_key()[0] != udp6_key()[0] && tcp6_key()[0] != quic_key()[0] && tcp6_key()[0] != eth2_key()[0]);
    assert(udp6_key()[0] != quic_key()[0] && udp6_key()[0] != eth2_key()[0] && quic_key()[0] != eth2_key()[0]);
    assert(attnets_key()[0] != ed25519_key()[0]);
}

/// The content of a record built from `fields` reads back as those fields.
proof fn lemma_built_content_reads(fields: RecordFields, pk: PublicKey)
    requires
        pk.wf(),
        fields.eth2 matches Some(v) ==> v@.len() <= 55,
    ensures
        ({
            let c = signed_content(fields_content(fields), pk.scheme, pk.bytes@);
            &&& endpoints_field(c) == fields.endpoints
            &&& bytes_field(c, eth2_key()) == opt_bytes(fields.eth2)
            &&& bytes_field(c, attnets_key()) is None
            &&& names_key(c, pk)
        }),
{
    broadcast use vstd::array::group_array_axioms;
    lemma_keys_distinct();
    let e = fields.endpoints;
    let c = signed_content(fields_content(fields), pk.scheme, pk.bytes@);
    lemma_bytes_field(c, ip_key(), ip4_bytes(e));
    lemma_bytes_field(c, ip6_key(), ip6_bytes(e));
    lemma_port_field(c, tcp_key(), e.tcp4);
    lemma_port_field(c, tcp6_key(), e.tcp6);
    lemma_port_field(c, udp_key(), e.udp4);
    lemma_port_field(c, udp6_key(), e.udp6);
    lemma_port_field(c, quic_key(), e.quic4);
    lemma_port_field(c, quic6_key(), e.quic6);
    lemma_bytes_field(c, eth2_key(), opt_bytes(fields.eth2));
    lemma_bytes_field(c, attnets_key(), None);
    if let Some(o) = e.ip4 {
        assert(ip4_field(c)->0 =~= o);
    }
    if let Some(o) = e.ip6 {
        assert(ip6_field(c)->0 =~= o);
    }
    match pk.scheme {
        KeyScheme::Secp256k1 => lemma_bytes_field(c, secp256k1_key(), Some(pk.bytes@)),
        KeyScheme::Ed25519 => {
            lemma_bytes_field(c, secp256k1_key(), None);
            lemma_bytes_field(c, ed25519_key(), Some(pk.bytes@));
        },
    }
}

fn fill_ports(d: &mut Draft, e: &Endpoints)
    ensures
        draft_content(*final(d)) == put_ports(draft_content(*old(d)), *e),
        draft_seq_no(*final(d)) == draft_seq_no(*old(d)),
{
    if let Some(p) = e.tcp4 {
        draft_tcp4(d, p);
    }
    if let Some(p) = e.tcp6 {
        draft_tcp6(d, p);
    }
    if let Some(p) = e.udp4 {
        draft_udp4(d, p);
    }
    if let Some(p) = e.udp6 {
        draft_udp6(d, p);
    }
    if let Some(p) = e.quic4 {
        draft_quic4(d, p);
    }
    if let Some(p) = e.quic6 {
        draft_quic6(d, p);
    }
}

/// A draft holding the fields' entries and sequence number.
fn fill_draft(fields: &RecordFields) -> (d: Draft)
    ensures
        draft_content(d) == fields_content(*fields),
        draft_seq_no(d) == built_seq(*fields),
{
    let mut d = new_draft();
    assert(draft_content(d) == Map::<Seq<char>, Seq<u8>>::empty());
    if let Some(s) = fields.seq {
        draft_seq(&mut d, s);
    }
    let e = &fields.endpoints;
    if let Some(ip) = e.ip4 {
        draft_ip4(&mut d, ip);
    }
    if let Some(ip) = e.ip6 {
        draft_ip6(&mut d, ip);
    }
    fill_ports(&mut d, e);
    if let Some(v) = &fields.eth2 {
        draft_eth2(&mut d, v.as_slice());
    }
    d
}

/// Builds and signs a record. The eth2 value must decode as a fork identifier
/// (else `FieldValidationError(Eth2)`); the record library signs, and refuses a
/// record over the size limit with `RecordTooLarge`.
pub fn build(fields: &RecordFields, key: &KeyMaterial) -> (r: Result<Record, EnrError>)
    ensures
        !eth2_valid(*fields) <==> r == Err::<Record, EnrError>(
            EnrError::FieldValidationError(Field::Eth2)),
        r is Err ==> r->Err_0 == EnrError::FieldValidationError(Field::Eth2) || r->Err_0
            == EnrError::RecordTooLarge || r->Err_0 == EnrError::SigningFailed,
        r is Ok ==> {
            let rec = r->Ok_0;
            &&& rec.spec_seq() == built_seq(*fields)
            &&& rec.spec_endpoints() == fields.endpoints
            &&& rec.spec_eth2() == opt_bytes(fields.eth2)
            &&& rec.spec_eth2() is Some ==> decode_fork_id(rec.spec_eth2()->0) is Ok
            &&& rec.spec_attnets() is None
            &&& rec.spec_public_key().scheme == key.spec_scheme()
            &&& rec.spec_public_key().bytes@ == key.spec_public()
            &&& exists|s: Sealed|
                {
                    &&& record_reads(rec, s)
                    &&& #[trigger] sealed_content(s) == signed_content(
                        fields_content(*fields),
                        key.spec_scheme(),
                        key.spec_public(),
                    )
                }
        },
{
    if let Some(v) = &fields.eth2 {
        if EnrForkId::decode(v.as_slice()).is_err() {
            return Err(EnrError::FieldValidationError(Field::Eth2));
        }
    }
    let mut d = fill_draft(fields);
    let pk = key.public_key();
    let signed = seal(&mut d, key);
    match signed {
        Ok(s) => {
            proof {
                lemma_built_content_reads(*fields, pk);
            }
            let seq = sealed_seq(&s);
            let eth2 = clone_opt_bytes(&fields.eth2);
            let text = sealed_text(&s);
            let endpoints = fields.endpoints;
            assert(record_reads(
                Record { seq, endpoints, eth2, attnets: None, public_key: pk, text },
                s,
            ));
            Ok(Record { seq, endpoints, eth2, attnets: None, public_key: pk, text })
        },
        Err(e) => Err(e),
    }
}

/// Parses a transport string (with or without the `enr:` prefix). The signature
/// is always verified: a record is returned only if it holds. The text of any
/// signed record parses back to a record with the same text and fields.
pub fn parse(text: &str) -> (r: Result<Record, EnrError>)
    ensures
        r is Ok <==> enr_text_error(text@) is None,
        r is Err ==> enr_text_error(text@) == Some(r->Err_0) && is_decode_error(r->Err_0),
        r is Ok ==> exists|s: Sealed| #[trigger] record_reads(r->Ok_0, s),
        forall|s: Sealed|
            (#[trigger] sealed_text_of(s) == text@ || sealed_text_of(s) == "enr:"@ + text@) ==> r is Ok
                && record_reads(r->Ok_0, s),
{
    let s = match decode_text(text) {
        Ok(s) => s,
        Err(e) => return Err(e),
    };
    let endpoints = Endpoints {
        ip4: sealed_ip4(&s),
        ip6: sealed_ip6(&s),
        tcp4: sealed_tcp4(&s),
        tcp6: sealed_tcp6(&s),
        udp4: sealed_udp4(&s),
        udp6: sealed_udp6(&s),
        quic4: sealed_quic4(&s),
        quic6: sealed_quic6(&s),
    };
    let seq = sealed_seq(&s);
    let eth2 = sealed_eth2(&s);
    let attnets = sealed_attnets(&s);
    let public_key = sealed_public_key(&s);
    let t = sealed_text(&s);
    assert(record_reads(Record { seq, endpoints, eth2, attnets, public_key, text: t }, s));
    let rec = Record { seq, endpoints, eth2, attnets, public_key, text: t };
    assert(record_reads(rec, s));
    let r = Ok(rec);
    assert(r is Ok && record_reads(r->Ok_0, s));
    r
}

/// Printing a record and parsing the text back gives the same signed record:
/// `to_text` gives the text of a signed record `s` that the record reads,
/// `parse` of that text gives a record reading `s`, and two records reading
/// one signed record have the same text, sequence number, addresses, ports
/// and eth2 value.
pub proof fn lemma_text_round_trip(rec: Record, back: Record, s: Sealed)
    requires
        record_reads(rec, s),
        record_reads(back, s),
    ensures
        back.spec_text() == rec.spec_text(),
        back.spec_seq() == rec.spec_seq(),
        back.spec_endpoints() == rec.spec_endpoints(),
        back.spec_eth2() == rec.spec_eth2(),
        back.spec_attnets() == rec.spec_attnets(),
{
}

impl Record {
    pub closed spec fn spec_seq(&self) -> u64 {
        self.seq
    }

    pub closed spec fn spec_endpoints(&self) -> Endpoints {
        self.endpoints
    }

    pub closed spec fn spec_eth2(&self) -> Option<Seq<u8>> {
        opt_bytes(self.eth2)
    }

    pub closed spec fn spec_attnets(&self) -> Option<Seq<u8>> {
        opt_bytes(self.attnets)
    }

    pub closed spec fn spec_public_key(&self) -> PublicKey {
        self.public_key
    }

    pub closed spec fn spec_text(&self) -> Seq<char> {
        self.text@
    }

    /// The sequence number.
    pub fn seq(&self) -> (r: u64)
        ensures
            r == self.spec_seq(),
    {
        self.seq
    }

    /// The addresses and ports.
    pub fn endpoints(&self) -> (r: Endpoints)
        ensures
            r == self.spec_endpoints(),
    {
        self.endpoints
    }

    /// The signer's key is well formed: building and parsing only make records
    /// whose key is.
    #[verifier::type_invariant]
    spec fn inv(&self) -> bool {
        &&& self.public_key.wf()
        &&& exists|s: Sealed| #[trigger] record_reads(*self, s)
    }

    /// The public key of the signer.
    pub fn public_key(&self) -> (r: &PublicKey)
        ensures
            *r == self.spec_public_key(),
            r.wf(),
    {
        proof {
            use_type_invariant(self);
        }
        &self.public_key
    }

    /// The transport string: the same record always gives the same text, the
    /// text of the signed record this one reads.
    pub fn to_text(&self) -> (r: String)
        ensures
            r@ == self.spec_text(),
            exists|s: Sealed| #[trigger] record_reads(*self, s) && sealed_text_of(s) == r@,
    {
        proof {
            use_type_invariant(self);
        }
        self.text.clone()
    }

    /// The node identifier of the record's signer.
    pub fn node_id(&self) -> (r: NodeId)
        ensures
            r.raw@ == node_id_of(self.spec_public_key()),
            r.wf(),
    {
        node_id(self.public_key())
    }

    /// The eth2 fork identifier the record carries.
    pub fn eth2(&self) -> (r: Result<EnrForkId, EnrError>)
        ensures
            self.spec_eth2() is None ==> r == Err::<EnrForkId, EnrError>(EnrError::MissingField),
            self.spec_eth2() is Some ==> r == decode_fork_id(self.spec_eth2()->0),
    {
        match &self.eth2 {
            Some(v) => EnrForkId::decode(v.as_slice()),
            None => Err(EnrError::MissingField),
        }
    }

    /// The attestation subnet bitfield the record carries.
    pub fn bitfield(&self) -> (r: Option<Vec<u8>>)
        ensures
            opt_bytes(r) == self.spec_attnets(),
    {
        clone_opt_bytes(&self.attnets)
    }
}

} // verus!
