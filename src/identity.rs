use vstd::prelude::*;
use crate::error::EnrError;
use crate::keys::{
    be_nat, generate_result, lemma_import_deterministic, secp256k1_decompressed, KeyMaterial, KeyScheme,
    PublicKey,
};
use tiny_keccak::Hasher;

verus! {

/// The Keccak-256 digest of `b`.
pub uninterp spec fn keccak256(b: Seq<u8>) -> Seq<u8>;

/// The scheme and key bytes that libp2p decodes from a protobuf public-key
/// envelope, where it decodes a secp256k1 or Ed25519 key.
pub uninterp spec fn decoded_public_key(envelope: Seq<u8>) -> Option<(KeyScheme, Seq<u8>)>;

/// The bitcoin base58 alphabet.
pub open spec fn base58_alphabet() -> Seq<char> {
    seq![
        '1', '2', '3', '4', '5', '6', '7', '8', '9', 'A', 'B', 'C', 'D', 'E', 'F', 'G', 'H', 'J',
        'K', 'L', 'M', 'N', 'P', 'Q', 'R', 'S', 'T', 'U', 'V', 'W', 'X', 'Y', 'Z', 'a', 'b', 'c',
        'd', 'e', 'f', 'g', 'h', 'i', 'j', 'k', 'm', 'n', 'o', 'p', 'q', 'r', 's', 't', 'u', 'v',
        'w', 'x', 'y', 'z',
    ]
}

/// The base58 digits of `n`, most significant first; none for zero.
pub open spec fn base58_digits(n: nat) -> Seq<char>
    decreases n,
{
    if n == 0 {
        Seq::empty()
    } else {
        base58_digits(n / 58).push(base58_alphabet()[(n % 58) as int])
    }
}

/// The number of zero bytes that `b` starts with.
pub open spec fn leading_zeros(b: Seq<u8>) -> nat
    decreases b.len(),
{
    if b.len() > 0 && b[0] == 0 {
        1 + leading_zeros(b.drop_first())
    } else {
        0
    }
}

/// The base58 text of bytes: one `1` per leading zero byte, then the base58
/// digits of the bytes read as a big-endian number.
pub open spec fn base58_text(b: Seq<u8>) -> Seq<char> {
    Seq::new(leading_zeros(b), |i: int| '1') + base58_digits(be_nat(b))
}

/// The 32-byte node identifier of a record.
#[derive(Clone, Debug, PartialEq, Eq)]
pub struct NodeId {
    pub raw: Vec<u8>,
}

impl NodeId {
    pub open spec fn wf(&self) -> bool {
        self.raw@.len() == 32
    }
}

/// A libp2p peer identifier, as its multihash bytes.
#[derive(Clone, Debug, PartialEq, Eq)]
pub struct PeerId {
    pub bytes: Vec<u8>,
}

/// The key bytes that the node identifier hashes: the uncompressed point
/// without its tag byte for secp256k1, the key itself for Ed25519.
pub open spec fn node_key_bytes(s: KeyScheme, k: Seq<u8>) -> Seq<u8> {
    match s {
        KeyScheme::Secp256k1 => secp256k1_decompressed(k).unwrap().drop_first(),
        KeyScheme::Ed25519 => k,
    }
}

/// The node identifier of a public key of scheme `s` and bytes `k`.
pub open spec fn node_id_of_key(s: KeyScheme, k: Seq<u8>) -> Seq<u8> {
    keccak256(node_key_bytes(s, k))
}

/// The node identifier of a public key.
pub open spec fn node_id_of(pk: PublicKey) -> Seq<u8> {
    node_id_of_key(pk.scheme, pk.bytes@)
}

/// The libp2p protobuf key type tag of a scheme.
pub open spec fn protobuf_key_type(s: KeyScheme) -> u8 {
    match s {
        KeyScheme::Ed25519 => 1,
        KeyScheme::Secp256k1 => 2,
    }
}

/// The protobuf public-key envelope: field 1 the key type, field 2 the key bytes.
pub open spec fn protobuf_public_key(pk: PublicKey) -> Seq<u8> {
    seq![0x08u8, protobuf_key_type(pk.scheme), 0x12u8, pk.bytes@.len() as u8] + pk.bytes@
}

/// A multihash with the identity code: code 0, the digest length, the digest.
pub open spec fn identity_multihash(d: Seq<u8>) -> Seq<u8> {
    seq![0x00u8, d.len() as u8] + d
}

/// The peer identifier of a public key.
pub open spec fn peer_id_of(pk: PublicKey) -> Seq<u8> {
    identity_multihash(protobuf_public_key(pk))
}

/// Relies on `tiny_keccak::Keccak::v256`: a 32-byte digest of the input.
#[verifier::external_body]
fn keccak_digest(b: &[u8]) -> (r: Vec<u8>)
    ensures
        r@ == keccak256(b@),
        r@.len() == 32,
{
    let mut output = [0u8; 32];
    let mut hasher = tiny_keccak::Keccak::v256();
    hasher.update(b);
    hasher.finalize(&mut output);
    output.to_vec()
}

/// Relies on `libp2p_identity::secp256k1::PublicKey::try_from_bytes` and
/// `to_bytes_uncompressed`: 65 bytes, the first of them the tag 4.
#[verifier::external_body]
fn secp256k1_uncompressed(c: &[u8]) -> (r: Vec<u8>)
    requires
        secp256k1_decompressed(c@) is Some,
    ensures
        r@ == secp256k1_decompressed(c@).unwrap(),
        r@.len() == 65,
{
    libp2p_identity::secp256k1::PublicKey::try_from_bytes(c).expect("a point on the curve")
        .to_bytes_uncompressed().to_vec()
}

/// Relies on `PeerId::from_public_key` and `PeerId::to_bytes` of libp2p: a key
/// whose protobuf envelope is at most 42 bytes is inlined in an identity
/// multihash; the envelope is the key type then the key bytes. The key decodes:
/// a secp256k1 point that decompresses, an Ed25519 point that decodes.
#[verifier::external_body]
fn libp2p_peer_id(pk: &PublicKey) -> (r: Vec<u8>)
    requires
        pk.wf(),
    ensures
        r@ == identity_multihash(protobuf_public_key(*pk)),
{
    let key = match pk.scheme {
        KeyScheme::Secp256k1 => libp2p_identity::secp256k1::PublicKey::try_from_bytes(&pk.bytes)
            .map(libp2p_identity::PublicKey::from),
        KeyScheme::Ed25519 => libp2p_identity::ed25519::PublicKey::try_from_bytes(&pk.bytes)
            .map(libp2p_identity::PublicKey::from),
    };
    libp2p_identity::PeerId::from_public_key(&key.expect("a well-formed key")).to_bytes()
}

/// Relies on `libp2p_identity::PublicKey::try_decode_protobuf`: a secp256k1
/// key comes back compressed (33 bytes), an Ed25519 key as its 32 bytes, any
/// other key type as None. The envelope of a well-formed key decodes to it.
#[verifier::external_body]
fn decode_protobuf_key(b: &[u8]) -> (r: Option<PublicKey>)
    ensures
        r is Some <==> decoded_public_key(b@) is Some,
        r is Some ==> r->0.wf() && decoded_public_key(b@) == Some((r->0.scheme, r->0.bytes@)),
        forall|pk: PublicKey|
            pk.wf() && #[trigger] protobuf_public_key(pk) == b@ ==> r is Some && r->0.scheme
                == pk.scheme && r->0.bytes@ == pk.bytes@,
{
    let key = libp2p_identity::PublicKey::try_decode_protobuf(b).ok()?;
    match key.key_type() {
        libp2p_identity::KeyType::Secp256k1 => key.try_into_secp256k1().ok().map(
            |k| PublicKey { scheme: KeyScheme::Secp256k1, bytes: k.to_bytes().to_vec() },
        ),
        libp2p_identity::KeyType::Ed25519 => key.try_into_ed25519().ok().map(
            |k| PublicKey { scheme: KeyScheme::Ed25519, bytes: k.to_bytes().to_vec() },
        ),
        _ => None,
    }
}

/// Relies on `PeerId::from_bytes` and `PeerId::to_base58` (base58 of the bytes):
/// an identity multihash of at most 42 digest bytes is a peer identifier.
#[verifier::external_body]
fn base58_peer_id(b: &[u8]) -> (r: Option<String>)
    ensures
        r is Some ==> r->0@ == base58_text(b@),
        is_identity_multihash(b@) && b@.len() <= 44 ==> r is Some,
{
    libp2p_identity::PeerId::from_bytes(b).ok().map(|p| p.to_base58())
}

/// The node identifier: Keccak-256 of the raw public key.
pub fn node_id(pk: &PublicKey) -> (r: NodeId)
    requires
        pk.wf(),
    ensures
        r.raw@ == node_id_of(*pk),
        r.raw@.len() == 32,
{
    match pk.scheme {
        KeyScheme::Secp256k1 => {
            let full = secp256k1_uncompressed(pk.bytes.as_slice());
            let raw = slice_from(&full, 1);
            assert(raw@ =~= node_key_bytes(pk.scheme, pk.bytes@));
            NodeId { raw: keccak_digest(raw.as_slice()) }
        },
        KeyScheme::Ed25519 => NodeId { raw: keccak_digest(pk.bytes.as_slice()) },
    }
}

fn slice_from(v: &Vec<u8>, start: usize) -> (r: Vec<u8>)
    requires
        start <= v@.len(),
    ensures
        r@ == v@.subrange(start as int, v@.len() as int),
{
    let mut r: Vec<u8> = Vec::new();
    let mut i = start;
    while i < v.len()
        invariant
            start <= i <= v@.len(),
            r@ == v@.subrange(start as int, i as int),
        decreases v@.len() - i,
    {
        r.push(v[i]);
        i = i + 1;
        assert(r@ =~= v@.subrange(start as int, i as int));
    }
    r
}

/// The libp2p peer identifier: the protobuf key envelope in an identity multihash.
pub fn peer_id(pk: &PublicKey) -> (r: PeerId)
    requires
        pk.wf(),
    ensures
        r.bytes@ == peer_id_of(*pk),
        is_identity_multihash(r.bytes@) && r.bytes@.len() <= 39,
{
    PeerId { bytes: libp2p_peer_id(pk) }
}

/// The base58 text of a peer identifier; None where libp2p does not read the
/// bytes as one.
pub fn peer_id_text(p: &PeerId) -> (r: Option<String>)
    ensures
        r is Some ==> r->0@ == base58_text(p.bytes@),
        is_identity_multihash(p.bytes@) && p.bytes@.len() <= 44 ==> r is Some,
{
    base58_peer_id(p.bytes.as_slice())
}

/// Whether `b` is an identity multihash: code 0, then a length byte that
/// matches the rest.
pub open spec fn is_identity_multihash(b: Seq<u8>) -> bool {
    &&& b.len() >= 2
    &&& b[0] == 0
    &&& b[1] as int == b.len() - 2
}

/// The node identifier that a peer identifier's bytes give: that of the key
/// inlined in its identity multihash, where libp2p decodes one.
pub open spec fn peer_node_id(b: Seq<u8>) -> Option<Seq<u8>> {
    if is_identity_multihash(b) {
        match decoded_public_key(b.subrange(2, b.len() as int)) {
            Some((s, k)) => Some(node_id_of_key(s, k)),
            None => None,
        }
    } else {
        None
    }
}

/// The node identifier for what the peer identifier's key decoded to.
pub fn node_id_from_decoded(decoded: Option<PublicKey>) -> (r: Result<NodeId, EnrError>)
    requires
        decoded is Some ==> decoded->0.wf(),
    ensures
        match decoded {
            Some(pk) => r is Ok && r->Ok_0.raw@ == node_id_of(pk) && r->Ok_0.wf(),
            None => r == Err::<NodeId, EnrError>(EnrError::UnsupportedPeerIdEncoding),
        },
{
    match decoded {
        Some(pk) => Ok(node_id(&pk)),
        None => Err(EnrError::UnsupportedPeerIdEncoding),
    }
}

/// Recovers the node identifier from a peer identifier that inlines a
/// secp256k1 or Ed25519 public key; the peer identifier of a key gives back
/// that key's node identifier.
pub fn peer_id_to_node_id(p: &PeerId) -> (r: Result<NodeId, EnrError>)
    ensures
        match peer_node_id(p.bytes@) {
            Some(n) => r is Ok && r->Ok_0.raw@ == n && r->Ok_0.wf(),
            None => r == Err::<NodeId, EnrError>(EnrError::UnsupportedPeerIdEncoding),
        },
        forall|pk: PublicKey|
            pk.wf() && #[trigger] peer_id_of(pk) == p.bytes@ ==> r is Ok && r->Ok_0.raw@
                == node_id_of(pk),
{
    let b = &p.bytes;
    if b.len() < 2 || b[0] != 0 || b[1] as usize != b.len() - 2 {
        proof {
            assert forall|pk: PublicKey| pk.wf() && #[trigger] peer_id_of(pk) == p.bytes@ implies false by {
                assert(peer_id_of(pk)[0] == 0);
                assert(peer_id_of(pk)[1] as int == peer_id_of(pk).len() - 2);
            }
        }
        return Err(EnrError::UnsupportedPeerIdEncoding);
    }
    let envelope = slice_from(b, 2);
    let decoded = decode_protobuf_key(envelope.as_slice());
    let r = node_id_from_decoded(decoded);
    proof {
        assert forall|pk: PublicKey| pk.wf() && #[trigger] peer_id_of(pk) == p.bytes@ implies r is Ok
            && r->Ok_0.raw@ == node_id_of(pk) by {
            assert(envelope@ =~= protobuf_public_key(pk));
        }
    }
    r
}

/// The peer identifier and the node identifier of a key never coincide: the
/// peer identifier is 38 or 39 bytes long, a node identifier 32.
pub proof fn lemma_peer_id_differs_from_node_id(pk: PublicKey, n: NodeId)
    requires
        pk.wf(),
        n.wf(),
        n.raw@ == node_id_of(pk),
    ensures
        peer_id_of(pk) != n.raw@,
{
    assert(peer_id_of(pk).len() == pk.bytes@.len() + 6);
}

/// Importing the same key bytes twice yields the same node identifier: the
/// identifier is a function of the bytes (and, by `node_id`, 32 bytes long).
pub proof fn lemma_node_id_of_import(
    b: Seq<u8>,
    k1: KeyMaterial,
    k2: KeyMaterial,
    p1: PublicKey,
    p2: PublicKey,
)
    requires
        k1.wf(),
        k2.wf(),
        generate_result(Some(b), k1),
        generate_result(Some(b), k2),
        p1.scheme == k1.spec_scheme() && p1.bytes@ == k1.spec_public(),
        p2.scheme == k2.spec_scheme() && p2.bytes@ == k2.spec_public(),
    ensures
        node_id_of(p1) == node_id_of(p2),
{
    lemma_import_deterministic(b, k1, k2);
}

} // verus!
