use vstd::prelude::*;
use crate::error::EnrError;

verus! {

/// The record key under which the fork identifier is stored.
pub const ETH2_ENR_KEY: &'static str = "eth2";

/// The record key under which the attestation subnet bitfield is stored.
pub const BITFIELD_ENR_KEY: &'static str = "attnets";

/// Number of bytes in the wire form of an [`EnrForkId`].
pub const FORK_ID_LEN: usize = 16;

/// The eth2 fork marker: current fork digest, next fork version and the
/// epoch at which the next fork activates.
#[derive(Clone, Copy, Debug, PartialEq, Eq)]
pub struct EnrForkId {
    pub fork_digest: [u8; 4],
    pub next_fork_version: [u8; 4],
    pub next_fork_epoch: u64,
}

/// The eight big-endian bytes of `n`.
pub open spec fn u64_be_bytes(n: u64) -> Seq<u8> {
    seq![
        (n >> 56u64) as u8,
        (n >> 48u64) as u8,
        (n >> 40u64) as u8,
        (n >> 32u64) as u8,
        (n >> 24u64) as u8,
        (n >> 16u64) as u8,
        (n >> 8u64) as u8,
        n as u8,
    ]
}

/// The integer whose big-endian bytes are `b[at..at + 8]`.
pub open spec fn u64_from_be(b: Seq<u8>, at: int) -> u64 {
    ((b[at] as u64) << 56u64) | ((b[at + 1] as u64) << 48u64) | ((b[at + 2] as u64) << 40u64)
        | ((b[at + 3] as u64) << 32u64) | ((b[at + 4] as u64) << 24u64) | ((b[at + 5] as u64)
        << 16u64) | ((b[at + 6] as u64) << 8u64) | (b[at + 7] as u64)
}

/// The 16-byte wire form: digest, version, then the epoch big-endian.
pub open spec fn fork_id_bytes(f: EnrForkId) -> Seq<u8> {
    f.fork_digest@ + f.next_fork_version@ + u64_be_bytes(f.next_fork_epoch)
}

/// The value that a 16-byte wire form describes.
pub open spec fn fork_id_of(b: Seq<u8>) -> EnrForkId
    recommends
        b.len() == FORK_ID_LEN,
{
    EnrForkId {
        fork_digest: [b[0], b[1], b[2], b[3]],
        next_fork_version: [b[4], b[5], b[6], b[7]],
        next_fork_epoch: u64_from_be(b, 8),
    }
}

/// What decoding `b` gives: too short and too long are told apart.
pub open spec fn decode_fork_id(b: Seq<u8>) -> Result<EnrForkId, EnrError> {
    if b.len() < FORK_ID_LEN {
        Err(EnrError::TruncatedExtension)
    } else if b.len() > FORK_ID_LEN {
        Err(EnrError::MalformedExtension)
    } else {
        Ok(fork_id_of(b))
    }
}

proof fn lemma_u64_be_round_trip(n: u64)
    ensures
        u64_from_be(u64_be_bytes(n), 0) == n,
{
    let b = u64_be_bytes(n);
    assert(((((n >> 56u64) as u8) as u64) << 56u64) | ((((n >> 48u64) as u8) as u64) << 48u64)
        | ((((n >> 40u64) as u8) as u64) << 40u64) | ((((n >> 32u64) as u8) as u64) << 32u64)
        | ((((n >> 24u64) as u8) as u64) << 24u64) | ((((n >> 16u64) as u8) as u64) << 16u64)
        | ((((n >> 8u64) as u8) as u64) << 8u64) | ((n as u8) as u64) == n) by (bit_vector);
}

proof fn lemma_be_u64_round_trip(b0: u8, b1: u8, b2: u8, b3: u8, b4: u8, b5: u8, b6: u8, b7: u8)
    ensures
        ({
            let n = ((b0 as u64) << 56u64) | ((b1 as u64) << 48u64) | ((b2 as u64) << 40u64) | ((
            b3 as u64) << 32u64) | ((b4 as u64) << 24u64) | ((b5 as u64) << 16u64) | ((b6 as u64)
                << 8u64) | (b7 as u64);
            &&& (n >> 56u64) as u8 == b0
            &&& (n >> 48u64) as u8 == b1
            &&& (n >> 40u64) as u8 == b2
            &&& (n >> 32u64) as u8 == b3
            &&& (n >> 24u64) as u8 == b4
            &&& (n >> 16u64) as u8 == b5
            &&& (n >> 8u64) as u8 == b6
            &&& n as u8 == b7
        }),
{
    assert({
        let n = ((b0 as u64) << 56u64) | ((b1 as u64) << 48u64) | ((b2 as u64) << 40u64) | ((
        b3 as u64) << 32u64) | ((b4 as u64) << 24u64) | ((b5 as u64) << 16u64) | ((b6 as u64)
            << 8u64) | (b7 as u64);
        &&& (n >> 56u64) as u8 == b0
        &&& (n >> 48u64) as u8 == b1
        &&& (n >> 40u64) as u8 == b2
        &&& (n >> 32u64) as u8 == b3
        &&& (n >> 24u64) as u8 == b4
        &&& (n >> 16u64) as u8 == b5
        &&& (n >> 8u64) as u8 == b6
        &&& n as u8 == b7
    }) by (bit_vector);
}

/// Decoding the wire form of any fork identifier gives that identifier back.
pub proof fn lemma_fork_id_decode_encode(f: EnrForkId)
    ensures
        fork_id_bytes(f).len() == FORK_ID_LEN,
        decode_fork_id(fork_id_bytes(f)) == Ok::<EnrForkId, EnrError>(f),
{
    broadcast use vstd::array::group_array_axioms;
    let b = fork_id_bytes(f);
    lemma_u64_be_round_trip(f.next_fork_epoch);
    assert(b.subrange(8, 16) == u64_be_bytes(f.next_fork_epoch));
    assert(u64_from_be(b, 8) == u64_from_be(u64_be_bytes(f.next_fork_epoch), 0));
    let g = fork_id_of(b);
    assert(g.fork_digest =~= f.fork_digest);
    assert(g.next_fork_version =~= f.next_fork_version);
    assert(g == f);
}

/// Any 16 bytes that decode are the wire form of what they decode to.
pub proof fn lemma_fork_id_encode_decode(b: Seq<u8>)
    requires
        b.len() == FORK_ID_LEN,
    ensures
        decode_fork_id(b) is Ok,
        fork_id_bytes(fork_id_of(b)) == b,
{
    lemma_be_u64_round_trip(b[8], b[9], b[10], b[11], b[12], b[13], b[14], b[15]);
    assert(fork_id_bytes(fork_id_of(b)) =~= b);
}

impl EnrForkId {
    /// Reads the fixed 16-byte layout; fewer bytes are truncated, more are malformed.
    pub fn decode(bytes: &[u8]) -> (r: Result<EnrForkId, EnrError>)
        ensures
            r == decode_fork_id(bytes@),
    {
        if bytes.len() < FORK_ID_LEN {
            return Err(EnrError::TruncatedExtension);
        }
        if bytes.len() > FORK_ID_LEN {
            return Err(EnrError::MalformedExtension);
        }
        let epoch: u64 = ((bytes[8] as u64) << 56u64) | ((bytes[9] as u64) << 48u64) | ((
        bytes[10] as u64) << 40u64) | ((bytes[11] as u64) << 32u64) | ((bytes[12] as u64)
            << 24u64) | ((bytes[13] as u64) << 16u64) | ((bytes[14] as u64) << 8u64) | (
        bytes[15] as u64);
        let r = EnrForkId {
            fork_digest: [bytes[0], bytes[1], bytes[2], bytes[3]],
            next_fork_version: [bytes[4], bytes[5], bytes[6], bytes[7]],
            next_fork_epoch: epoch,
        };
        assert(r == fork_id_of(bytes@));
        Ok(r)
    }

    /// Writes the fixed 16-byte layout.
    pub fn encode(&self) -> (r: Vec<u8>)
        ensures
            r@ == fork_id_bytes(*self),
    {
        let e = self.next_fork_epoch;
        let r = vec![
            self.fork_digest[0],
            self.fork_digest[1],
            self.fork_digest[2],
            self.fork_digest[3],
            self.next_fork_version[0],
            self.next_fork_version[1],
            self.next_fork_version[2],
            self.next_fork_version[3],
            (e >> 56u64) as u8,
            (e >> 48u64) as u8,
            (e >> 40u64) as u8,
            (e >> 32u64) as u8,
            (e >> 24u64) as u8,
            (e >> 16u64) as u8,
            (e >> 8u64) as u8,
            e as u8,
        ];
        assert(r@ =~= fork_id_bytes(*self));
        r
    }
}

} // verus!
