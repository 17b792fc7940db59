use vstd::prelude::*;
use crate::addresses::IpAddress;
use crate::error::{EnrError, Field};
use crate::fork_id::decode_fork_id;
use crate::keys::{generate, generate_result, rejects_key_bytes, KeyMaterial};
use crate::record::{build, opt_bytes, Endpoints, Record, RecordFields, DEFAULT_SEQ};
use crate::text::{digits_value, from_hex, hex_bytes, is_hex_text, is_unsigned_text, parse_u64, unsigned_digits};

verus! {

/// What a record is built from, as given on the command line.
#[derive(Clone, Debug, PartialEq, Eq)]
pub struct Build {
    /// A hex-encoded private key; without it and without a key file a random key is made.
    pub private_key: Option<String>,
    /// A file holding the raw bytes of a private key.
    pub key_file: Option<String>,
    /// An IPv4 or IPv6 address.
    pub ip: Option<String>,
    /// A decimal sequence number.
    pub seq: Option<String>,
    pub tcp_port: Option<u16>,
    pub udp_port: Option<u16>,
    pub tcp6_port: Option<u16>,
    pub udp6_port: Option<u16>,
    pub quic_port: Option<u16>,
    pub quic6_port: Option<u16>,
    /// The hex-encoded eth2 fork identifier.
    pub eth2: Option<String>,
}

/// A built record and the key that signed it.
#[derive(Debug)]
pub struct BuildOutcome {
    pub key: KeyMaterial,
    pub record: Record,
}

/// The key bytes to use: the hex private key if given, else the key file's bytes, else none.
pub open spec fn key_source(b: Build, key_file: Option<Seq<u8>>) -> Result<Option<Seq<u8>>, EnrError> {
    match b.private_key {
        Some(h) => if is_hex_text(h@) {
            Ok(Some(hex_bytes(h@)))
        } else {
            Err(EnrError::FieldValidationError(Field::PrivateKey))
        },
        None => Ok(key_file),
    }
}

/// The addresses and ports a build sets.
pub open spec fn endpoints_of(b: Build, ip: Option<IpAddress>) -> Endpoints {
    Endpoints {
        ip4: match ip {
            Some(IpAddress::V4(o)) => Some(o),
            _ => None,
        },
        ip6: match ip {
            Some(IpAddress::V6(o)) => Some(o),
            _ => None,
        },
        tcp4: b.tcp_port,
        tcp6: b.tcp6_port,
        udp4: b.udp_port,
        udp6: b.udp6_port,
        quic4: b.quic_port,
        quic6: b.quic6_port,
    }
}

/// The first check that fails before signing, in the order they are made.
pub open spec fn first_failure(b: Build, key_file: Option<Seq<u8>>) -> Option<EnrError> {
    match key_source(b, key_file) {
        Err(e) => Some(e),
        Ok(kb) => if kb is Some && rejects_key_bytes(kb->0) {
            Some(EnrError::InvalidKeyMaterial)
        } else if b.seq is Some && !is_unsigned_text(b.seq->0@, u64::MAX as nat) {
            Some(EnrError::FieldValidationError(Field::SeqNumber))
        } else if b.eth2 is Some && !is_hex_text(b.eth2->0@) {
            Some(EnrError::FieldValidationError(Field::Eth2))
        } else if b.eth2 is Some && decode_fork_id(hex_bytes(b.eth2->0@)) is Err {
            Some(EnrError::FieldValidationError(Field::Eth2))
        } else {
            None
        },
    }
}

/// The sequence number a build gives its record.
pub open spec fn seq_of(b: Build) -> u64 {
    match b.seq {
        Some(s) => digits_value(unsigned_digits(s@)) as u64,
        None => DEFAULT_SEQ,
    }
}

fn take_key_bytes(b: &Build, key_file: Option<Vec<u8>>) -> (r: Result<Option<Vec<u8>>, EnrError>)
    ensures
        match key_source(*b, opt_bytes(key_file)) {
            Ok(kb) => r is Ok && opt_bytes(r->Ok_0) == kb,
            Err(e) => r == Err::<Option<Vec<u8>>, EnrError>(e),
        },
{
    match &b.private_key {
        Some(h) => match from_hex(h.as_str()) {
            Some(v) => Ok(Some(v)),
            None => Err(EnrError::FieldValidationError(Field::PrivateKey)),
        },
        None => Ok(key_file),
    }
}

/// Builds a record from command-line values: `key_file` holds the bytes read
/// from `b.key_file` (if any), `ip` the parsed `b.ip` (if any).
pub fn run(b: &Build, key_file: Option<Vec<u8>>, ip: Option<IpAddress>) -> (r: Result<
    BuildOutcome,
    EnrError,
>)
    ensures
        first_failure(*b, opt_bytes(key_file)) is Some ==> r == Err::<BuildOutcome, EnrError>(
            first_failure(*b, opt_bytes(key_file))->0),
        first_failure(*b, opt_bytes(key_file)) is None ==> r is Ok || r == Err::<
            BuildOutcome,
            EnrError,
        >(EnrError::RecordTooLarge) || r == Err::<BuildOutcome, EnrError>(EnrError::SigningFailed),
        r is Ok ==> {
            let out = r->Ok_0;
            &&& out.key.wf()
            &&& generate_result(key_source(*b, opt_bytes(key_file))->Ok_0, out.key)
            &&& out.record.spec_seq() == seq_of(*b)
            &&& out.record.spec_endpoints() == endpoints_of(*b, ip)
            &&& out.record.spec_eth2() == match b.eth2 {
                Some(h) => Some(hex_bytes(h@)),
                None => None,
            }
            &&& out.record.spec_public_key().scheme == out.key.spec_scheme()
            &&& out.record.spec_public_key().bytes@ == out.key.spec_public()
        },
{
    let kb = match take_key_bytes(b, key_file) {
        Ok(v) => v,
        Err(e) => return Err(e),
    };
    let key = match &kb {
        Some(v) => generate(Some(v.as_slice())),
        None => generate(None),
    };
    let key = match key {
        Ok(k) => k,
        Err(e) => return Err(e),
    };
    let seq = match &b.seq {
        Some(s) => match parse_u64(s.as_str()) {
            Some(v) => Some(v),
            None => return Err(EnrError::FieldValidationError(Field::SeqNumber)),
        },
        None => None,
    };
    let eth2 = match &b.eth2 {
        Some(h) => match from_hex(h.as_str()) {
            Some(v) => Some(v),
            None => return Err(EnrError::FieldValidationError(Field::Eth2)),
        },
        None => None,
    };
    let endpoints = Endpoints {
        ip4: match ip {
            Some(IpAddress::V4(o)) => Some(o),
            _ => None,
        },
        ip6: match ip {
            Some(IpAddress::V6(o)) => Some(o),
            _ => None,
        },
        tcp4: b.tcp_port,
        tcp6: b.tcp6_port,
        udp4: b.udp_port,
        udp6: b.udp6_port,
        quic4: b.quic_port,
        quic6: b.quic6_port,
    };
    let fields = RecordFields { seq, endpoints, eth2 };
    match build(&fields, &key) {
        Ok(record) => Ok(BuildOutcome { key, record }),
        Err(e) => Err(e),
    }
}

} // verus!
