use vstd::prelude::*;

verus! {

/// The input field that failed validation while building a record.
#[derive(Clone, Copy, Debug, PartialEq, Eq, Structural)]
pub enum Field {
    PrivateKey,
    KeyFile,
    SeqNumber,
    Ip,
    Tcp4,
    Tcp6,
    Udp4,
    Udp6,
    Quic4,
    Quic6,
    Eth2,
}

/// Every failure the library reports; none of them aborts the process.
#[derive(Clone, Copy, Debug, PartialEq, Eq, Structural)]
pub enum EnrError {
    /// Key bytes that no supported scheme accepts.
    InvalidKeyMaterial,
    /// A field value that does not parse or validate.
    FieldValidationError(Field),
    /// The signed record exceeds the protocol's size limit.
    RecordTooLarge,
    /// The signer rejected a key it had accepted before.
    SigningFailed,
    /// The transport string is not valid base64url.
    MalformedEncoding,
    /// The decoded bytes are not a well-formed record.
    MalformedRecord,
    /// The embedded signature does not verify.
    SignatureInvalid,
    /// A public key of a scheme outside the supported set.
    UnsupportedKeyScheme,
    /// A peer identifier that does not inline a supported public key.
    UnsupportedPeerIdEncoding,
    /// Fewer bytes than the fixed extension layout needs.
    TruncatedExtension,
    /// More bytes than the fixed extension layout holds.
    MalformedExtension,
    /// The record carries no value under the requested key.
    MissingField,
}

} // verus!
