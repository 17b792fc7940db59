use vstd::prelude::*;
use crate::error::EnrError;
use enr::{EnrKey, EnrPublicKey};

verus! {

/// The signing schemes a record can be authenticated under.
#[derive(Clone, Copy, Debug, PartialEq, Eq, Structural)]
pub enum KeyScheme {
    Secp256k1,
    Ed25519,
}

/// The order of the secp256k1 group; valid secret scalars lie strictly between 0 and it.
pub open spec fn secp256k1_order() -> nat {
    0xFFFFFFFFFFFFFFFFFFFFFFFFFFFFFFFEnat * 0x10000000000000000nat * 0x10000000000000000nat
        + 0xBAAEDCE6AF48A03BBFD25E8CD0364141nat
}

/// The unsigned integer whose big-endian bytes are `b`.
pub open spec fn be_nat(b: Seq<u8>) -> nat
    decreases b.len(),
{
    if b.len() == 0 {
        0
    } else {
        be_nat(b.drop_last()) * 256 + b.last() as nat
    }
}

/// Bytes that the secp256k1 signer takes as a secret: 24 to 32 big-endian bytes
/// (shorter ones are zero-padded on the left) of a nonzero scalar below the group order.
pub open spec fn secp256k1_accepts(b: Seq<u8>) -> bool {
    &&& 24 <= b.len() <= 32
    &&& 0 < be_nat(b) < secp256k1_order()
}

/// Bytes that the Ed25519 signer takes as a secret seed: any 32 bytes.
pub open spec fn ed25519_accepts(b: Seq<u8>) -> bool {
    b.len() == 32
}

/// The compressed SEC1 public key of a secp256k1 secret.
pub uninterp spec fn secp256k1_public_key(secret: Seq<u8>) -> Seq<u8>;

/// The public key of an Ed25519 seed.
pub uninterp spec fn ed25519_public_key(seed: Seq<u8>) -> Seq<u8>;

/// The uncompressed SEC1 form (tag byte 4, then x and y) of a compressed
/// secp256k1 point, if the bytes name a point on the curve.
pub uninterp spec fn secp256k1_decompressed(compressed: Seq<u8>) -> Option<Seq<u8>>;

/// Whether 32 bytes are the compressed form of an Ed25519 curve point, as
/// the Ed25519 verifying key decoding accepts it.
pub uninterp spec fn ed25519_valid_point(k: Seq<u8>) -> bool;

/// The signer of the record library, held opaque.
#[verifier::external_type_specification]
#[verifier::external_body]
pub struct ExCombinedKey(enr::CombinedKey);

/// Secret key material: the scheme tag and the raw scalar or seed bytes.
/// The public key is derived from it on demand.
#[derive(Debug)]
pub struct KeyMaterial {
    scheme: KeyScheme,
    secret: Vec<u8>,
}

/// A public key: the scheme tag and its encoded bytes (compressed SEC1 for
/// secp256k1, the raw 32 bytes for Ed25519).
#[derive(Clone, Debug)]
pub struct PublicKey {
    pub scheme: KeyScheme,
    pub bytes: Vec<u8>,
}

impl PublicKey {
    pub open spec fn wf(&self) -> bool {
        match self.scheme {
            KeyScheme::Secp256k1 => {
                &&& self.bytes@.len() == 33
                &&& secp256k1_decompressed(self.bytes@) is Some
            },
            KeyScheme::Ed25519 => {
                &&& self.bytes@.len() == 32
                &&& ed25519_valid_point(self.bytes@)
            },
        }
    }
}

impl KeyMaterial {
    pub closed spec fn spec_scheme(&self) -> KeyScheme {
        self.scheme
    }

    pub closed spec fn spec_secret(&self) -> Seq<u8> {
        self.secret@
    }

    pub open spec fn wf(&self) -> bool {
        &&& self.spec_secret().len() == 32
        &&& match self.spec_scheme() {
            KeyScheme::Secp256k1 => secp256k1_accepts(self.spec_secret()),
            KeyScheme::Ed25519 => ed25519_accepts(self.spec_secret()),
        }
    }

    /// The public key this material derives.
    pub open spec fn spec_public(&self) -> Seq<u8> {
        match self.spec_scheme() {
            KeyScheme::Secp256k1 => secp256k1_public_key(self.spec_secret()),
            KeyScheme::Ed25519 => ed25519_public_key(self.spec_secret()),
        }
    }

    /// The secret is always one its scheme accepts: only validated bytes
    /// become key material.
    #[verifier::type_invariant]
    spec fn inv(&self) -> bool {
        self.wf()
    }

    pub fn scheme(&self) -> (r: KeyScheme)
        ensures
            r == self.spec_scheme(),
    {
        self.scheme
    }


    /// The raw secret bytes (32 bytes for both schemes).
    pub fn secret(&self) -> (r: &Vec<u8>)
        ensures
            r@ == self.spec_secret(),
    {
        &self.secret
    }

    /// Derives the public key; a pure function of the secret.
    pub fn public_key(&self) -> (r: PublicKey)
        ensures
            r.scheme == self.spec_scheme(),
            r.bytes@ == self.spec_public(),
            r.wf(),
            self.wf(),
    {
        proof {
            use_type_invariant(self);
        }
        PublicKey { scheme: self.scheme, bytes: derive_public_key(self) }
    }
}

/// Relies on `CombinedKey::secp256k1_from_bytes`, which takes the bytes through
/// `SigningKey::from_slice`, and on `CombinedKey::encode`, the 32-byte scalar.
#[verifier::external_body]
fn secp256k1_secret(b: &[u8]) -> (r: Option<Vec<u8>>)
    ensures
        r is Some <==> secp256k1_accepts(b@),
        r is Some ==> r->0@.len() == 32 && be_nat(r->0@) == be_nat(b@),
{
    let mut bytes = b.to_vec();
    enr::CombinedKey::secp256k1_from_bytes(&mut bytes).ok().map(|k| k.encode())
}

/// Relies on `CombinedKey::ed25519_from_bytes`: any 32 bytes are a seed, which
/// `CombinedKey::encode` gives back.
#[verifier::external_body]
fn ed25519_secret(b: &[u8]) -> (r: Option<Vec<u8>>)
    ensures
        r is Some <==> ed25519_accepts(b@),
        r is Some ==> r->0@ == b@,
{
    let mut bytes = b.to_vec();
    enr::CombinedKey::ed25519_from_bytes(&mut bytes).ok().map(|k| k.encode())
}

/// Relies on `CombinedKey::generate_secp256k1`: a random nonzero scalar below
/// the group order, which `CombinedKey::encode` writes as 32 bytes.
#[verifier::external_body]
fn random_secp256k1_secret() -> (r: Vec<u8>)
    ensures
        r@.len() == 32,
        secp256k1_accepts(r@),
{
    enr::CombinedKey::generate_secp256k1().encode()
}

/// Relies on `CombinedKey::generate_ed25519`: a random 32-byte seed, which
/// `CombinedKey::encode` gives back.
#[verifier::external_body]
fn random_ed25519_secret() -> (r: Vec<u8>)
    ensures
        r@.len() == 32,
{
    enr::CombinedKey::generate_ed25519().encode()
}

/// Rebuilds the signer of validated key material.
/// Relies on `CombinedKey::secp256k1_from_bytes` and `CombinedKey::ed25519_from_bytes`
/// accepting what they accepted before.
#[verifier::external_body]
pub(crate) fn combined_key(k: &KeyMaterial) -> (r: enr::CombinedKey)
    requires
        k.wf(),
{
    let mut bytes = k.secret.clone();
    match k.scheme {
        KeyScheme::Secp256k1 => enr::CombinedKey::secp256k1_from_bytes(&mut bytes),
        KeyScheme::Ed25519 => enr::CombinedKey::ed25519_from_bytes(&mut bytes),
    }.expect("validated key material")
}

/// Relies on `EnrKey::public` and `EnrPublicKey::encode` of `CombinedKey`: the
/// compressed 33-byte point of a secp256k1 key, the 32-byte Ed25519 key; a
/// point on the curve, so it decompresses (secp256k1) or decodes (Ed25519).
#[verifier::external_body]
fn derive_public_key(k: &KeyMaterial) -> (r: Vec<u8>)
    requires
        k.wf(),
    ensures
        k.spec_scheme() is Secp256k1 ==> r@ == secp256k1_public_key(k.spec_secret()),
        k.spec_scheme() is Ed25519 ==> r@ == ed25519_public_key(k.spec_secret()),
        k.spec_scheme() is Secp256k1 ==> r@.len() == 33 && secp256k1_decompressed(r@) is Some,
        k.spec_scheme() is Ed25519 ==> r@.len() == 32 && ed25519_valid_point(r@),
{
    combined_key(k).public().encode()
}

/// Makes a fresh random key of the given scheme.
pub fn generate_key(scheme: KeyScheme) -> (r: KeyMaterial)
    ensures
        r.spec_scheme() == scheme,
        r.wf(),
{
    match scheme {
        KeyScheme::Secp256k1 => KeyMaterial { scheme, secret: random_secp256k1_secret() },
        KeyScheme::Ed25519 => KeyMaterial { scheme, secret: random_ed25519_secret() },
    }
}

/// The key that `generate` yields for optional input bytes.
pub open spec fn generate_result(bytes: Option<Seq<u8>>, k: KeyMaterial) -> bool {
    match bytes {
        None => k.spec_scheme() is Secp256k1,
        Some(b) => if secp256k1_accepts(b) {
            k.spec_scheme() is Secp256k1 && be_nat(k.spec_secret()) == be_nat(b)
        } else {
            k.spec_scheme() is Ed25519 && k.spec_secret() == b
        },
    }
}

/// Input bytes that no scheme accepts.
pub open spec fn rejects_key_bytes(b: Seq<u8>) -> bool {
    !secp256k1_accepts(b) && !ed25519_accepts(b)
}

/// Makes key material: from `bytes` as a secp256k1 scalar if they are one, else
/// as an Ed25519 seed; without bytes, a fresh random secp256k1 key.
pub fn generate(bytes: Option<&[u8]>) -> (r: Result<KeyMaterial, EnrError>)
    ensures
        match bytes {
            Some(b) => rejects_key_bytes(b@) <==> r == Err::<KeyMaterial, EnrError>(
                EnrError::InvalidKeyMaterial),
            None => r is Ok,
        },
        r is Err ==> r == Err::<KeyMaterial, EnrError>(EnrError::InvalidKeyMaterial),
        r is Ok ==> r->Ok_0.wf() && generate_result(
            match bytes {
                Some(b) => Some(b@),
                None => None,
            },
            r->Ok_0,
        ),
{
    match bytes {
        None => Ok(KeyMaterial { scheme: KeyScheme::Secp256k1, secret: random_secp256k1_secret() }),
        Some(b) => {
            if let Some(s) = secp256k1_secret(b) {
                proof {
                    assert(secp256k1_accepts(s@));
                }
                Ok(KeyMaterial { scheme: KeyScheme::Secp256k1, secret: s })
            } else if let Some(s) = ed25519_secret(b) {
                Ok(KeyMaterial { scheme: KeyScheme::Ed25519, secret: s })
            } else {
                Err(EnrError::InvalidKeyMaterial)
            }
        },
    }
}

pub open spec fn pair_scheme(p: (KeyScheme, Vec<u8>)) -> KeyScheme {
    p.0
}

pub open spec fn pair_bytes(p: (KeyScheme, Vec<u8>)) -> Seq<u8> {
    p.1@
}

/// The protobuf private-key envelope: field 1 the key type, field 2 the key data.
pub open spec fn keypair_envelope(t: u8, data: Seq<u8>) -> Seq<u8> {
    seq![0x08u8, t, 0x12u8, data.len() as u8] + data
}

/// Relies on `libp2p_identity::Keypair::from_protobuf_encoding`: the scheme and
/// secret bytes of a secp256k1 key (type 2, a 32-byte scalar) or an Ed25519
/// keypair (type 1, seed then matching public key); None for other key types
/// (this build has no RSA or ECDSA) and for bytes that do not decode.
#[verifier::external_body]
fn libp2p_keypair_secret(encoded: &[u8]) -> (r: Option<(KeyScheme, Vec<u8>)>)
    ensures
        forall|d: Seq<u8>|
            #[trigger] keypair_envelope(2, d) == encoded@ && d.len() == 32 && secp256k1_accepts(d)
                ==> r is Some && pair_scheme(r->0) == KeyScheme::Secp256k1 && pair_bytes(r->0) == d,
        forall|d: Seq<u8>|
            #[trigger] keypair_envelope(1, d) == encoded@ && d.len() == 64 && d.subrange(32, 64)
                == ed25519_public_key(d.subrange(0, 32)) ==> r is Some && pair_scheme(r->0)
                == KeyScheme::Ed25519 && pair_bytes(r->0) == d.subrange(0, 32),
        forall|t: u8, d: Seq<u8>|
            #[trigger] keypair_envelope(t, d) == encoded@ && t != 1 && t != 2 && t < 0x80 && d.len()
                < 0x80 ==> r is None,
{
    let kp = libp2p_identity::Keypair::from_protobuf_encoding(encoded).ok()?;
    match kp.key_type() {
        libp2p_identity::KeyType::Secp256k1 => kp.try_into_secp256k1().ok().map(
            |k| (KeyScheme::Secp256k1, k.secret().to_bytes().to_vec()),
        ),
        libp2p_identity::KeyType::Ed25519 => kp.try_into_ed25519().ok().map(
            |k| (KeyScheme::Ed25519, k.secret().as_ref().to_vec()),
        ),
        _ => None,
    }
}

impl KeyMaterial {
    /// Key material of a given scheme from its secret bytes.
    pub fn from_scheme_secret(scheme: KeyScheme, secret: &[u8]) -> (r: Result<KeyMaterial, EnrError>)
        ensures
            match scheme {
                KeyScheme::Secp256k1 => secp256k1_accepts(secret@) <==> r is Ok,
                KeyScheme::Ed25519 => ed25519_accepts(secret@) <==> r is Ok,
            },
            r is Err ==> r->Err_0 == EnrError::InvalidKeyMaterial,
            r is Ok ==> {
                let k = r->Ok_0;
                &&& k.wf()
                &&& k.spec_scheme() == scheme
                &&& be_nat(k.spec_secret()) == be_nat(secret@)
                &&& scheme is Ed25519 ==> k.spec_secret() == secret@
            },
    {
        let s = match scheme {
            KeyScheme::Secp256k1 => secp256k1_secret(secret),
            KeyScheme::Ed25519 => ed25519_secret(secret),
        };
        match s {
            Some(v) => {
                proof {
                    if scheme is Secp256k1 {
                        lemma_be_nat_accepts(secret@, v@);
                    }
                }
                Ok(KeyMaterial { scheme, secret: v })
            },
            None => Err(EnrError::InvalidKeyMaterial),
        }
    }

    /// Key material from a libp2p keypair in its protobuf encoding. Keys of
    /// other types than secp256k1 and Ed25519, and bytes that libp2p does not
    /// decode, fail with `UnsupportedKeyScheme`.
    pub fn from_libp2p(encoded: &[u8]) -> (r: Result<KeyMaterial, EnrError>)
        ensures
            r is Ok ==> r->Ok_0.wf(),
            forall|d: Seq<u8>|
                #[trigger] keypair_envelope(2, d) == encoded@ && d.len() == 32 && secp256k1_accepts(d)
                    ==> r is Ok && r->Ok_0.spec_scheme() == KeyScheme::Secp256k1
                    && r->Ok_0.spec_secret() == d,
            forall|d: Seq<u8>|
                #[trigger] keypair_envelope(1, d) == encoded@ && d.len() == 64 && d.subrange(32, 64)
                    == ed25519_public_key(d.subrange(0, 32)) ==> r is Ok && r->Ok_0.spec_scheme()
                    == KeyScheme::Ed25519 && r->Ok_0.spec_secret() == d.subrange(0, 32),
            forall|t: u8, d: Seq<u8>|
                #[trigger] keypair_envelope(t, d) == encoded@ && t != 1 && t != 2 && t < 0x80
                    && d.len() < 0x80 ==> r == Err::<KeyMaterial, EnrError>(EnrError::UnsupportedKeyScheme),
            r is Err ==> r->Err_0 == EnrError::UnsupportedKeyScheme || r->Err_0
                == EnrError::InvalidKeyMaterial,
    {
        let got = libp2p_keypair_secret(encoded);
        let r = match got {
            Some((scheme, secret)) => KeyMaterial::from_scheme_secret(scheme, secret.as_slice()),
            None => Err(EnrError::UnsupportedKeyScheme),
        };
        proof {
            assert forall|d: Seq<u8>|
                #[trigger] keypair_envelope(2, d) == encoded@ && d.len() == 32 && secp256k1_accepts(d)
                    implies r is Ok && r->Ok_0.spec_scheme() == KeyScheme::Secp256k1
                    && r->Ok_0.spec_secret() == d by {
                lemma_be_nat_injective(r->Ok_0.spec_secret(), d);
            }
        }
        r
    }
}

proof fn lemma_be_nat_accepts(a: Seq<u8>, b: Seq<u8>)
    requires
        secp256k1_accepts(a),
        b.len() == 32,
        be_nat(b) == be_nat(a),
    ensures
        secp256k1_accepts(b),
{
}

proof fn lemma_be_nat_injective(a: Seq<u8>, b: Seq<u8>)
    requires
        a.len() == b.len(),
        be_nat(a) == be_nat(b),
    ensures
        a == b,
    decreases a.len(),
{
    if a.len() > 0 {
        let (x, y) = (be_nat(a.drop_last()), be_nat(b.drop_last()));
        let (u, v) = (a.last() as nat, b.last() as nat);
        assert(x * 256 + u == y * 256 + v);
        assert(x == y && u == v) by (nonlinear_arith)
            requires
                x * 256 + u == y * 256 + v,
                u < 256,
                v < 256,
        ;
        lemma_be_nat_injective(a.drop_last(), b.drop_last());
        assert(a =~= a.drop_last().push(a.last()));
        assert(b =~= b.drop_last().push(b.last()));
    } else {
        assert(a =~= b);
    }
}

/// Importing the same bytes twice gives the same key: the same scheme, the same
/// secret, and so the same public key (and node identifier, which derives from it).
pub proof fn lemma_import_deterministic(b: Seq<u8>, k1: KeyMaterial, k2: KeyMaterial)
    requires
        k1.wf(),
        k2.wf(),
        generate_result(Some(b), k1),
        generate_result(Some(b), k2),
    ensures
        k1.spec_scheme() == k2.spec_scheme(),
        k1.spec_secret() == k2.spec_secret(),
        k1.spec_public() == k2.spec_public(),
{
    if secp256k1_accepts(b) {
        lemma_be_nat_injective(k1.spec_secret(), k2.spec_secret());
    }
}

/// Re-importing the secret of any key material gives key material of the same
/// secret; a secp256k1 key comes back as itself.
pub proof fn lemma_reimport_secret(k: KeyMaterial, k2: KeyMaterial)
    requires
        k.wf(),
        k2.wf(),
        generate_result(Some(k.spec_secret()), k2),
    ensures
        k2.spec_secret() == k.spec_secret(),
        k.spec_scheme() is Secp256k1 ==> k2.spec_scheme() is Secp256k1 && k2.spec_public()
            == k.spec_public(),
{
    if secp256k1_accepts(k.spec_secret()) {
        lemma_be_nat_injective(k.spec_secret(), k2.spec_secret());
    }
}

} // verus!
