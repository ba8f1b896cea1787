//! Cryptographic operations for CCA token signing and key management:
//! P-384 keys, COSE_Key building, ES384 COSE_Sign1 signing and SHA-2
//! hashing.
use vstd::prelude::*;
use crate::attesters::cca::CcaError;
use crate::text::{concat3, starts_with, str_eq};
use super::cbor::{CborModel, cbor_encoding, encodes_uniquely};
use p384::ecdsa::SigningKey;
use p384::ecdsa::signature::Signer;
use p384::elliptic_curve::sec1::ToEncodedPoint;
use sha2::Digest;
use coset::{CborSerializable, TaggedCborSerializable};

verus! {

// ---------------------------------------------------------------------------
// Hash algorithms
// ---------------------------------------------------------------------------

/// The hash algorithm names accepted for CCA claims, per the IANA Named
/// Information Hash Algorithm Registry and the RMM specification.
pub open spec fn supported_hash_alg(s: Seq<char>) -> bool {
    s == "sha-256"@ || s == "sha-384"@ || s == "sha-512"@
}

/// Check whether a hash algorithm name is supported: `"sha-256"`,
/// `"sha-384"` or `"sha-512"`, exactly.
pub fn is_supported_hash_alg(s: &str) -> (r: bool)
    ensures
        r == supported_hash_alg(s@),
{
    str_eq(s, "sha-256") || str_eq(s, "sha-384") || str_eq(s, "sha-512")
}

/// The SHA-256 digest of `data`.
pub uninterp spec fn sha256_digest(data: Seq<u8>) -> Seq<u8>;

/// The SHA-384 digest of `data`.
pub uninterp spec fn sha384_digest(data: Seq<u8>) -> Seq<u8>;

/// The SHA-512 digest of `data`.
pub uninterp spec fn sha512_digest(data: Seq<u8>) -> Seq<u8>;

/// `sha2::Sha256::digest`: the digest is [`sha256_digest`] of the input and
/// is 32 bytes long (the algorithm's output size).
#[verifier::external_body]
fn sha256(data: &[u8]) -> (r: Vec<u8>)
    ensures
        r@ == sha256_digest(data@),
        r@.len() == 32,
{
    sha2::Sha256::digest(data).to_vec()
}

/// `sha2::Sha384::digest`: the digest is [`sha384_digest`] of the input and
/// is 48 bytes long.
#[verifier::external_body]
fn sha384(data: &[u8]) -> (r: Vec<u8>)
    ensures
        r@ == sha384_digest(data@),
        r@.len() == 48,
{
    sha2::Sha384::digest(data).to_vec()
}

/// `sha2::Sha512::digest`: the digest is [`sha512_digest`] of the input and
/// is 64 bytes long.
#[verifier::external_body]
fn sha512(data: &[u8]) -> (r: Vec<u8>)
    ensures
        r@ == sha512_digest(data@),
        r@.len() == 64,
{
    sha2::Sha512::digest(data).to_vec()
}

/// The digest of `data` under the algorithm named `algo` (meaningful for a
/// supported name).
pub open spec fn hash_digest(algo: Seq<char>, data: Seq<u8>) -> Seq<u8> {
    if algo == "sha-256"@ {
        sha256_digest(data)
    } else if algo == "sha-384"@ {
        sha384_digest(data)
    } else {
        sha512_digest(data)
    }
}

/// The digest length of a supported algorithm.
pub open spec fn digest_len(algo: Seq<char>) -> nat {
    if algo == "sha-256"@ {
        32
    } else if algo == "sha-384"@ {
        48
    } else {
        64
    }
}

/// The message of the error for an unsupported hash algorithm.
pub open spec fn unsupported_hash_text(algo: Seq<char>) -> Seq<char> {
    "unsupported hash algorithm '"@ + algo
        + "' for cca-realm-public-key-hash-algo-id; expected sha-256, sha-384, or sha-512"@
}

/// Whether `r` is what hashing `data` under the algorithm named `algo`
/// gives: the digest (of the algorithm's length) for a supported name, the
/// unsupported-algorithm error otherwise.
pub open spec fn hash_outcome(data: Seq<u8>, algo: Seq<char>, r: Result<Vec<u8>, CcaError>) -> bool {
    &&& r is Ok <==> supported_hash_alg(algo)
    &&& r matches Ok(h) ==> h@ == hash_digest(algo, data) && h@.len() == digest_len(algo)
    &&& r matches Err(e) ==> e matches CcaError::Custom(m) && m@ == unsupported_hash_text(algo)
}

/// Hash `data` using the algorithm named in `algo` (`"sha-256"`,
/// `"sha-384"` or `"sha-512"`); any other name is an error.
pub fn compute_hash(data: &[u8], algo: &str) -> (r: Result<Vec<u8>, CcaError>)
    ensures
        hash_outcome(data@, algo@, r),
{
    if str_eq(algo, "sha-256") {
        Ok(sha256(data))
    } else if str_eq(algo, "sha-384") {
        Ok(sha384(data))
    } else if str_eq(algo, "sha-512") {
        Ok(sha512(data))
    } else {
        Err(
            CcaError::Custom(
                concat3(
                    "unsupported hash algorithm '",
                    algo,
                    "' for cca-realm-public-key-hash-algo-id; expected sha-256, sha-384, or sha-512",
                ),
            ),
        )
    }
}

/// Each algorithm name gives its own digest of the data itself:
/// `"sha-256"` the SHA-256 digest (32 bytes), `"sha-384"` the SHA-384 digest
/// (48 bytes), `"sha-512"` the SHA-512 digest (64 bytes).
pub proof fn lemma_compute_hash_per_algorithm(data: Seq<u8>, algo: Seq<char>, r: Result<Vec<u8>, CcaError>)
    requires
        hash_outcome(data, algo, r),
    ensures
        algo == "sha-256"@ ==> (r matches Ok(h) && h@ == sha256_digest(data) && h@.len() == 32),
        algo == "sha-384"@ ==> (r matches Ok(h) && h@ == sha384_digest(data) && h@.len() == 48),
        algo == "sha-512"@ ==> (r matches Ok(h) && h@ == sha512_digest(data) && h@.len() == 64),
{
    reveal_strlit("sha-256");
    reveal_strlit("sha-384");
    reveal_strlit("sha-512");
    assert("sha-384"@[4] != "sha-256"@[4]);
    assert("sha-512"@[4] != "sha-256"@[4]);
    assert("sha-512"@[4] != "sha-384"@[4]);
}

/// Hashing is deterministic: two hashes of the same data under the same
/// algorithm name give the same digest, or the same error.
pub proof fn lemma_compute_hash_deterministic(
    data: Seq<u8>,
    algo: Seq<char>,
    r1: Result<Vec<u8>, CcaError>,
    r2: Result<Vec<u8>, CcaError>,
)
    requires
        hash_outcome(data, algo, r1),
        hash_outcome(data, algo, r2),
    ensures
        r1 is Ok <==> r2 is Ok,
        r1 is Ok ==> r1->Ok_0@ == r2->Ok_0@,
        r1 matches Err(CcaError::Custom(m1)) ==> r2 matches Err(CcaError::Custom(m2)) && m1@
            == m2@,
{
}

// ---------------------------------------------------------------------------
// P-384 keys
// ---------------------------------------------------------------------------

/// Whether `secret` is the big-endian encoding of a valid (non-zero,
/// in-range) P-384 scalar whose public point has the SEC1 uncompressed
/// encoding `public`.
pub uninterp spec fn p384_key_pair(secret: Seq<u8>, public: Seq<u8>) -> bool;

/// A P-384 ECDSA signing key: the secret scalar together with its public
/// point.  The key is identified by the public point (SEC1 uncompressed
/// encoding), which determines the secret.
pub struct P384SigningKey {
    secret: Vec<u8>,
    public: Vec<u8>,
}

impl View for P384SigningKey {
    type V = Seq<u8>;

    closed spec fn view(&self) -> Seq<u8> {
        self.public@
    }
}

impl P384SigningKey {
    #[verifier::type_invariant]
    closed spec fn well_formed(self) -> bool {
        p384_key_pair(self.secret@, self.public@) && is_uncompressed_p384_point(self.public@)
    }

    /// A fresh key drawn from the operating system's random source; its
    /// public point is in SEC1 uncompressed form (`0x04`, then the 48-byte
    /// x and y coordinates).
    pub fn random() -> (r: Self)
        ensures
            is_uncompressed_p384_point(r@),
    {
        let (secret, public) = random_key_pair();
        P384SigningKey { secret, public }
    }

    /// The SEC1 uncompressed encoding of the public point.
    pub fn public_point(&self) -> (r: &Vec<u8>)
        ensures
            r@ == self@,
    {
        &self.public
    }
}

/// `SigningKey::random` over the operating system's RNG, returned as
/// `(to_bytes(), verifying_key().to_encoded_point(false))`: the two halves
/// form a [`p384_key_pair`], and the public point, never the identity for a
/// verifying key, is in SEC1 uncompressed form (tag `0x04`, then x and y);
/// nothing else is known of the key drawn.
#[verifier::external_body]
fn random_key_pair() -> (r: (Vec<u8>, Vec<u8>))
    ensures
        p384_key_pair(r.0@, r.1@),
        is_uncompressed_p384_point(r.1@),
{
    let key = SigningKey::random(&mut rand_core::OsRng);
    let public = key.verifying_key().to_encoded_point(false).as_bytes().to_vec();
    (key.to_bytes().to_vec(), public)
}

/// Whether `JwkEcKey::from_str` accepts the text.
pub uninterp spec fn jwk_text_parses(text: Seq<char>) -> bool;

/// `JwkEcKey::from_str`: succeeds exactly where [`jwk_text_parses`] says so;
/// the error comes back as its text.
#[verifier::external_body]
fn parse_jwk(text: &str) -> (r: Result<(), String>)
    ensures
        r is Ok <==> jwk_text_parses(text@),
{
    text.parse::<p384::elliptic_curve::JwkEcKey>().map(|_| ()).map_err(|e| e.to_string())
}

/// The key that `SecretKey::from_jwk` makes of the JWK in `text`, as its
/// secret scalar bytes and the SEC1 uncompressed encoding of its public
/// point; `None` where parsing or the conversion reports an error.
pub uninterp spec fn jwk_key_pair(text: Seq<char>) -> Option<(Seq<u8>, Seq<u8>)>;

/// `JwkEcKey::from_str` then `SecretKey::from_jwk`, returned as
/// `(to_bytes(), public point)`: the outcome is [`jwk_key_pair`] of the
/// text, the two halves form a [`p384_key_pair`], and the public point (of
/// a secret key, never the identity) is in SEC1 uncompressed form; the error
/// comes back as its text.
#[verifier::external_body]
fn key_pair_from_jwk(text: &str) -> (r: Result<(Vec<u8>, Vec<u8>), String>)
    ensures
        r is Ok <==> jwk_key_pair(text@) is Some,
        r matches Ok(k) ==> jwk_key_pair(text@) == Some((k.0@, k.1@)) && p384_key_pair(k.0@, k.1@)
            && is_uncompressed_p384_point(k.1@),
{
    let jwk = text.parse::<p384::elliptic_curve::JwkEcKey>().map_err(|e| e.to_string())?;
    let secret = p384::SecretKey::from_jwk(&jwk).map_err(|e| e.to_string())?;
    let public = secret.public_key().to_encoded_point(false).as_bytes().to_vec();
    Ok((secret.to_bytes().to_vec(), public))
}

/// Whether the JWK text loads as a P-384 private key.
pub open spec fn jwk_loads(text: Seq<char>) -> bool {
    jwk_text_parses(text) && jwk_key_pair(text) is Some
}

/// The public point of the P-384 key in the JWK text.
pub open spec fn jwk_public_point(text: Seq<char>) -> Seq<u8> {
    jwk_key_pair(text)->Some_0.1
}

/// Load a P-384 JWK private key from its JSON text; `label` names the key
/// in error messages.
pub fn load_p384_jwk(jwk_json: &str, label: &str) -> (r: Result<P384SigningKey, CcaError>)
    ensures
        r is Ok <==> jwk_loads(jwk_json@),
        r matches Ok(k) ==> k@ == jwk_public_point(jwk_json@),
        !jwk_text_parses(jwk_json@) ==> (r matches Err(CcaError::Custom(m)) && starts_with(
            m@,
            "parsing "@ + label@ + " JWK: "@,
        )),
        jwk_text_parses(jwk_json@) && jwk_key_pair(jwk_json@) is None ==> (r matches Err(
            CcaError::Custom(m),
        ) && starts_with(m@, label@ + " JWK to secret key: "@)),
{
    match parse_jwk(jwk_json) {
        Ok(()) => {},
        Err(e) => {
            let prefix = concat3("parsing ", label, " JWK: ");
            let m = concat3(prefix.as_str(), e.as_str(), "");
            proof {
                reveal_strlit("parsing ");
                reveal_strlit(" JWK: ");
                reveal_strlit("");
                assert(m@.subrange(0, prefix@.len() as int) =~= prefix@);
            }
            return Err(CcaError::Custom(m));
        },
    }
    match key_pair_from_jwk(jwk_json) {
        Ok((secret, public)) => Ok(P384SigningKey { secret, public }),
        Err(e) => {
            let prefix = concat3(label, " JWK to secret key: ", "");
            let m = concat3(prefix.as_str(), e.as_str(), "");
            proof {
                reveal_strlit(" JWK to secret key: ");
                reveal_strlit("");
                assert(prefix@ =~= label@ + " JWK to secret key: "@);
                assert(m@.subrange(0, prefix@.len() as int) =~= prefix@);
            }
            Err(CcaError::Custom(m))
        },
    }
}

// ---------------------------------------------------------------------------
// COSE
// ---------------------------------------------------------------------------

/// The ES384 signature (ECDSA P-384 with SHA-384, deterministic nonce per
/// RFC 6979, fixed-size `r || s` bytes) of `msg` by the key whose public
/// point is `key`.
pub uninterp spec fn es384_signature(key: Seq<u8>, msg: Seq<u8>) -> Seq<u8>;

/// `SigningKey::from_slice` of the secret (which the key pair guarantees to
/// succeed) then `Signer::sign`, as bytes: the signature is
/// [`es384_signature`] of the key and message, 96 bytes (`r` and `s`, 48
/// bytes each).
#[verifier::external_body]
fn es384_sign(key: &P384SigningKey, msg: &[u8]) -> (r: Vec<u8>)
    requires
        p384_key_pair(key.secret@, key.public@),
    ensures
        r@ == es384_signature(key@, msg@),
        r@.len() == 96,
{
    let signing_key = SigningKey::from_slice(&key.secret).expect("a valid P-384 scalar");
    let sig: p384::ecdsa::Signature = signing_key.sign(msg);
    sig.to_bytes().to_vec()
}

/// The COSE header `{1 (alg): -35 (ES384)}`.
pub open spec fn es384_header() -> CborModel {
    CborModel::Dict(seq![(CborModel::Uint(1), CborModel::Neg(34))])
}

/// The protected header of an ES384 COSE_Sign1: the encoded
/// [`es384_header`].
pub open spec fn es384_protected() -> Seq<u8> {
    cbor_encoding(es384_header())
}

/// The COSE `Sig_structure` that an ES384 COSE_Sign1 over `payload` signs:
/// `["Signature1", protected header, empty external AAD, payload]`.
pub open spec fn cose_sign1_tbs(payload: Seq<u8>) -> Seq<u8> {
    cbor_encoding(
        CborModel::Array(
            seq![
                CborModel::Text("Signature1"@),
                CborModel::Bytes(es384_protected()),
                CborModel::Bytes(Seq::empty()),
                CborModel::Bytes(payload),
            ],
        ),
    )
}

/// The tagged COSE_Sign1 (tag 18) `[protected header, {}, payload,
/// signature]`.
pub open spec fn cose_sign1_model(payload: Seq<u8>, signature: Seq<u8>) -> CborModel {
    CborModel::Tag(
        18,
        Box::new(
            CborModel::Array(
                seq![
                    CborModel::Bytes(es384_protected()),
                    CborModel::Dict(Seq::empty()),
                    CborModel::Bytes(payload),
                    CborModel::Bytes(signature),
                ],
            ),
        ),
    )
}

/// `coset::sig_structure_data` for a COSE_Sign1 with protected header
/// `{alg: ES384}` and empty external AAD: the bytes are
/// [`cose_sign1_tbs`] of the payload (coset serialises with `ciborium`).
#[verifier::external_body]
fn sign1_to_be_signed(payload: &[u8]) -> (r: Vec<u8>)
    ensures
        r@ == cose_sign1_tbs(payload@),
{
    let header = coset::HeaderBuilder::new().algorithm(coset::iana::Algorithm::ES384).build();
    let protected = coset::ProtectedHeader { original_data: None, header };
    coset::sig_structure_data(coset::SignatureContext::CoseSign1, protected, None, b"", payload)
}

/// `CoseSign1Builder` with protected header `{alg: ES384}`, the payload and
/// the signature, then `to_tagged_vec`: the bytes are the encoding of
/// [`cose_sign1_model`] (which they decode back to alone, CBOR items being
/// self-delimiting), and the call succeeds (it only fails where `ciborium`
/// fails to write into a `Vec`, which does not happen).
#[verifier::external_body]
fn sign1_tagged(payload: &[u8], signature: Vec<u8>) -> (r: Result<Vec<u8>, String>)
    ensures
        r is Ok,
        r matches Ok(b) ==> b@ == cbor_encoding(cose_sign1_model(payload@, signature@)) && b@.len()
            > 0,
        r matches Ok(b) ==> forall|w: CborModel| #[trigger] cbor_encoding(w) == b@ ==> w
            == cose_sign1_model(payload@, signature@),
{
    let header = coset::HeaderBuilder::new().algorithm(coset::iana::Algorithm::ES384).build();
    coset::CoseSign1Builder::new().protected(header).payload(payload.to_vec()).signature(
        signature,
    ).build().to_tagged_vec().map_err(|e| e.to_string())
}

/// The COSE_Sign1 (tag 18) over `payload` signed with ES384 by the key with
/// public point `key`.
pub open spec fn cose_sign1(payload: Seq<u8>, key: Seq<u8>) -> Seq<u8> {
    cbor_encoding(cose_sign1_model(payload, es384_signature(key, cose_sign1_tbs(payload))))
}

/// Whether `r` is what signing `payload` with the key whose public point is
/// `key` gives: always the COSE_Sign1, never empty, whose signature is 96
/// bytes, and no other CBOR item has its bytes.
pub open spec fn sign_outcome(payload: Seq<u8>, key: Seq<u8>, r: Result<Vec<u8>, CcaError>) -> bool {
    &&& r matches Ok(b) && b@ == cose_sign1(payload, key) && b@.len() > 0
    &&& es384_signature(key, cose_sign1_tbs(payload)).len() == 96
    &&& encodes_uniquely(cose_sign1_model(payload, es384_signature(key, cose_sign1_tbs(payload))))
}

/// Create a COSE_Sign1 (CBOR tag 18) over `payload` signed with `key`,
/// using ES384 with deterministic nonces (RFC 6979).
pub fn sign_cose_sign1(payload: &[u8], key: &P384SigningKey) -> (r: Result<Vec<u8>, CcaError>)
    ensures
        sign_outcome(payload@, key@, r),
{
    let tbs = sign1_to_be_signed(payload);
    proof {
        use_type_invariant(key);
    }
    let signature = es384_sign(key, &tbs);
    match sign1_tagged(payload, signature) {
        Ok(b) => Ok(b),
        Err(e) => Err(CcaError::Custom(concat3("COSE_Sign1 serialize: ", e.as_str(), ""))),
    }
}

/// The COSE_Key `{1 (kty): 2 (EC2), 3 (alg): -35 (ES384), -1 (crv): 2
/// (P-384), -2 (x): x, -3 (y): y}`, in that order.
pub open spec fn cose_p384_key(x: Seq<u8>, y: Seq<u8>) -> CborModel {
    CborModel::Dict(
        seq![
            (CborModel::Uint(1), CborModel::Uint(2)),
            (CborModel::Uint(3), CborModel::Neg(34)),
            (CborModel::Neg(0), CborModel::Uint(2)),
            (CborModel::Neg(1), CborModel::Bytes(x)),
            (CborModel::Neg(2), CborModel::Bytes(y)),
        ],
    )
}

/// `CoseKeyBuilder::new_ec2_pub_key(P_384, x, y).algorithm(ES384)` then
/// `to_vec`: the bytes are the encoding of [`cose_p384_key`], and the call
/// succeeds (the parameters hold no duplicate label, and `ciborium` does not
/// fail to write into a `Vec`).
#[verifier::external_body]
fn cose_key_bytes(x: &[u8], y: &[u8]) -> (r: Result<Vec<u8>, String>)
    ensures
        r is Ok,
        r matches Ok(b) ==> b@ == cbor_encoding(cose_p384_key(x@, y@)) && b@.len() > 0,
{
    coset::CoseKeyBuilder::new_ec2_pub_key(
        coset::iana::EllipticCurve::P_384,
        x.to_vec(),
        y.to_vec(),
    ).algorithm(coset::iana::Algorithm::ES384).build().to_vec().map_err(|e| e.to_string())
}

/// Whether `point` is a SEC1 uncompressed P-384 point (0x04, then the 48-byte
/// x and y coordinates).
pub open spec fn is_uncompressed_p384_point(point: Seq<u8>) -> bool {
    point.len() == 97 && point[0] == 4
}

/// The COSE_Key of the public key with public point `point`: the encoding of
/// [`cose_p384_key`] of its x and y coordinates.
pub open spec fn rak_cose_key(point: Seq<u8>) -> Option<Seq<u8>> {
    if is_uncompressed_p384_point(point) {
        Some(cbor_encoding(cose_p384_key(point.subrange(1, 49), point.subrange(49, 97))))
    } else {
        None
    }
}

/// Copies `v[from..to]`.
fn copy_range(v: &Vec<u8>, from: usize, to: usize) -> (r: Vec<u8>)
    requires
        from <= to <= v@.len(),
    ensures
        r@ == v@.subrange(from as int, to as int),
{
    let mut r: Vec<u8> = Vec::new();
    let mut i: usize = from;
    while i < to
        invariant
            from <= i <= to <= v@.len(),
            r@ == v@.subrange(from as int, i as int),
        decreases to - i,
    {
        r.push(v[i]);
        i = i + 1;
    }
    r
}

/// Whether `r` is what building the COSE_Key of the key with public point
/// `rak` gives: always that COSE_Key, never empty.
pub open spec fn cose_key_outcome(rak: Seq<u8>, r: Result<Vec<u8>, CcaError>) -> bool {
    r matches Ok(b) && rak_cose_key(rak) == Some(b@) && b@.len() > 0
}

/// Build a COSE_Key (CBOR-encoded) from the public part of a P-384 signing
/// key: the EC2 key `{kty: EC2, alg: ES384, crv: P-384, x, y}`.
pub fn build_rak_cose_key(rak: &P384SigningKey) -> (r: Result<Vec<u8>, CcaError>)
    ensures
        is_uncompressed_p384_point(rak@),
        cose_key_outcome(rak@, r),
{
    proof {
        use_type_invariant(rak);
    }
    let point = rak.public_point();
    if point.len() != 97 || point[0] != 4 {
        return Err(CcaError::custom("RAK public key x coordinate"));
    }
    let x = copy_range(point, 1, 49);
    let y = copy_range(point, 49, 97);
    match cose_key_bytes(x.as_slice(), y.as_slice()) {
        Ok(b) => Ok(b),
        Err(e) => Err(CcaError::Custom(concat3("COSE_Key CBOR: ", e.as_str(), ""))),
    }
}

/// Signing is deterministic (RFC 6979 nonces): two COSE_Sign1 objects over
/// the same payload with the same key are the same bytes.
pub proof fn lemma_sign_cose_sign1_deterministic(
    payload: Seq<u8>,
    key: Seq<u8>,
    r1: Result<Vec<u8>, CcaError>,
    r2: Result<Vec<u8>, CcaError>,
)
    requires
        sign_outcome(payload, key, r1),
        sign_outcome(payload, key, r2),
    ensures
        r1->Ok_0@ == r2->Ok_0@,
{
}

/// The RAK's COSE_Key is a function of its public point: building it twice
/// gives the same bytes.
pub proof fn lemma_build_rak_cose_key_deterministic(
    rak: Seq<u8>,
    r1: Result<Vec<u8>, CcaError>,
    r2: Result<Vec<u8>, CcaError>,
)
    requires
        cose_key_outcome(rak, r1),
        cose_key_outcome(rak, r2),
    ensures
        r1->Ok_0@ == r2->Ok_0@,
{
}

/// Different payloads give different COSE_Sign1 objects: the payload is
/// carried in the object, which decodes back to itself alone.
pub proof fn lemma_sign_cose_sign1_different_payloads(
    p1: Seq<u8>,
    p2: Seq<u8>,
    key: Seq<u8>,
    r1: Result<Vec<u8>, CcaError>,
    r2: Result<Vec<u8>, CcaError>,
)
    requires
        sign_outcome(p1, key, r1),
        sign_outcome(p2, key, r2),
        p1 != p2,
    ensures
        r1->Ok_0@ != r2->Ok_0@,
{
    let s1 = cose_sign1_model(p1, es384_signature(key, cose_sign1_tbs(p1)));
    let s2 = cose_sign1_model(p2, es384_signature(key, cose_sign1_tbs(p2)));
    if r1->Ok_0@ == r2->Ok_0@ {
        assert(cbor_encoding(s2) == cbor_encoding(s1));
        assert(s1 == s2);
        assert(s1->Tag_1->Array_0[2] == s2->Tag_1->Array_0[2]);
    }
}

} // verus!
