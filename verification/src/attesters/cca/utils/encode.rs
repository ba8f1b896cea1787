//! CCA token construction from typed claims: the claims are checked,
//! converted into CBOR maps, signed into two COSE_Sign1 objects (platform and
//! realm) and wrapped in CBOR tag 399.
use vstd::prelude::*;
use vstd::slice::slice_to_vec;
use crate::attesters::cca::CcaError;
use crate::text::{concat3, decimal, hex, starts_with, u64_to_hex4, usize_to_decimal, zero_padded};
use super::cbor::{
    Cbor, CborModel, cbor_encode, cbor_encoding, encodes_uniquely, entries_model, keyed,
    lemma_dict_model, map_value, value_from,
};
use super::constants::{
    CCA_PLATFORM_TOKEN_KEY, CCA_REALM_TOKEN_KEY, CCA_TOKEN_TAG, PLAT_CHALLENGE, REALM_CHALLENGE,
    REALM_PUBLIC_KEY,
};
use super::crypto::{
    P384SigningKey, build_rak_cose_key, compute_hash, cose_sign1, cose_sign1_model,
    cose_sign1_tbs, es384_signature, hash_digest,
    is_supported_hash_alg, jwk_loads, jwk_public_point, load_p384_jwk, rak_cose_key,
    is_uncompressed_p384_point, sign_cose_sign1, supported_hash_alg, unsupported_hash_text,
};
use super::types::{
    CcaToken, CcaTokenView, PlatformClaims, PlatformClaimsView, RealmClaims, RealmClaimsView,
    SwComponentView,
    lemma_platform_claims_keys, lemma_realm_claims_keys, platform_claims_cbor, realm_claims_cbor,
};

verus! {

/// `ccatoken::token::is_valid_measurement`: a measurement is 32, 48 or 64
/// bytes long.
pub assume_specification[ ccatoken::token::is_valid_measurement ](value: &[u8]) -> (r: bool)
    ensures
        r == (value@.len() == 32 || value@.len() == 48 || value@.len() == 64),
;

/// `ccatoken::token::is_valid_lifecycle`: the lifecycle lies in one of the
/// ranges `0x0000..=0x00ff`, `0x1000..=0x10ff`, ..., `0x6000..=0x60ff`.
pub assume_specification[ ccatoken::token::is_valid_lifecycle ](value: i128) -> (r: bool)
    ensures
        r == ((0x0000 <= value <= 0x00ff) || (0x1000 <= value <= 0x10ff) || (0x2000 <= value
            <= 0x20ff) || (0x3000 <= value <= 0x30ff) || (0x4000 <= value <= 0x40ff) || (0x5000
            <= value <= 0x50ff) || (0x6000 <= value <= 0x60ff)),
;

/// A measurement (or signer ID) is 32, 48 or 64 bytes long.
pub open spec fn valid_measurement(m: Seq<u8>) -> bool {
    m.len() == 32 || m.len() == 48 || m.len() == 64
}

/// The platform lifecycle values that the CCA token specification allows.
pub open spec fn valid_lifecycle(v: int) -> bool {
    (0x0000 <= v <= 0x00ff) || (0x1000 <= v <= 0x10ff) || (0x2000 <= v <= 0x20ff) || (0x3000
        <= v <= 0x30ff) || (0x4000 <= v <= 0x40ff) || (0x5000 <= v <= 0x50ff) || (0x6000 <= v
        <= 0x60ff)
}

/// The platform claims that a token may carry: a valid lifecycle, a
/// supported hash algorithm (when one is named), and valid measurement and
/// signer-ID lengths for every software component.
pub open spec fn platform_claims_valid(p: PlatformClaimsView) -> bool {
    &&& valid_lifecycle(p.lifecycle as int)
    &&& (p.hash_algo_id matches Some(a) ==> supported_hash_alg(a))
    &&& forall|i: int|
        0 <= i < p.sw_components.len() ==> valid_measurement(
            (#[trigger] p.sw_components[i]).measurement_value,
        ) && valid_measurement(p.sw_components[i].signer_id)
}

/// The realm claims that a token may carry: valid initial and extensible
/// measurement lengths and supported hash algorithms.
pub open spec fn realm_claims_valid(r: RealmClaimsView) -> bool {
    &&& valid_measurement(r.initial_measurement)
    &&& forall|i: int|
        0 <= i < r.extensible_measurements.len() ==> valid_measurement(
            #[trigger] r.extensible_measurements[i],
        )
    &&& supported_hash_alg(r.hash_algo_id)
    &&& supported_hash_alg(r.public_key_hash_algo_id)
}

/// The message for the first software component (from index `i` on) whose
/// measurement value or signer ID has an invalid length; `None` when all
/// of them are valid.
pub open spec fn components_check(comps: Seq<SwComponentView>, i: nat) -> Option<Seq<char>>
    decreases comps.len() - i,
{
    if i >= comps.len() {
        None
    } else if !valid_measurement(comps[i as int].measurement_value) {
        Some(
            "sw component "@ + decimal(i) + ": invalid measurement length "@ + decimal(
                comps[i as int].measurement_value.len(),
            ),
        )
    } else if !valid_measurement(comps[i as int].signer_id) {
        Some(
            "sw component "@ + decimal(i) + ": invalid signer ID length "@ + decimal(
                comps[i as int].signer_id.len(),
            ),
        )
    } else {
        components_check(comps, i + 1)
    }
}

/// The message of the first platform check that fails, in the order:
/// lifecycle, hash algorithm, software components; `None` when all pass.
pub open spec fn platform_check(p: PlatformClaimsView) -> Option<Seq<char>> {
    if !valid_lifecycle(p.lifecycle as int) {
        Some("invalid lifecycle value 0x"@ + zero_padded(hex(p.lifecycle as nat), 4))
    } else if p.hash_algo_id matches Some(a) && !supported_hash_alg(a) {
        Some("platform: unsupported hash algorithm '"@ + p.hash_algo_id->Some_0 + "'"@)
    } else {
        components_check(p.sw_components, 0)
    }
}

/// The message for the first extensible measurement (from index `i` on)
/// with an invalid length; `None` when all of them are valid.
pub open spec fn extensible_check(ms: Seq<Seq<u8>>, i: nat) -> Option<Seq<char>>
    decreases ms.len() - i,
{
    if i >= ms.len() {
        None
    } else if !valid_measurement(ms[i as int]) {
        Some(
            "extensible measurement "@ + decimal(i) + ": invalid length "@ + decimal(
                ms[i as int].len(),
            ),
        )
    } else {
        extensible_check(ms, i + 1)
    }
}

/// The message of the first realm check that fails, in the order: initial
/// measurement, extensible measurements, hash algorithm, public-key hash
/// algorithm; `None` when all pass.
pub open spec fn realm_check(r: RealmClaimsView) -> Option<Seq<char>> {
    if !valid_measurement(r.initial_measurement) {
        Some("invalid initial measurement length "@ + decimal(r.initial_measurement.len()))
    } else if extensible_check(r.extensible_measurements, 0) is Some {
        extensible_check(r.extensible_measurements, 0)
    } else if !supported_hash_alg(r.hash_algo_id) {
        Some("realm: unsupported hash algorithm '"@ + r.hash_algo_id + "'"@)
    } else if !supported_hash_alg(r.public_key_hash_algo_id) {
        Some("realm: unsupported public key hash algo '"@ + r.public_key_hash_algo_id + "'"@)
    } else {
        None
    }
}

/// A check over the components from index `i` on passes exactly when each
/// of them has valid lengths.
pub proof fn lemma_components_check(comps: Seq<SwComponentView>, i: nat)
    ensures
        components_check(comps, i) is None <==> forall|j: int|
            i <= j < comps.len() ==> valid_measurement((#[trigger] comps[j]).measurement_value)
                && valid_measurement(comps[j].signer_id),
    decreases comps.len() - i,
{
    if i < comps.len() {
        lemma_components_check(comps, i + 1);
    }
}

/// A check over the extensible measurements from index `i` on passes
/// exactly when each of them has a valid length.
pub proof fn lemma_extensible_check(ms: Seq<Seq<u8>>, i: nat)
    ensures
        extensible_check(ms, i) is None <==> forall|j: int|
            i <= j < ms.len() ==> valid_measurement(#[trigger] ms[j]),
    decreases ms.len() - i,
{
    if i < ms.len() {
        lemma_extensible_check(ms, i + 1);
    }
}

/// The platform checks pass exactly for valid platform claims.
pub proof fn lemma_platform_check(p: PlatformClaimsView)
    ensures
        platform_check(p) is None <==> platform_claims_valid(p),
{
    lemma_components_check(p.sw_components, 0);
}

/// The realm checks pass exactly for valid realm claims.
pub proof fn lemma_realm_check(r: RealmClaimsView)
    ensures
        realm_check(r) is None <==> realm_claims_valid(r),
{
    lemma_extensible_check(r.extensible_measurements, 0);
}

/// Checks the platform claims before encoding: the first check that fails
/// gives the error.
pub fn validate_platform(p: &PlatformClaims) -> (r: Result<(), CcaError>)
    ensures
        match platform_check(p@) {
            None => r is Ok,
            Some(m) => r matches Err(CcaError::Custom(x)) && x@ == m,
        },
        r is Ok <==> platform_claims_valid(p@),
{
    proof {
        lemma_platform_check(p@);
        reveal_strlit("invalid lifecycle value 0x");
        reveal_strlit("");
        reveal_strlit("'");
        reveal_strlit("platform: unsupported hash algorithm '");
    }
    if !ccatoken::token::is_valid_lifecycle(p.lifecycle as i128) {
        let m = concat3("invalid lifecycle value 0x", u64_to_hex4(p.lifecycle).as_str(), "");
        return Err(CcaError::Custom(m));
    }
    match &p.hash_algo_id {
        Some(algo) => {
            if !is_supported_hash_alg(algo.as_str()) {
                return Err(
                    CcaError::Custom(concat3("platform: unsupported hash algorithm '", algo.as_str(), "'")),
                );
            }
        },
        None => {},
    }
    let ghost comps = p@.sw_components;
    for i in 0..p.sw_components.len()
        invariant
            comps == p@.sw_components,
            comps.len() == p.sw_components@.len(),
            platform_check(p@) == components_check(comps, 0),
            components_check(comps, 0) == components_check(comps, i as nat),
    {
        let c = &p.sw_components[i];
        assert(comps[i as int] == c@);
        if !ccatoken::token::is_valid_measurement(c.measurement_value.as_slice()) {
            let mut m = concat3("sw component ", usize_to_decimal(i).as_str(), ": invalid measurement length ");
            m.append(usize_to_decimal(c.measurement_value.len()).as_str());
            proof {
                reveal_strlit("sw component ");
                reveal_strlit(": invalid measurement length ");
                assert(!valid_measurement(comps[i as int].measurement_value));
                assert(components_check(comps, i as nat) == Some(m@));
            }
            return Err(CcaError::Custom(m));
        }
        if !ccatoken::token::is_valid_measurement(c.signer_id.as_slice()) {
            let mut m = concat3("sw component ", usize_to_decimal(i).as_str(), ": invalid signer ID length ");
            m.append(usize_to_decimal(c.signer_id.len()).as_str());
            proof {
                reveal_strlit("sw component ");
                reveal_strlit(": invalid signer ID length ");
                assert(!valid_measurement(comps[i as int].signer_id));
                assert(components_check(comps, i as nat) == Some(m@));
            }
            return Err(CcaError::Custom(m));
        }
    }
    Ok(())
}

/// Checks the realm claims before encoding: the first check that fails
/// gives the error.
pub fn validate_realm(r: &RealmClaims) -> (res: Result<(), CcaError>)
    ensures
        match realm_check(r@) {
            None => res is Ok,
            Some(m) => res matches Err(CcaError::Custom(x)) && x@ == m,
        },
        res is Ok <==> realm_claims_valid(r@),
{
    proof {
        lemma_realm_check(r@);
        reveal_strlit("invalid initial measurement length ");
        reveal_strlit("");
        reveal_strlit("'");
        reveal_strlit("realm: unsupported hash algorithm '");
        reveal_strlit("realm: unsupported public key hash algo '");
    }
    if !ccatoken::token::is_valid_measurement(r.initial_measurement.as_slice()) {
        return Err(
            CcaError::Custom(
                concat3(
                    "invalid initial measurement length ",
                    usize_to_decimal(r.initial_measurement.len()).as_str(),
                    "",
                ),
            ),
        );
    }
    let ghost ms = r@.extensible_measurements;
    for i in 0..r.extensible_measurements.len()
        invariant
            ms == r@.extensible_measurements,
            ms.len() == r.extensible_measurements@.len(),
            valid_measurement(r@.initial_measurement),
            extensible_check(ms, 0) == extensible_check(ms, i as nat),
    {
        let m = &r.extensible_measurements[i];
        assert(ms[i as int] == m@);
        if !ccatoken::token::is_valid_measurement(m.as_slice()) {
            let mut msg = concat3("extensible measurement ", usize_to_decimal(i).as_str(), ": invalid length ");
            msg.append(usize_to_decimal(m.len()).as_str());
            proof {
                reveal_strlit("extensible measurement ");
                reveal_strlit(": invalid length ");
                assert(!valid_measurement(ms[i as int]));
                assert(extensible_check(ms, i as nat) == Some(msg@));
            }
            return Err(CcaError::Custom(msg));
        }
    }
    if !is_supported_hash_alg(r.hash_algo_id.as_str()) {
        return Err(
            CcaError::Custom(concat3("realm: unsupported hash algorithm '", r.hash_algo_id.as_str(), "'")),
        );
    }
    if !is_supported_hash_alg(r.public_key_hash_algo_id.as_str()) {
        return Err(
            CcaError::Custom(
                concat3(
                    "realm: unsupported public key hash algo '",
                    r.public_key_hash_algo_id.as_str(),
                    "'",
                ),
            ),
        );
    }
    Ok(())
}

/// The outer CBOR value of a CCA token: tag 399 around the map
/// `{44234: platform COSE_Sign1, 44241: realm COSE_Sign1}`.
pub open spec fn cca_token_cbor(platform_cose: Seq<u8>, realm_cose: Seq<u8>) -> CborModel {
    CborModel::Tag(
        CCA_TOKEN_TAG,
        Box::new(
            CborModel::Dict(
                seq![
                    keyed(CCA_PLATFORM_TOKEN_KEY, CborModel::Bytes(platform_cose)),
                    keyed(CCA_REALM_TOKEN_KEY, CborModel::Bytes(realm_cose)),
                ],
            ),
        ),
    )
}

/// The bytes of the CCA token built from the claims, the IAK and RAK (by
/// their public points) and the nonce; `None` where the RAK's public point
/// has no COSE_Key (it is not in SEC1 uncompressed form, which no
/// [`P384SigningKey`] has).
///
/// The RAK's COSE_Key is the realm public key claim, its hash under the
/// realm's public-key hash algorithm is the platform challenge, and the nonce
/// is the realm challenge.  The platform payload is signed with the IAK, the
/// realm payload with the RAK.
pub open spec fn cca_token_bytes(
    p: PlatformClaimsView,
    r: RealmClaimsView,
    iak: Seq<u8>,
    rak: Seq<u8>,
    nonce: Seq<u8>,
) -> Option<Seq<u8>> {
    match rak_cose_key(rak) {
        None => None,
        Some(key) => Some(cca_token_of(p, r, iak, rak, nonce, key)),
    }
}

/// The bytes of the CCA token, given the RAK's COSE_Key `key`.
pub open spec fn cca_token_of(
    p: PlatformClaimsView,
    r: RealmClaimsView,
    iak: Seq<u8>,
    rak: Seq<u8>,
    nonce: Seq<u8>,
    key: Seq<u8>,
) -> Seq<u8> {
    let challenge = hash_digest(r.public_key_hash_algo_id, key);
    let pp = cbor_encoding(platform_claims_cbor(p, challenge));
    let rp = cbor_encoding(realm_claims_cbor(r, nonce, key));
    cbor_encoding(cca_token_cbor(cose_sign1(pp, iak), cose_sign1(rp, rak)))
}

/// Whether each layer of the token decodes back to itself alone: the two
/// payloads, the two COSE_Sign1 objects, and the token.
pub open spec fn token_decodes_uniquely(
    p: PlatformClaimsView,
    r: RealmClaimsView,
    iak: Seq<u8>,
    rak: Seq<u8>,
    nonce: Seq<u8>,
) -> bool {
    let key = rak_cose_key(rak)->Some_0;
    let challenge = hash_digest(r.public_key_hash_algo_id, key);
    let pp = cbor_encoding(platform_claims_cbor(p, challenge));
    let rp = cbor_encoding(realm_claims_cbor(r, nonce, key));
    &&& encodes_uniquely(platform_claims_cbor(p, challenge))
    &&& encodes_uniquely(cose_sign1_model(pp, es384_signature(iak, cose_sign1_tbs(pp))))
    &&& encodes_uniquely(realm_claims_cbor(r, nonce, key))
    &&& encodes_uniquely(cose_sign1_model(rp, es384_signature(rak, cose_sign1_tbs(rp))))
    &&& encodes_uniquely(cca_token_cbor(cose_sign1(pp, iak), cose_sign1(rp, rak)))
}

/// Whether `res` is what building the token gives: the token when the
/// claims pass the checks and the outside encoders and signer succeed, and
/// otherwise a `Custom` error: an unsupported realm public-key hash
/// algorithm is reported first, then the first failing platform check, then
/// the first failing realm check.  Encoding and signing never fail, so valid
/// claims with a RAK in SEC1 uncompressed form (as every
/// [`P384SigningKey`] has) always give a token.
pub open spec fn encode_outcome(
    p: PlatformClaimsView,
    r: RealmClaimsView,
    iak: Seq<u8>,
    rak: Seq<u8>,
    nonce: Seq<u8>,
    res: Result<Vec<u8>, CcaError>,
) -> bool {
    &&& res is Ok <==> platform_claims_valid(p) && realm_claims_valid(r) && rak_cose_key(rak) is Some
    &&& res matches Ok(b) ==> cca_token_bytes(p, r, iak, rak, nonce) == Some(b@) && b@.len() > 0
    &&& res is Ok ==> token_decodes_uniquely(p, r, iak, rak, nonce)
    &&& res matches Err(e) ==> e is Custom
    &&& rak_cose_key(rak) is Some ==> if !supported_hash_alg(r.public_key_hash_algo_id) {
        res matches Err(CcaError::Custom(m)) && m@ == unsupported_hash_text(
            r.public_key_hash_algo_id,
        )
    } else {
        match platform_check(p) {
            Some(m) => res matches Err(CcaError::Custom(x)) && x@ == m,
            None => realm_check(r) matches Some(m) ==> (res matches Err(CcaError::Custom(x)) && x@
                == m),
        }
    }
}

/// Build a full CCA token (CBOR tag 399) from typed claims and signing keys.
///
/// The caller's nonce is injected as the realm challenge, the RAK's COSE_Key
/// as the realm public key, and the platform challenge is the hash of that
/// COSE_Key (per the CCA specification).  Claims that fail the checks are
/// refused.
pub fn encode_cca_token(
    platform_claims: PlatformClaims,
    realm_claims: RealmClaims,
    iak: &P384SigningKey,
    rak: &P384SigningKey,
    nonce: &[u8],
) -> (r: Result<Vec<u8>, CcaError>)
    ensures
        encode_outcome(platform_claims@, realm_claims@, iak@, rak@, nonce@, r),
        is_uncompressed_p384_point(rak@),
        platform_claims_valid(platform_claims@) && realm_claims_valid(realm_claims@) ==> r is Ok,
{
    let ghost p0 = platform_claims@;
    let ghost r0 = realm_claims@;
    let mut pc = platform_claims;
    let mut rc = realm_claims;

    // The RAK COSE_Key, and the platform challenge derived from it.
    let rak_cose_key_bytes = match build_rak_cose_key(rak) {
        Ok(k) => k,
        Err(e) => return Err(e),
    };
    let platform_challenge = match compute_hash(
        rak_cose_key_bytes.as_slice(),
        rc.public_key_hash_algo_id.as_str(),
    ) {
        Ok(h) => h,
        Err(e) => return Err(e),
    };

    // Check the claims before encoding.
    match validate_platform(&pc) {
        Ok(()) => {},
        Err(e) => return Err(e),
    }
    match validate_realm(&rc) {
        Ok(()) => {},
        Err(e) => return Err(e),
    }

    // Inject the runtime fields.
    let ghost key = rak_cose_key_bytes@;
    pc.challenge = platform_challenge;
    rc.challenge = slice_to_vec(nonce);
    rc.public_key = rak_cose_key_bytes;
    assert(platform_claims_cbor(pc@, pc.challenge@) == platform_claims_cbor(
        p0,
        hash_digest(r0.public_key_hash_algo_id, key),
    ));
    assert(realm_claims_cbor(rc@, rc.challenge@, rc.public_key@) == realm_claims_cbor(
        r0,
        nonce@,
        key,
    ));

    // Convert the claims into CBOR maps and serialise them.
    let platform_payload_raw = Cbor::from(pc);
    let realm_payload_raw = Cbor::from(rc);
    let platform_payload = match cbor_encode(&platform_payload_raw) {
        Ok(b) => b,
        Err(e) => return Err(CcaError::Custom(concat3("platform payload CBOR: ", e.as_str(), ""))),
    };
    let realm_payload = match cbor_encode(&realm_payload_raw) {
        Ok(b) => b,
        Err(e) => return Err(CcaError::Custom(concat3("realm payload CBOR: ", e.as_str(), ""))),
    };

    // Sign both payloads.
    let platform_cose = match sign_cose_sign1(platform_payload.as_slice(), iak) {
        Ok(b) => b,
        Err(e) => return Err(e),
    };
    let realm_cose = match sign_cose_sign1(realm_payload.as_slice(), rak) {
        Ok(b) => b,
        Err(e) => return Err(e),
    };

    // Wrap in CBOR tag 399.
    let ghost pcose = platform_cose@;
    let ghost rcose = realm_cose@;
    let entries = vec![
        (Cbor::Uint(CCA_PLATFORM_TOKEN_KEY), Cbor::Bytes(platform_cose)),
        (Cbor::Uint(CCA_REALM_TOKEN_KEY), Cbor::Bytes(realm_cose)),
    ];
    proof {
        lemma_dict_model(entries);
        assert(entries_model(entries@) =~= seq![
            keyed(CCA_PLATFORM_TOKEN_KEY, CborModel::Bytes(pcose)),
            keyed(CCA_REALM_TOKEN_KEY, CborModel::Bytes(rcose)),
        ]);
    }
    let outer = Cbor::Tag(CCA_TOKEN_TAG, Box::new(Cbor::Dict(entries)));
    assert(outer@ == cca_token_cbor(pcose, rcose));
    match cbor_encode(&outer) {
        Ok(b) => Ok(b),
        Err(e) => Err(CcaError::Custom(concat3("CBOR encode: ", e.as_str(), ""))),
    }
}

} // verus!

verus! {

/// Token builder that holds the claims and the signing keys.
///
/// [`new`](SimulatedTokenBuilder::new) loads the keys from JWK text (and
/// draws a random RAK when none is given);
/// [`with_keys`](SimulatedTokenBuilder::with_keys) takes the keys directly.
/// Both delegate the construction to [`encode_cca_token`].
pub struct SimulatedTokenBuilder {
    platform_claims: PlatformClaims,
    realm_claims: RealmClaims,
    iak: P384SigningKey,
    rak: P384SigningKey,
}

impl SimulatedTokenBuilder {
    /// The claims the builder holds.
    pub closed spec fn claims_view(&self) -> CcaTokenView {
        CcaTokenView { platform: self.platform_claims@, realm: self.realm_claims@ }
    }

    /// The IAK's public point.
    pub closed spec fn iak_view(&self) -> Seq<u8> {
        self.iak@
    }

    /// The RAK's public point.
    pub closed spec fn rak_view(&self) -> Seq<u8> {
        self.rak@
    }

    /// Create a builder from parsed claims and the JWK texts of the keys.
    ///
    /// If `rak_jwk` is `None`, a random RAK is generated.
    pub fn new(claims: CcaToken, iak_jwk: &str, rak_jwk: Option<&str>) -> (r: Result<Self, CcaError>)
        ensures
            r is Ok <==> jwk_loads(iak_jwk@) && (rak_jwk matches Some(t) ==> jwk_loads(t@)),
            r matches Ok(b) ==> {
                &&& b.claims_view() == claims@
                &&& b.iak_view() == jwk_public_point(iak_jwk@)
                &&& rak_jwk matches Some(t) ==> b.rak_view() == jwk_public_point(t@)
            },
            !jwk_loads(iak_jwk@) ==> (r matches Err(CcaError::Custom(m)) && (starts_with(
                m@,
                "parsing IAK JWK: "@,
            ) || starts_with(m@, "IAK JWK to secret key: "@))),
            jwk_loads(iak_jwk@) ==> (rak_jwk matches Some(t) && !jwk_loads(t@) ==> (r matches Err(
                CcaError::Custom(m),
            ) && (starts_with(m@, "parsing RAK JWK: "@) || starts_with(
                m@,
                "RAK JWK to secret key: "@,
            )))),
    {
        proof {
            reveal_strlit("parsing ");
            reveal_strlit("IAK");
            reveal_strlit("RAK");
            reveal_strlit(" JWK: ");
            reveal_strlit(" JWK to secret key: ");
            reveal_strlit("parsing IAK JWK: ");
            reveal_strlit("parsing RAK JWK: ");
            reveal_strlit("IAK JWK to secret key: ");
            reveal_strlit("RAK JWK to secret key: ");
            assert("parsing "@ + "IAK"@ + " JWK: "@ =~= "parsing IAK JWK: "@);
            assert("parsing "@ + "RAK"@ + " JWK: "@ =~= "parsing RAK JWK: "@);
            assert("IAK"@ + " JWK to secret key: "@ =~= "IAK JWK to secret key: "@);
            assert("RAK"@ + " JWK to secret key: "@ =~= "RAK JWK to secret key: "@);
        }
        let iak = match load_p384_jwk(iak_jwk, "IAK") {
            Ok(k) => k,
            Err(e) => return Err(e),
        };
        let rak = match rak_jwk {
            Some(jwk) => match load_p384_jwk(jwk, "RAK") {
                Ok(k) => k,
                Err(e) => return Err(e),
            },
            None => P384SigningKey::random(),
        };
        Ok(SimulatedTokenBuilder {
            platform_claims: claims.platform,
            realm_claims: claims.realm,
            iak,
            rak,
        })
    }

    /// Create a builder from parsed claims and P-384 signing keys.  The RAK
    /// signs the realm token and its COSE_Key derives the platform challenge.
    pub fn with_keys(claims: CcaToken, iak: P384SigningKey, rak: P384SigningKey) -> (r: Result<
        Self,
        CcaError,
    >)
        ensures
            r matches Ok(b) && b.claims_view() == claims@ && b.iak_view() == iak@ && b.rak_view()
                == rak@,
    {
        Ok(SimulatedTokenBuilder {
            platform_claims: claims.platform,
            realm_claims: claims.realm,
            iak,
            rak,
        })
    }

    /// The platform claims the builder holds.
    pub fn platform_claims(&self) -> (r: &PlatformClaims)
        ensures
            r@ == self.claims_view().platform,
    {
        &self.platform_claims
    }

    /// The realm claims the builder holds.
    pub fn realm_claims(&self) -> (r: &RealmClaims)
        ensures
            r@ == self.claims_view().realm,
    {
        &self.realm_claims
    }

    /// The IAK.
    pub fn iak(&self) -> (r: &P384SigningKey)
        ensures
            r@ == self.iak_view(),
    {
        &self.iak
    }

    /// The RAK.
    pub fn rak(&self) -> (r: &P384SigningKey)
        ensures
            r@ == self.rak_view(),
    {
        &self.rak
    }

    /// The bytes that [`build_token`](SimulatedTokenBuilder::build_token)
    /// returns for `nonce`, when it succeeds.
    pub open spec fn spec_token(&self, nonce: Seq<u8>) -> Option<Seq<u8>> {
        cca_token_bytes(
            self.claims_view().platform,
            self.claims_view().realm,
            self.iak_view(),
            self.rak_view(),
            nonce,
        )
    }

    /// Whether `r` is what building the token for `nonce` gives: the token
    /// when the claims pass the checks and the outside encoders and signer
    /// succeed, a `Custom` error otherwise.
    pub open spec fn token_outcome(&self, nonce: Seq<u8>, r: Result<Vec<u8>, CcaError>) -> bool {
        encode_outcome(
            self.claims_view().platform,
            self.claims_view().realm,
            self.iak_view(),
            self.rak_view(),
            nonce,
            r,
        )
    }

    /// Build the CCA token for `nonce` from the held claims and keys.
    pub fn build_token(&self, nonce: &[u8]) -> (r: Result<Vec<u8>, CcaError>)
        ensures
            self.token_outcome(nonce@, r),
            is_uncompressed_p384_point(self.rak_view()),
            platform_claims_valid(self.claims_view().platform) && realm_claims_valid(
                self.claims_view().realm,
            ) ==> r is Ok,
    {
        encode_cca_token(
            self.platform_claims.clone(),
            self.realm_claims.clone(),
            &self.iak,
            &self.rak,
            nonce,
        )
    }
}

/// The content of a CBOR tag `tag`; `None` for any other item.
pub open spec fn tag_content(m: CborModel, tag: u64) -> Option<CborModel> {
    match m {
        CborModel::Tag(t, inner) => if t == tag {
            Some(*inner)
        } else {
            None
        },
        _ => None,
    }
}

/// The item at `i` of a tagged (tag 18) COSE_Sign1 array
/// `[protected, unprotected, payload, signature]`, when it is a byte string.
pub open spec fn sign1_field(m: CborModel, i: int) -> Option<Seq<u8>> {
    match tag_content(m, 18) {
        Some(CborModel::Array(items)) => if items.len() == 4 && items[i] is Bytes {
            Some(items[i]->Bytes_0)
        } else {
            None
        },
        _ => None,
    }
}

/// What a verifier finds in a built token: read the token as tag 399
/// around a map, take the platform and realm COSE_Sign1 objects under their
/// keys, and read their payloads as claim maps.  Then the realm challenge is
/// the nonce, the realm public key is the RAK's COSE_Key, the platform
/// challenge is the digest of that same realm public key under the realm's
/// public-key hash algorithm, the platform payload is signed by the IAK and
/// the realm payload by the RAK (ES384 over their `Sig_structure`), and the
/// other claims are those of the claims given.
pub proof fn lemma_token_binds_claims(
    p: PlatformClaimsView,
    r: RealmClaimsView,
    iak: Seq<u8>,
    rak: Seq<u8>,
    nonce: Seq<u8>,
    t: Result<Vec<u8>, CcaError>,
    token: CborModel,
    platform_cose: CborModel,
    realm_cose: CborModel,
    platform_payload: CborModel,
    realm_payload: CborModel,
)
    requires
        encode_outcome(p, r, iak, rak, nonce, t),
        t is Ok,
        cbor_encoding(token) == t->Ok_0@,
        tag_content(token, CCA_TOKEN_TAG) matches Some(body) && map_value(
            body,
            CCA_PLATFORM_TOKEN_KEY,
        ) == Some(CborModel::Bytes(cbor_encoding(platform_cose))) && map_value(
            body,
            CCA_REALM_TOKEN_KEY,
        ) == Some(CborModel::Bytes(cbor_encoding(realm_cose))),
        sign1_field(platform_cose, 2) == Some(cbor_encoding(platform_payload)),
        sign1_field(realm_cose, 2) == Some(cbor_encoding(realm_payload)),
    ensures
        rak_cose_key(rak) is Some,
        map_value(realm_payload, REALM_CHALLENGE) == Some(CborModel::Bytes(nonce)),
        map_value(realm_payload, REALM_PUBLIC_KEY) == Some(
            CborModel::Bytes(rak_cose_key(rak)->Some_0),
        ),
        map_value(platform_payload, PLAT_CHALLENGE) == Some(
            CborModel::Bytes(hash_digest(r.public_key_hash_algo_id, rak_cose_key(rak)->Some_0)),
        ),
        sign1_field(platform_cose, 3) == Some(
            es384_signature(iak, cose_sign1_tbs(cbor_encoding(platform_payload))),
        ),
        sign1_field(realm_cose, 3) == Some(
            es384_signature(rak, cose_sign1_tbs(cbor_encoding(realm_payload))),
        ),
        platform_payload == platform_claims_cbor(
            p,
            hash_digest(r.public_key_hash_algo_id, rak_cose_key(rak)->Some_0),
        ),
        realm_payload == realm_claims_cbor(r, nonce, rak_cose_key(rak)->Some_0),
{
    let key = rak_cose_key(rak)->Some_0;
    let challenge = hash_digest(r.public_key_hash_algo_id, key);
    let pm = platform_claims_cbor(p, challenge);
    let rm = realm_claims_cbor(r, nonce, key);
    let pp = cbor_encoding(pm);
    let rp = cbor_encoding(rm);
    let ps = cose_sign1_model(pp, es384_signature(iak, cose_sign1_tbs(pp)));
    let rs = cose_sign1_model(rp, es384_signature(rak, cose_sign1_tbs(rp)));
    let outer = cca_token_cbor(cbor_encoding(ps), cbor_encoding(rs));
    assert(token == outer);
    reveal_with_fuel(value_from, 3);
    let body = tag_content(token, CCA_TOKEN_TAG)->Some_0;
    assert(map_value(body, CCA_PLATFORM_TOKEN_KEY) == Some(CborModel::Bytes(cbor_encoding(ps))));
    assert(map_value(body, CCA_REALM_TOKEN_KEY) == Some(CborModel::Bytes(cbor_encoding(rs))));
    assert(platform_cose == ps);
    assert(realm_cose == rs);
    assert(platform_payload == pm);
    assert(realm_payload == rm);
    lemma_platform_claims_keys(p, challenge);
    lemma_realm_claims_keys(r, nonce, key);
}

/// Different nonces give different tokens: the nonce is the realm
/// challenge, and each layer that carries it decodes back to itself alone.
pub proof fn lemma_different_nonces_different_tokens(
    p: PlatformClaimsView,
    r: RealmClaimsView,
    iak: Seq<u8>,
    rak: Seq<u8>,
    n1: Seq<u8>,
    n2: Seq<u8>,
    t1: Result<Vec<u8>, CcaError>,
    t2: Result<Vec<u8>, CcaError>,
)
    requires
        encode_outcome(p, r, iak, rak, n1, t1),
        encode_outcome(p, r, iak, rak, n2, t2),
        t1 is Ok,
        t2 is Ok,
        n1 != n2,
    ensures
        t1->Ok_0@ != t2->Ok_0@,
{
    let key = rak_cose_key(rak)->Some_0;
    let challenge = hash_digest(r.public_key_hash_algo_id, key);
    let pp = cbor_encoding(platform_claims_cbor(p, challenge));
    let rp1 = cbor_encoding(realm_claims_cbor(r, n1, key));
    let rp2 = cbor_encoding(realm_claims_cbor(r, n2, key));
    let m1 = cca_token_cbor(cose_sign1(pp, iak), cose_sign1(rp1, rak));
    let m2 = cca_token_cbor(cose_sign1(pp, iak), cose_sign1(rp2, rak));
    if t1->Ok_0@ == t2->Ok_0@ {
        // The tokens decode to the same outer item, so the realm COSE_Sign1
        // objects agree, so the realm payloads agree, so the nonces agree.
        assert(cbor_encoding(m2) == cbor_encoding(m1));
        assert(m1 == m2);
        assert(m1->Tag_1->Dict_0[1] == m2->Tag_1->Dict_0[1]);
        assert(cose_sign1(rp1, rak) == cose_sign1(rp2, rak));
        let s1 = cose_sign1_model(rp1, es384_signature(rak, cose_sign1_tbs(rp1)));
        let s2 = cose_sign1_model(rp2, es384_signature(rak, cose_sign1_tbs(rp2)));
        assert(cbor_encoding(s2) == cbor_encoding(s1));
        assert(s1 == s2);
        assert(s1->Tag_1->Array_0[2] == s2->Tag_1->Array_0[2]);
        assert(rp1 == rp2);
        assert(realm_claims_cbor(r, n1, key) == realm_claims_cbor(r, n2, key));
        lemma_realm_payload_binds_nonce(r, n1, n2, key);
    }
}

/// The builder gives different tokens for different nonces.
pub proof fn lemma_build_token_different_nonces(
    b: SimulatedTokenBuilder,
    n1: Seq<u8>,
    n2: Seq<u8>,
    t1: Result<Vec<u8>, CcaError>,
    t2: Result<Vec<u8>, CcaError>,
)
    requires
        b.token_outcome(n1, t1),
        b.token_outcome(n2, t2),
        t1 is Ok,
        t2 is Ok,
        n1 != n2,
    ensures
        t1->Ok_0@ != t2->Ok_0@,
{
    lemma_different_nonces_different_tokens(
        b.claims_view().platform,
        b.claims_view().realm,
        b.iak_view(),
        b.rak_view(),
        n1,
        n2,
        t1,
        t2,
    );
}

/// The claims' own challenges and realm public key do not matter: the nonce
/// replaces the realm challenge, the RAK's COSE_Key the realm public key,
/// and its hash the platform challenge.  Claims that differ only there give
/// the same outcome.
pub proof fn lemma_token_ignores_claimed_challenges(
    p1: PlatformClaimsView,
    r1: RealmClaimsView,
    p2: PlatformClaimsView,
    r2: RealmClaimsView,
    iak: Seq<u8>,
    rak: Seq<u8>,
    nonce: Seq<u8>,
    t1: Result<Vec<u8>, CcaError>,
    t2: Result<Vec<u8>, CcaError>,
)
    requires
        p2 == (PlatformClaimsView { challenge: p2.challenge, ..p1 }),
        r2 == (RealmClaimsView { challenge: r2.challenge, public_key: r2.public_key, ..r1 }),
        encode_outcome(p1, r1, iak, rak, nonce, t1),
        encode_outcome(p2, r2, iak, rak, nonce, t2),
    ensures
        t1 is Ok <==> t2 is Ok,
        t1 is Ok ==> t1->Ok_0@ == t2->Ok_0@,
{
    if let Some(key) = rak_cose_key(rak) {
        let c = hash_digest(r1.public_key_hash_algo_id, key);
        assert(platform_claims_cbor(p1, c) == platform_claims_cbor(p2, c));
        assert(realm_claims_cbor(r1, nonce, key) == realm_claims_cbor(r2, nonce, key));
    }
}

/// A builder made from claims and keys builds what [`encode_cca_token`]
/// builds from those claims and the keys' public points; this holds for
/// the builders that `new` makes from JWK texts and `with_keys` from keys.
pub proof fn lemma_builder_builds_its_claims(
    b: SimulatedTokenBuilder,
    claims: CcaTokenView,
    iak: Seq<u8>,
    rak: Seq<u8>,
    nonce: Seq<u8>,
    r: Result<Vec<u8>, CcaError>,
)
    requires
        b.claims_view() == claims,
        b.iak_view() == iak,
        b.rak_view() == rak,
        b.token_outcome(nonce, r),
    ensures
        encode_outcome(claims.platform, claims.realm, iak, rak, nonce, r),
{
}

/// The builder builds what [`encode_cca_token`] builds from its claims and
/// keys: both succeed with the same token, or both fail.
pub proof fn lemma_build_token_is_encode(
    b: SimulatedTokenBuilder,
    nonce: Seq<u8>,
    built: Result<Vec<u8>, CcaError>,
    encoded: Result<Vec<u8>, CcaError>,
)
    requires
        b.token_outcome(nonce, built),
        encode_outcome(
            b.claims_view().platform,
            b.claims_view().realm,
            b.iak_view(),
            b.rak_view(),
            nonce,
            encoded,
        ),
    ensures
        built is Ok <==> encoded is Ok,
        built is Ok ==> built->Ok_0@ == encoded->Ok_0@,
{
}

/// Building is deterministic: two builds with the same builder and nonce
/// both succeed with the same token, or both fail.
pub proof fn lemma_build_token_deterministic(
    b: SimulatedTokenBuilder,
    nonce: Seq<u8>,
    r1: Result<Vec<u8>, CcaError>,
    r2: Result<Vec<u8>, CcaError>,
)
    requires
        b.token_outcome(nonce, r1),
        b.token_outcome(nonce, r2),
    ensures
        r1 is Ok <==> r2 is Ok,
        r1 is Ok ==> r1->Ok_0@ == r2->Ok_0@,
{
}

/// The nonce is bound into the token: the realm payloads built for two
/// different nonces differ (the nonce is the realm challenge claim, first
/// in the map).
pub proof fn lemma_realm_payload_binds_nonce(
    r: RealmClaimsView,
    n1: Seq<u8>,
    n2: Seq<u8>,
    key: Seq<u8>,
)
    requires
        n1 != n2,
    ensures
        realm_claims_cbor(r, n1, key) != realm_claims_cbor(r, n2, key),
{
    let d1 = realm_claims_cbor(r, n1, key)->Dict_0;
    let d2 = realm_claims_cbor(r, n2, key)->Dict_0;
    assert(d1[0] != d2[0]);
}

} // verus!
