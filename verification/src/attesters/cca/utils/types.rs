//! Typed CCA claims and their CBOR form.
use vstd::prelude::*;
use vstd::slice::slice_to_vec;

verus! {

/// The characters of an optional string.
pub open spec fn opt_text(o: Option<String>) -> Option<Seq<char>> {
    match o {
        Some(s) => Some(s@),
        None => None,
    }
}

/// Copies an optional string.
pub fn clone_opt_text(o: &Option<String>) -> (r: Option<String>)
    ensures
        opt_text(r) == opt_text(*o),
{
    match o {
        Some(s) => Some(s.clone()),
        None => None,
    }
}

/// Copies a byte vector.
pub fn clone_bytes(v: &Vec<u8>) -> (r: Vec<u8>)
    ensures
        r@ == v@,
{
    slice_to_vec(v.as_slice())
}

/// A single platform software component measurement.
#[derive(Debug)]
pub struct SwComponent {
    pub measurement_type: Option<String>,
    pub measurement_value: Vec<u8>,
    pub version: Option<String>,
    pub signer_id: Vec<u8>,
    pub measurement_description: Option<String>,
}

/// The value of a [`SwComponent`].
pub struct SwComponentView {
    pub measurement_type: Option<Seq<char>>,
    pub measurement_value: Seq<u8>,
    pub version: Option<Seq<char>>,
    pub signer_id: Seq<u8>,
    pub measurement_description: Option<Seq<char>>,
}

impl View for SwComponent {
    type V = SwComponentView;

    open spec fn view(&self) -> SwComponentView {
        SwComponentView {
            measurement_type: opt_text(self.measurement_type),
            measurement_value: self.measurement_value@,
            version: opt_text(self.version),
            signer_id: self.signer_id@,
            measurement_description: opt_text(self.measurement_description),
        }
    }
}

impl Clone for SwComponent {
    fn clone(&self) -> (r: Self)
        ensures
            r@ == self@,
    {
        SwComponent {
            measurement_type: clone_opt_text(&self.measurement_type),
            measurement_value: clone_bytes(&self.measurement_value),
            version: clone_opt_text(&self.version),
            signer_id: clone_bytes(&self.signer_id),
            measurement_description: clone_opt_text(&self.measurement_description),
        }
    }
}

/// Platform claims (the payload of the platform COSE_Sign1).
#[derive(Debug)]
pub struct PlatformClaims {
    pub profile: String,
    pub challenge: Vec<u8>,
    pub implementation_id: Vec<u8>,
    pub instance_id: Vec<u8>,
    pub config: Vec<u8>,
    pub lifecycle: u64,
    pub sw_components: Vec<SwComponent>,
    pub service_indicator: Option<String>,
    pub hash_algo_id: Option<String>,
}

/// The value of a [`PlatformClaims`].
pub struct PlatformClaimsView {
    pub profile: Seq<char>,
    pub challenge: Seq<u8>,
    pub implementation_id: Seq<u8>,
    pub instance_id: Seq<u8>,
    pub config: Seq<u8>,
    pub lifecycle: u64,
    pub sw_components: Seq<SwComponentView>,
    pub service_indicator: Option<Seq<char>>,
    pub hash_algo_id: Option<Seq<char>>,
}

impl View for PlatformClaims {
    type V = PlatformClaimsView;

    open spec fn view(&self) -> PlatformClaimsView {
        PlatformClaimsView {
            profile: self.profile@,
            challenge: self.challenge@,
            implementation_id: self.implementation_id@,
            instance_id: self.instance_id@,
            config: self.config@,
            lifecycle: self.lifecycle,
            sw_components: self.sw_components@.map_values(|c: SwComponent| c@),
            service_indicator: opt_text(self.service_indicator),
            hash_algo_id: opt_text(self.hash_algo_id),
        }
    }
}

/// Copies a list of software components.
pub fn clone_sw_components(v: &Vec<SwComponent>) -> (r: Vec<SwComponent>)
    ensures
        r@.map_values(|c: SwComponent| c@) == v@.map_values(|c: SwComponent| c@),
{
    let mut r: Vec<SwComponent> = Vec::new();
    for i in 0..v.len()
        invariant
            r@.len() == i,
            forall|j: int| 0 <= j < i ==> #[trigger] r@[j]@ == v@[j]@,
    {
        r.push(v[i].clone());
    }
    assert(r@.map_values(|c: SwComponent| c@) =~= v@.map_values(|c: SwComponent| c@));
    r
}

impl Clone for PlatformClaims {
    fn clone(&self) -> (r: Self)
        ensures
            r@ == self@,
    {
        PlatformClaims {
            profile: self.profile.clone(),
            challenge: clone_bytes(&self.challenge),
            implementation_id: clone_bytes(&self.implementation_id),
            instance_id: clone_bytes(&self.instance_id),
            config: clone_bytes(&self.config),
            lifecycle: self.lifecycle,
            sw_components: clone_sw_components(&self.sw_components),
            service_indicator: clone_opt_text(&self.service_indicator),
            hash_algo_id: clone_opt_text(&self.hash_algo_id),
        }
    }
}

/// Realm claims (the payload of the realm COSE_Sign1).
#[derive(Debug)]
pub struct RealmClaims {
    pub profile: Option<String>,
    pub challenge: Vec<u8>,
    pub personalization_value: Vec<u8>,
    pub initial_measurement: Vec<u8>,
    pub extensible_measurements: Vec<Vec<u8>>,
    pub hash_algo_id: String,
    pub public_key: Vec<u8>,
    pub public_key_hash_algo_id: String,
}

/// The value of a [`RealmClaims`].
pub struct RealmClaimsView {
    pub profile: Option<Seq<char>>,
    pub challenge: Seq<u8>,
    pub personalization_value: Seq<u8>,
    pub initial_measurement: Seq<u8>,
    pub extensible_measurements: Seq<Seq<u8>>,
    pub hash_algo_id: Seq<char>,
    pub public_key: Seq<u8>,
    pub public_key_hash_algo_id: Seq<char>,
}

impl View for RealmClaims {
    type V = RealmClaimsView;

    open spec fn view(&self) -> RealmClaimsView {
        RealmClaimsView {
            profile: opt_text(self.profile),
            challenge: self.challenge@,
            personalization_value: self.personalization_value@,
            initial_measurement: self.initial_measurement@,
            extensible_measurements: self.extensible_measurements@.map_values(|m: Vec<u8>| m@),
            hash_algo_id: self.hash_algo_id@,
            public_key: self.public_key@,
            public_key_hash_algo_id: self.public_key_hash_algo_id@,
        }
    }
}

/// Copies a list of byte strings.
pub fn clone_byte_strings(v: &Vec<Vec<u8>>) -> (r: Vec<Vec<u8>>)
    ensures
        r@.map_values(|m: Vec<u8>| m@) == v@.map_values(|m: Vec<u8>| m@),
{
    let mut r: Vec<Vec<u8>> = Vec::new();
    for i in 0..v.len()
        invariant
            r@.len() == i,
            forall|j: int| 0 <= j < i ==> #[trigger] r@[j]@ == v@[j]@,
    {
        r.push(clone_bytes(&v[i]));
    }
    assert(r@.map_values(|m: Vec<u8>| m@) =~= v@.map_values(|m: Vec<u8>| m@));
    r
}

impl Clone for RealmClaims {
    fn clone(&self) -> (r: Self)
        ensures
            r@ == self@,
    {
        RealmClaims {
            profile: clone_opt_text(&self.profile),
            challenge: clone_bytes(&self.challenge),
            personalization_value: clone_bytes(&self.personalization_value),
            initial_measurement: clone_bytes(&self.initial_measurement),
            extensible_measurements: clone_byte_strings(&self.extensible_measurements),
            hash_algo_id: self.hash_algo_id.clone(),
            public_key: clone_bytes(&self.public_key),
            public_key_hash_algo_id: self.public_key_hash_algo_id.clone(),
        }
    }
}

/// Top-level CCA attestation token: the platform and realm claims.
#[derive(Debug)]
pub struct CcaToken {
    pub platform: PlatformClaims,
    pub realm: RealmClaims,
}

/// The value of a [`CcaToken`].
pub struct CcaTokenView {
    pub platform: PlatformClaimsView,
    pub realm: RealmClaimsView,
}

impl View for CcaToken {
    type V = CcaTokenView;

    open spec fn view(&self) -> CcaTokenView {
        CcaTokenView { platform: self.platform@, realm: self.realm@ }
    }
}

impl Clone for CcaToken {
    fn clone(&self) -> (r: Self)
        ensures
            r@ == self@,
    {
        CcaToken { platform: self.platform.clone(), realm: self.realm.clone() }
    }
}

} // verus!

// ---------------------------------------------------------------------------
// CBOR form of the claims: each claim under its spec-defined integer key.
// ---------------------------------------------------------------------------

verus! {

use super::cbor::{
    Cbor, CborModel, entries_model, items_model, keyed, lemma_array_model, lemma_dict_model,
    map_value, opt_text_entry, opt_text_value, push_entry, push_opt_text, value_from,
};
use super::constants::{
    PLAT_CHALLENGE, PLAT_CONFIG, PLAT_HASH_ALGO, PLAT_IMPLEMENTATION_ID, PLAT_INSTANCE_ID,
    PLAT_LIFECYCLE, PLAT_PROFILE, PLAT_SERVICE_INDICATOR, PLAT_SW_COMPONENTS, REALM_CHALLENGE,
    REALM_EXTENSIBLE_MEASUREMENTS, REALM_HASH_ALGO, REALM_INITIAL_MEASUREMENT,
    REALM_PERSONALIZATION, REALM_PROFILE, REALM_PUBLIC_KEY, REALM_PUBLIC_KEY_HASH_ALGO,
    SW_MEASUREMENT_DESC, SW_MEASUREMENT_TYPE, SW_MEASUREMENT_VALUE, SW_SIGNER_ID,
};

/// The CBOR map of a software component: measurement type (if any),
/// measurement value, signer ID, measurement description (if any).
pub open spec fn sw_component_cbor(c: SwComponentView) -> CborModel {
    CborModel::Dict(
        opt_text_entry(SW_MEASUREMENT_TYPE, c.measurement_type) + seq![
            keyed(SW_MEASUREMENT_VALUE, CborModel::Bytes(c.measurement_value)),
            keyed(SW_SIGNER_ID, CborModel::Bytes(c.signer_id)),
        ] + opt_text_entry(SW_MEASUREMENT_DESC, c.measurement_description),
    )
}

/// The CBOR map of the platform claims, with `challenge` as the challenge
/// claim, in the order: challenge, instance ID, profile, lifecycle,
/// implementation ID, software components, service indicator (if any),
/// config, hash algorithm (if any).
pub open spec fn platform_claims_cbor(p: PlatformClaimsView, challenge: Seq<u8>) -> CborModel {
    CborModel::Dict(
        seq![
            keyed(PLAT_CHALLENGE, CborModel::Bytes(challenge)),
            keyed(PLAT_INSTANCE_ID, CborModel::Bytes(p.instance_id)),
            keyed(PLAT_PROFILE, CborModel::Text(p.profile)),
            keyed(PLAT_LIFECYCLE, CborModel::Uint(p.lifecycle)),
            keyed(PLAT_IMPLEMENTATION_ID, CborModel::Bytes(p.implementation_id)),
            keyed(
                PLAT_SW_COMPONENTS,
                CborModel::Array(p.sw_components.map_values(|c: SwComponentView| sw_component_cbor(c))),
            ),
        ] + opt_text_entry(PLAT_SERVICE_INDICATOR, p.service_indicator) + seq![
            keyed(PLAT_CONFIG, CborModel::Bytes(p.config)),
        ] + opt_text_entry(PLAT_HASH_ALGO, p.hash_algo_id),
    )
}

/// The CBOR map of the realm claims, with `challenge` and `public_key` as
/// those claims, in the order: challenge, profile (if any),
/// personalization value, hash algorithm, public key, initial measurement,
/// extensible measurements, public key hash algorithm.
pub open spec fn realm_claims_cbor(r: RealmClaimsView, challenge: Seq<u8>, public_key: Seq<u8>) -> CborModel {
    CborModel::Dict(
        seq![keyed(REALM_CHALLENGE, CborModel::Bytes(challenge))] + opt_text_entry(
            REALM_PROFILE,
            r.profile,
        ) + seq![
            keyed(REALM_PERSONALIZATION, CborModel::Bytes(r.personalization_value)),
            keyed(REALM_HASH_ALGO, CborModel::Text(r.hash_algo_id)),
            keyed(REALM_PUBLIC_KEY, CborModel::Bytes(public_key)),
            keyed(REALM_INITIAL_MEASUREMENT, CborModel::Bytes(r.initial_measurement)),
            keyed(
                REALM_EXTENSIBLE_MEASUREMENTS,
                CborModel::Array(r.extensible_measurements.map_values(|m: Seq<u8>| CborModel::Bytes(m))),
            ),
            keyed(REALM_PUBLIC_KEY_HASH_ALGO, CborModel::Text(r.public_key_hash_algo_id)),
        ],
    )
}

/// The CBOR map of a software component.
pub fn sw_component_to_cbor(c: &SwComponent) -> (r: Cbor)
    ensures
        r@ == sw_component_cbor(c@),
{
    let mut m: Vec<(Cbor, Cbor)> = Vec::new();
    push_opt_text(&mut m, SW_MEASUREMENT_TYPE, &c.measurement_type);
    push_entry(&mut m, SW_MEASUREMENT_VALUE, Cbor::Bytes(clone_bytes(&c.measurement_value)));
    push_entry(&mut m, SW_SIGNER_ID, Cbor::Bytes(clone_bytes(&c.signer_id)));
    push_opt_text(&mut m, SW_MEASUREMENT_DESC, &c.measurement_description);
    proof {
        lemma_dict_model(m);
        assert(entries_model(m@) =~= sw_component_cbor(c@)->Dict_0);
    }
    Cbor::Dict(m)
}

impl From<PlatformClaims> for Cbor {
    /// The CBOR map of the platform claims.
    fn from(p: PlatformClaims) -> (r: Cbor)
        ensures
            r@ == platform_claims_cbor(p@, p.challenge@),
    {
        let mut components: Vec<Cbor> = Vec::new();
        for i in 0..p.sw_components.len()
            invariant
                components@.len() == i,
                forall|j: int|
                    0 <= j < i ==> #[trigger] components@[j]@ == sw_component_cbor(
                        p.sw_components@[j]@,
                    ),
        {
            components.push(sw_component_to_cbor(&p.sw_components[i]));
        }
        proof {
            lemma_array_model(components);
            assert(items_model(components@) =~= p@.sw_components.map_values(
                |c: SwComponentView| sw_component_cbor(c),
            ));
        }
        let mut m: Vec<(Cbor, Cbor)> = Vec::new();
        push_entry(&mut m, PLAT_CHALLENGE, Cbor::Bytes(clone_bytes(&p.challenge)));
        push_entry(&mut m, PLAT_INSTANCE_ID, Cbor::Bytes(clone_bytes(&p.instance_id)));
        push_entry(&mut m, PLAT_PROFILE, Cbor::Text(p.profile.clone()));
        push_entry(&mut m, PLAT_LIFECYCLE, Cbor::Uint(p.lifecycle));
        push_entry(&mut m, PLAT_IMPLEMENTATION_ID, Cbor::Bytes(clone_bytes(&p.implementation_id)));
        push_entry(&mut m, PLAT_SW_COMPONENTS, Cbor::Array(components));
        push_opt_text(&mut m, PLAT_SERVICE_INDICATOR, &p.service_indicator);
        push_entry(&mut m, PLAT_CONFIG, Cbor::Bytes(clone_bytes(&p.config)));
        push_opt_text(&mut m, PLAT_HASH_ALGO, &p.hash_algo_id);
        proof {
            lemma_dict_model(m);
            assert(entries_model(m@) =~= platform_claims_cbor(p@, p.challenge@)->Dict_0);
        }
        Cbor::Dict(m)
    }
}

impl vstd::std_specs::convert::FromSpecImpl<PlatformClaims> for Cbor {
    open spec fn obeys_from_spec() -> bool {
        false
    }

    open spec fn from_spec(v: PlatformClaims) -> Cbor {
        arbitrary()
    }
}

impl From<RealmClaims> for Cbor {
    /// The CBOR map of the realm claims.
    fn from(r: RealmClaims) -> (c: Cbor)
        ensures
            c@ == realm_claims_cbor(r@, r.challenge@, r.public_key@),
    {
        let mut ext: Vec<Cbor> = Vec::new();
        for i in 0..r.extensible_measurements.len()
            invariant
                ext@.len() == i,
                forall|j: int|
                    0 <= j < i ==> #[trigger] ext@[j]@ == CborModel::Bytes(
                        r.extensible_measurements@[j]@,
                    ),
        {
            ext.push(Cbor::Bytes(clone_bytes(&r.extensible_measurements[i])));
        }
        proof {
            lemma_array_model(ext);
            assert(items_model(ext@) =~= r@.extensible_measurements.map_values(
                |m: Seq<u8>| CborModel::Bytes(m),
            ));
        }
        let mut m: Vec<(Cbor, Cbor)> = Vec::new();
        push_entry(&mut m, REALM_CHALLENGE, Cbor::Bytes(clone_bytes(&r.challenge)));
        push_opt_text(&mut m, REALM_PROFILE, &r.profile);
        push_entry(&mut m, REALM_PERSONALIZATION, Cbor::Bytes(clone_bytes(&r.personalization_value)));
        push_entry(&mut m, REALM_HASH_ALGO, Cbor::Text(r.hash_algo_id.clone()));
        push_entry(&mut m, REALM_PUBLIC_KEY, Cbor::Bytes(clone_bytes(&r.public_key)));
        push_entry(&mut m, REALM_INITIAL_MEASUREMENT, Cbor::Bytes(clone_bytes(&r.initial_measurement)));
        push_entry(&mut m, REALM_EXTENSIBLE_MEASUREMENTS, Cbor::Array(ext));
        push_entry(&mut m, REALM_PUBLIC_KEY_HASH_ALGO, Cbor::Text(r.public_key_hash_algo_id.clone()));
        proof {
            lemma_dict_model(m);
            assert(entries_model(m@) =~= realm_claims_cbor(r@, r.challenge@, r.public_key@)->Dict_0);
        }
        Cbor::Dict(m)
    }
}

impl vstd::std_specs::convert::FromSpecImpl<RealmClaims> for Cbor {
    open spec fn obeys_from_spec() -> bool {
        false
    }

    open spec fn from_spec(v: RealmClaims) -> Cbor {
        arbitrary()
    }
}

/// Each platform claim sits under its own key in the platform claims map:
/// the challenge under `PLAT_CHALLENGE`, the instance ID under
/// `PLAT_INSTANCE_ID`, and so on; the optional claims are missing exactly
/// when absent.
pub proof fn lemma_platform_claims_keys(p: PlatformClaimsView, challenge: Seq<u8>)
    ensures
        map_value(platform_claims_cbor(p, challenge), PLAT_CHALLENGE) == Some(
            CborModel::Bytes(challenge),
        ),
        map_value(platform_claims_cbor(p, challenge), PLAT_INSTANCE_ID) == Some(
            CborModel::Bytes(p.instance_id),
        ),
        map_value(platform_claims_cbor(p, challenge), PLAT_PROFILE) == Some(
            CborModel::Text(p.profile),
        ),
        map_value(platform_claims_cbor(p, challenge), PLAT_LIFECYCLE) == Some(
            CborModel::Uint(p.lifecycle),
        ),
        map_value(platform_claims_cbor(p, challenge), PLAT_IMPLEMENTATION_ID) == Some(
            CborModel::Bytes(p.implementation_id),
        ),
        map_value(platform_claims_cbor(p, challenge), PLAT_SW_COMPONENTS) == Some(
            CborModel::Array(p.sw_components.map_values(|c: SwComponentView| sw_component_cbor(c))),
        ),
        map_value(platform_claims_cbor(p, challenge), PLAT_SERVICE_INDICATOR) == opt_text_value(
            p.service_indicator,
        ),
        map_value(platform_claims_cbor(p, challenge), PLAT_CONFIG) == Some(
            CborModel::Bytes(p.config),
        ),
        map_value(platform_claims_cbor(p, challenge), PLAT_HASH_ALGO) == opt_text_value(
            p.hash_algo_id,
        ),
        platform_claims_cbor(p, challenge)->Dict_0.len() == 7 + (if p.service_indicator is Some {
            1int
        } else {
            0
        }) + (if p.hash_algo_id is Some {
            1int
        } else {
            0
        }),
{
    let e = platform_claims_cbor(p, challenge)->Dict_0;
    reveal_with_fuel(value_from, 10);
    let a = keyed(PLAT_CHALLENGE, CborModel::Bytes(challenge));
    let b = keyed(PLAT_INSTANCE_ID, CborModel::Bytes(p.instance_id));
    let c = keyed(PLAT_PROFILE, CborModel::Text(p.profile));
    let d = keyed(PLAT_LIFECYCLE, CborModel::Uint(p.lifecycle));
    let f = keyed(PLAT_IMPLEMENTATION_ID, CborModel::Bytes(p.implementation_id));
    let g = keyed(
        PLAT_SW_COMPONENTS,
        CborModel::Array(p.sw_components.map_values(|c: SwComponentView| sw_component_cbor(c))),
    );
    let h = keyed(PLAT_CONFIG, CborModel::Bytes(p.config));
    match (p.service_indicator, p.hash_algo_id) {
        (Some(si), Some(ha)) => {
            assert(e =~= seq![a, b, c, d, f, g, keyed(PLAT_SERVICE_INDICATOR, CborModel::Text(si)), h, keyed(PLAT_HASH_ALGO, CborModel::Text(ha))]);
        },
        (Some(si), None) => {
            assert(e =~= seq![a, b, c, d, f, g, keyed(PLAT_SERVICE_INDICATOR, CborModel::Text(si)), h]);
        },
        (None, Some(ha)) => {
            assert(e =~= seq![a, b, c, d, f, g, h, keyed(PLAT_HASH_ALGO, CborModel::Text(ha))]);
        },
        (None, None) => {
            assert(e =~= seq![a, b, c, d, f, g, h]);
        },
    }
}

/// Each realm claim sits under its own key in the realm claims map: the
/// challenge under `REALM_CHALLENGE`, the personalization value under
/// `REALM_PERSONALIZATION`, the initial measurement under
/// `REALM_INITIAL_MEASUREMENT`, and so on; the profile is missing exactly
/// when absent.
pub proof fn lemma_realm_claims_keys(r: RealmClaimsView, challenge: Seq<u8>, public_key: Seq<u8>)
    ensures
        map_value(realm_claims_cbor(r, challenge, public_key), REALM_CHALLENGE) == Some(
            CborModel::Bytes(challenge),
        ),
        map_value(realm_claims_cbor(r, challenge, public_key), REALM_PROFILE) == opt_text_value(
            r.profile,
        ),
        map_value(realm_claims_cbor(r, challenge, public_key), REALM_PERSONALIZATION) == Some(
            CborModel::Bytes(r.personalization_value),
        ),
        map_value(realm_claims_cbor(r, challenge, public_key), REALM_HASH_ALGO) == Some(
            CborModel::Text(r.hash_algo_id),
        ),
        map_value(realm_claims_cbor(r, challenge, public_key), REALM_PUBLIC_KEY) == Some(
            CborModel::Bytes(public_key),
        ),
        map_value(realm_claims_cbor(r, challenge, public_key), REALM_INITIAL_MEASUREMENT) == Some(
            CborModel::Bytes(r.initial_measurement),
        ),
        map_value(realm_claims_cbor(r, challenge, public_key), REALM_EXTENSIBLE_MEASUREMENTS)
            == Some(
            CborModel::Array(r.extensible_measurements.map_values(|m: Seq<u8>| CborModel::Bytes(m))),
        ),
        map_value(realm_claims_cbor(r, challenge, public_key), REALM_PUBLIC_KEY_HASH_ALGO) == Some(
            CborModel::Text(r.public_key_hash_algo_id),
        ),
        realm_claims_cbor(r, challenge, public_key)->Dict_0.len() == 7 + (if r.profile is Some {
            1int
        } else {
            0
        }),
{
    let e = realm_claims_cbor(r, challenge, public_key)->Dict_0;
    reveal_with_fuel(value_from, 10);
    let a = keyed(REALM_CHALLENGE, CborModel::Bytes(challenge));
    let tail = seq![
        keyed(REALM_PERSONALIZATION, CborModel::Bytes(r.personalization_value)),
        keyed(REALM_HASH_ALGO, CborModel::Text(r.hash_algo_id)),
        keyed(REALM_PUBLIC_KEY, CborModel::Bytes(public_key)),
        keyed(REALM_INITIAL_MEASUREMENT, CborModel::Bytes(r.initial_measurement)),
        keyed(
            REALM_EXTENSIBLE_MEASUREMENTS,
            CborModel::Array(r.extensible_measurements.map_values(|m: Seq<u8>| CborModel::Bytes(m))),
        ),
        keyed(REALM_PUBLIC_KEY_HASH_ALGO, CborModel::Text(r.public_key_hash_algo_id)),
    ];
    match r.profile {
        Some(t) => {
            assert(e =~= seq![a, keyed(REALM_PROFILE, CborModel::Text(t))] + tail);
            assert(e =~= seq![a, keyed(REALM_PROFILE, CborModel::Text(t)), tail[0], tail[1], tail[2], tail[3], tail[4], tail[5]]);
        },
        None => {
            assert(e =~= seq![a, tail[0], tail[1], tail[2], tail[3], tail[4], tail[5]]);
        },
    }
}

/// Each software component field sits under its own key in the
/// component's map: the measurement type (when present) under
/// `SW_MEASUREMENT_TYPE`, the measurement value under
/// `SW_MEASUREMENT_VALUE`, the signer ID under `SW_SIGNER_ID`, the
/// description (when present) under `SW_MEASUREMENT_DESC`; the version is
/// not encoded.
pub proof fn lemma_sw_component_keys(c: SwComponentView)
    ensures
        map_value(sw_component_cbor(c), SW_MEASUREMENT_TYPE) == opt_text_value(c.measurement_type),
        map_value(sw_component_cbor(c), SW_MEASUREMENT_VALUE) == Some(
            CborModel::Bytes(c.measurement_value),
        ),
        map_value(sw_component_cbor(c), SW_SIGNER_ID) == Some(CborModel::Bytes(c.signer_id)),
        map_value(sw_component_cbor(c), SW_MEASUREMENT_DESC) == opt_text_value(
            c.measurement_description,
        ),
        sw_component_cbor(c)->Dict_0.len() == 2 + (if c.measurement_type is Some { 1int } else { 0 }) + (
        if c.measurement_description is Some {
            1int
        } else {
            0
        }),
{
    let e = sw_component_cbor(c)->Dict_0;
    reveal_with_fuel(value_from, 5);
    let v = keyed(SW_MEASUREMENT_VALUE, CborModel::Bytes(c.measurement_value));
    let g = keyed(SW_SIGNER_ID, CborModel::Bytes(c.signer_id));
    match (c.measurement_type, c.measurement_description) {
        (Some(t), Some(d)) => {
            assert(e =~= seq![keyed(SW_MEASUREMENT_TYPE, CborModel::Text(t)), v, g, keyed(SW_MEASUREMENT_DESC, CborModel::Text(d))]);
        },
        (Some(t), None) => {
            assert(e =~= seq![keyed(SW_MEASUREMENT_TYPE, CborModel::Text(t)), v, g]);
        },
        (None, Some(d)) => {
            assert(e =~= seq![v, g, keyed(SW_MEASUREMENT_DESC, CborModel::Text(d))]);
        },
        (None, None) => {
            assert(e =~= seq![v, g]);
        },
    }
}

} // verus!
