//! CCA token decoding: `ccatoken` decodes the CBOR token, and its claims are
//! mapped into this library's claim types.
use vstd::prelude::*;
use crate::attesters::cca::CcaError;
use crate::text::{concat3, starts_with};
use super::types::{
    CcaToken, CcaTokenView, PlatformClaims, PlatformClaimsView, RealmClaims, RealmClaimsView,
    SwComponent, SwComponentView, opt_text,
};

verus! {

#[verifier::external_type_specification]
#[verifier::external_body]
pub struct ExCcaPlatform(ccatoken::token::Platform);

#[verifier::external_type_specification]
#[verifier::external_body]
pub struct ExCcaRealm(ccatoken::token::Realm);

/// The fields of a software component as `ccatoken` decodes them.
#[derive(Debug)]
pub struct DecodedSwComponent {
    pub mtyp: Option<String>,
    pub mval: Vec<u8>,
    pub version: Option<String>,
    pub signer_id: Vec<u8>,
    pub hash_alg: Option<String>,
}

/// The fields of the platform claims as `ccatoken` decodes them.
#[derive(Debug)]
pub struct DecodedPlatform {
    pub profile: String,
    pub challenge: Vec<u8>,
    pub impl_id: Vec<u8>,
    pub inst_id: Vec<u8>,
    pub config: Vec<u8>,
    pub lifecycle: u16,
    pub sw_components: Vec<DecodedSwComponent>,
    pub verification_service: Option<String>,
    pub hash_alg: String,
}

/// The fields of the realm claims as `ccatoken` decodes them; `realm_key`
/// is what `Realm::get_realm_key` returns (`None` for its error).
#[derive(Debug)]
pub struct DecodedRealm {
    pub challenge: Vec<u8>,
    pub perso: Vec<u8>,
    pub rim: Vec<u8>,
    pub rem: Vec<Vec<u8>>,
    pub hash_alg: String,
    pub realm_key: Option<Vec<u8>>,
    pub rak_hash_alg: String,
}

/// The claims `ccatoken::token::Evidence::decode` finds in a token; `None`
/// where it reports an error.
pub uninterp spec fn ccatoken_evidence(data: Seq<u8>) -> Option<(DecodedPlatform, DecodedRealm)>;

/// Copies `ccatoken` platform claims (and each software component) field
/// for field.
#[verifier::external_body]
fn decoded_platform(p: ccatoken::token::Platform) -> DecodedPlatform {
    let sw_components = p.sw_components.into_iter().map(|c| DecodedSwComponent {
        mtyp: c.mtyp, mval: c.mval, version: c.version, signer_id: c.signer_id, hash_alg: c.hash_alg,
    }).collect();
    DecodedPlatform {
        profile: p.profile, challenge: p.challenge, impl_id: p.impl_id.to_vec(),
        inst_id: p.inst_id.to_vec(), config: p.config, lifecycle: p.lifecycle, sw_components,
        verification_service: p.verification_service, hash_alg: p.hash_alg,
    }
}

/// Copies `ccatoken` realm claims field for field (`get_realm_key` as an
/// option).
#[verifier::external_body]
fn decoded_realm(r: ccatoken::token::Realm) -> DecodedRealm {
    DecodedRealm {
        realm_key: r.get_realm_key().ok().map(|k| k.to_vec()),
        challenge: r.challenge.to_vec(),
        perso: r.perso.to_vec(),
        rim: r.rim,
        rem: r.rem.to_vec(),
        hash_alg: r.hash_alg,
        rak_hash_alg: r.rak_hash_alg,
    }
}

/// `ccatoken::token::Evidence::decode`: succeeds exactly where
/// [`ccatoken_evidence`] says so, with those claims; the error comes back as
/// its text.
#[verifier::external_body]
fn ccatoken_decode(data: &[u8]) -> (r: Result<(DecodedPlatform, DecodedRealm), String>)
    ensures
        r is Ok <==> ccatoken_evidence(data@) is Some,
        r matches Ok(d) ==> d == ccatoken_evidence(data@)->Some_0,
{
    ccatoken::token::Evidence::decode(&data.to_vec()).map(
        |e| (decoded_platform(e.platform_claims), decoded_realm(e.realm_claims)),
    ).map_err(|e| e.to_string())
}

/// The value of the software component that a decoded one becomes.
pub open spec fn sw_component_of(c: DecodedSwComponent) -> SwComponentView {
    SwComponentView {
        measurement_type: opt_text(c.mtyp),
        measurement_value: c.mval@,
        version: opt_text(c.version),
        signer_id: c.signer_id@,
        measurement_description: opt_text(c.hash_alg),
    }
}

/// The value of the platform claims that decoded ones become: the lifecycle
/// widened, an empty hash algorithm name read as absent.
pub open spec fn platform_claims_of(p: DecodedPlatform) -> PlatformClaimsView {
    PlatformClaimsView {
        profile: p.profile@,
        challenge: p.challenge@,
        implementation_id: p.impl_id@,
        instance_id: p.inst_id@,
        config: p.config@,
        lifecycle: p.lifecycle as u64,
        sw_components: p.sw_components@.map_values(|c: DecodedSwComponent| sw_component_of(c)),
        service_indicator: opt_text(p.verification_service),
        hash_algo_id: if p.hash_alg@.len() == 0 {
            None
        } else {
            Some(p.hash_alg@)
        },
    }
}

/// The value of the realm claims that decoded ones become: the realm key
/// (empty when `get_realm_key` fails) as public key; the decoder reports no
/// realm profile.
pub open spec fn realm_claims_of(r: DecodedRealm) -> RealmClaimsView {
    RealmClaimsView {
        profile: None,
        challenge: r.challenge@,
        personalization_value: r.perso@,
        initial_measurement: r.rim@,
        extensible_measurements: r.rem@.map_values(|m: Vec<u8>| m@),
        hash_algo_id: r.hash_alg@,
        public_key: match r.realm_key {
            Some(k) => k@,
            None => Seq::empty(),
        },
        public_key_hash_algo_id: r.rak_hash_alg@,
    }
}

impl From<DecodedSwComponent> for SwComponent {
    fn from(c: DecodedSwComponent) -> (r: Self)
        ensures
            r@ == sw_component_of(c),
    {
        SwComponent {
            measurement_type: c.mtyp,
            measurement_value: c.mval,
            version: c.version,
            signer_id: c.signer_id,
            measurement_description: c.hash_alg,
        }
    }
}

impl vstd::std_specs::convert::FromSpecImpl<DecodedSwComponent> for SwComponent {
    open spec fn obeys_from_spec() -> bool {
        false
    }

    open spec fn from_spec(v: DecodedSwComponent) -> Self {
        arbitrary()
    }
}

impl From<DecodedPlatform> for PlatformClaims {
    fn from(p: DecodedPlatform) -> (r: Self)
        ensures
            r@ == platform_claims_of(p),
    {
        let ghost p0 = p;
        let mut sw_components: Vec<SwComponent> = Vec::new();
        let mut rest = p.sw_components;
        let ghost all = rest@;
        // Take the components in order from the front.
        while rest.len() > 0
            invariant
                sw_components@.len() + rest@.len() == all.len(),
                forall|j: int|
                    0 <= j < sw_components@.len() ==> #[trigger] sw_components@[j]@
                        == sw_component_of(all[j]),
                rest@ == all.subrange(sw_components@.len() as int, all.len() as int),
            decreases rest.len(),
        {
            let c = rest.remove(0);
            sw_components.push(SwComponent::from(c));
        }
        assert(sw_components@.map_values(|c: SwComponent| c@) =~= all.map_values(
            |c: DecodedSwComponent| sw_component_of(c),
        ));
        let hash_algo_id = if p.hash_alg.as_str().is_empty() {
            None
        } else {
            Some(p.hash_alg)
        };
        PlatformClaims {
            profile: p.profile,
            challenge: p.challenge,
            implementation_id: p.impl_id,
            instance_id: p.inst_id,
            config: p.config,
            lifecycle: p.lifecycle as u64,
            sw_components,
            service_indicator: p.verification_service,
            hash_algo_id,
        }
    }
}

impl vstd::std_specs::convert::FromSpecImpl<DecodedPlatform> for PlatformClaims {
    open spec fn obeys_from_spec() -> bool {
        false
    }

    open spec fn from_spec(v: DecodedPlatform) -> Self {
        arbitrary()
    }
}

impl From<DecodedRealm> for RealmClaims {
    fn from(r: DecodedRealm) -> (c: Self)
        ensures
            c@ == realm_claims_of(r),
    {
        let public_key = match r.realm_key {
            Some(k) => k,
            None => Vec::new(),
        };
        RealmClaims {
            profile: None,
            challenge: r.challenge,
            personalization_value: r.perso,
            initial_measurement: r.rim,
            extensible_measurements: r.rem,
            hash_algo_id: r.hash_alg,
            public_key,
            public_key_hash_algo_id: r.rak_hash_alg,
        }
    }
}

impl vstd::std_specs::convert::FromSpecImpl<DecodedRealm> for RealmClaims {
    open spec fn obeys_from_spec() -> bool {
        false
    }

    open spec fn from_spec(v: DecodedRealm) -> Self {
        arbitrary()
    }
}

/// The claims of a token, as this library's types.
pub open spec fn token_of_evidence(d: (DecodedPlatform, DecodedRealm)) -> CcaTokenView {
    CcaTokenView { platform: platform_claims_of(d.0), realm: realm_claims_of(d.1) }
}

/// Decode raw CBOR bytes of a CCA token (tag 399) into a [`CcaToken`]:
/// `ccatoken` decodes the token, and its claims are mapped into this
/// library's types.
pub fn decode_cca_token(data: &[u8]) -> (r: Result<CcaToken, CcaError>)
    ensures
        r is Ok <==> ccatoken_evidence(data@) is Some,
        r matches Ok(t) ==> t@ == token_of_evidence(ccatoken_evidence(data@)->Some_0),
        r matches Err(e) ==> (e matches CcaError::Custom(m) && starts_with(
            m@,
            "ccatoken decode: "@,
        )),
{
    match ccatoken_decode(data) {
        Ok((platform, realm)) => Ok(
            CcaToken { platform: PlatformClaims::from(platform), realm: RealmClaims::from(realm) },
        ),
        Err(e) => {
            let m = concat3("ccatoken decode: ", e.as_str(), "");
            proof {
                reveal_strlit("ccatoken decode: ");
                reveal_strlit("");
                assert(m@.subrange(0, 17) =~= "ccatoken decode: "@);
            }
            Err(CcaError::Custom(m))
        },
    }
}

/// What decoding a token gives, field by field: each claim comes from the
/// decoder's field of the same meaning (`impl_id` is the implementation
/// ID, `inst_id` the instance ID, `perso` the personalization value, `rim`
/// the initial measurement, `rem` the extensible measurements, a component's
/// `mtyp`/`mval`/`hash_alg` its type/value/description), nothing swapped.
pub proof fn lemma_decoded_token_fields(data: Seq<u8>, t: CcaTokenView)
    requires
        ccatoken_evidence(data) is Some,
        t == token_of_evidence(ccatoken_evidence(data)->Some_0),
    ensures
        ({
            let (p, r) = ccatoken_evidence(data)->Some_0;
            &&& t.platform.profile == p.profile@
            &&& t.platform.challenge == p.challenge@
            &&& t.platform.implementation_id == p.impl_id@
            &&& t.platform.instance_id == p.inst_id@
            &&& t.platform.config == p.config@
            &&& t.platform.lifecycle == p.lifecycle as u64
            &&& t.platform.service_indicator == opt_text(p.verification_service)
            &&& t.platform.hash_algo_id == (if p.hash_alg@.len() == 0 {
                None
            } else {
                Some(p.hash_alg@)
            })
            &&& t.platform.sw_components.len() == p.sw_components@.len()
            &&& forall|i: int|
                0 <= i < p.sw_components@.len() ==> {
                    let c = #[trigger] t.platform.sw_components[i];
                    let d = p.sw_components@[i];
                    &&& c.measurement_type == opt_text(d.mtyp)
                    &&& c.measurement_value == d.mval@
                    &&& c.version == opt_text(d.version)
                    &&& c.signer_id == d.signer_id@
                    &&& c.measurement_description == opt_text(d.hash_alg)
                }
            &&& t.realm.profile is None
            &&& t.realm.challenge == r.challenge@
            &&& t.realm.personalization_value == r.perso@
            &&& t.realm.initial_measurement == r.rim@
            &&& t.realm.extensible_measurements.len() == r.rem@.len()
            &&& forall|i: int|
                0 <= i < r.rem@.len() ==> #[trigger] t.realm.extensible_measurements[i]
                    == r.rem@[i]@
            &&& t.realm.hash_algo_id == r.hash_alg@
            &&& t.realm.public_key == (match r.realm_key {
                Some(k) => k@,
                None => Seq::empty(),
            })
            &&& t.realm.public_key_hash_algo_id == r.rak_hash_alg@
        }),
{
}

} // verus!
