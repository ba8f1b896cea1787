//! CBOR key constants for CCA token claims, as defined by the Arm CCA
//! attestation token specification.
use vstd::prelude::*;

verus! {

// CCA token top-level
pub const CCA_TOKEN_TAG: u64 = 399;
pub const CCA_PLATFORM_TOKEN_KEY: u64 = 44234; // 0xACCA
pub const CCA_REALM_TOKEN_KEY: u64 = 44241; // 0xACD1

// Platform claim integer keys
pub const PLAT_CHALLENGE: u64 = 10;
pub const PLAT_INSTANCE_ID: u64 = 256;
pub const PLAT_PROFILE: u64 = 265;
pub const PLAT_LIFECYCLE: u64 = 2395;
pub const PLAT_IMPLEMENTATION_ID: u64 = 2396;
pub const PLAT_SW_COMPONENTS: u64 = 2399;
pub const PLAT_SERVICE_INDICATOR: u64 = 2400;
pub const PLAT_CONFIG: u64 = 2401;
pub const PLAT_HASH_ALGO: u64 = 2402;

// Platform SW component integer keys
pub const SW_MEASUREMENT_TYPE: u64 = 1;
pub const SW_MEASUREMENT_VALUE: u64 = 2;
pub const SW_SIGNER_ID: u64 = 5;
pub const SW_MEASUREMENT_DESC: u64 = 6;

// Realm claim integer keys
pub const REALM_CHALLENGE: u64 = 10;
pub const REALM_PROFILE: u64 = 265;
pub const REALM_PERSONALIZATION: u64 = 44235;
pub const REALM_HASH_ALGO: u64 = 44236;
pub const REALM_PUBLIC_KEY: u64 = 44237;
pub const REALM_INITIAL_MEASUREMENT: u64 = 44238;
pub const REALM_EXTENSIBLE_MEASUREMENTS: u64 = 44239;
pub const REALM_PUBLIC_KEY_HASH_ALGO: u64 = 44240;

} // verus!
