use regl::attesters::cca::utils::constants::{
    CCA_PLATFORM_TOKEN_KEY, CCA_REALM_TOKEN_KEY, CCA_TOKEN_TAG, PLAT_CHALLENGE, PLAT_CONFIG,
    PLAT_HASH_ALGO, PLAT_IMPLEMENTATION_ID, PLAT_INSTANCE_ID, PLAT_LIFECYCLE, PLAT_PROFILE,
    PLAT_SERVICE_INDICATOR, PLAT_SW_COMPONENTS, REALM_CHALLENGE, REALM_EXTENSIBLE_MEASUREMENTS,
    REALM_HASH_ALGO, REALM_INITIAL_MEASUREMENT, REALM_PERSONALIZATION, REALM_PROFILE,
    REALM_PUBLIC_KEY, REALM_PUBLIC_KEY_HASH_ALGO, SW_MEASUREMENT_DESC, SW_MEASUREMENT_TYPE,
    SW_MEASUREMENT_VALUE, SW_SIGNER_ID,
};

#[test]
fn cca_token_tag_is_399() {
    assert_eq!(CCA_TOKEN_TAG, 399);
}

#[test]
fn cca_platform_token_key_is_44234() {
    assert_eq!(CCA_PLATFORM_TOKEN_KEY, 44234);
    assert_eq!(CCA_PLATFORM_TOKEN_KEY, 0xACCA);
}

#[test]
fn cca_realm_token_key_is_44241() {
    assert_eq!(CCA_REALM_TOKEN_KEY, 44241);
    assert_eq!(CCA_REALM_TOKEN_KEY, 0xACD1);
}

#[test]
fn platform_claim_keys_have_expected_values() {
    assert_eq!(PLAT_CHALLENGE, 10);
    assert_eq!(PLAT_INSTANCE_ID, 256);
    assert_eq!(PLAT_PROFILE, 265);
    assert_eq!(PLAT_LIFECYCLE, 2395);
    assert_eq!(PLAT_IMPLEMENTATION_ID, 2396);
    assert_eq!(PLAT_SW_COMPONENTS, 2399);
    assert_eq!(PLAT_SERVICE_INDICATOR, 2400);
    assert_eq!(PLAT_CONFIG, 2401);
    assert_eq!(PLAT_HASH_ALGO, 2402);
}

#[test]
fn sw_component_keys_have_expected_values() {
    assert_eq!(SW_MEASUREMENT_TYPE, 1);
    assert_eq!(SW_MEASUREMENT_VALUE, 2);
    assert_eq!(SW_SIGNER_ID, 5);
    assert_eq!(SW_MEASUREMENT_DESC, 6);
}

#[test]
fn realm_claim_keys_have_expected_values() {
    assert_eq!(REALM_CHALLENGE, 10);
    assert_eq!(REALM_PROFILE, 265);
    assert_eq!(REALM_PERSONALIZATION, 44235);
    assert_eq!(REALM_HASH_ALGO, 44236);
    assert_eq!(REALM_PUBLIC_KEY, 44237);
    assert_eq!(REALM_INITIAL_MEASUREMENT, 44238);
    assert_eq!(REALM_EXTENSIBLE_MEASUREMENTS, 44239);
    assert_eq!(REALM_PUBLIC_KEY_HASH_ALGO, 44240);
}
