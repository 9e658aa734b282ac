use client_catalogue_request::auth::{
    auth_config, authorize_claims, bearer_token, find_key, has_api_scope, keys_cache_usable,
    key_lookup_step, kid_from_header, test_subject, KeyLookup, token_key_id, Claims, API_SCOPE, CLIENT, KEY_CACHE_NS, TENANT,
};
use client_catalogue_request::error::ApiError;

#[test]
fn seller_tokens_require_the_product_api_scope() {
    assert!(has_api_scope("openid access_as_user profile"));
    assert!(!has_api_scope("openid profile email"));
    assert!(!has_api_scope("access_as_user_extra"));
}

#[test]
fn scope_matches_whole_words_separated_by_any_ascii_whitespace() {
    assert!(has_api_scope("access_as_user"));
    assert!(has_api_scope("\taccess_as_user\n"));
    assert!(has_api_scope("openid\r\naccess_as_user"));
    assert!(!has_api_scope(""));
    assert!(!has_api_scope("xaccess_as_user"));
    assert!(!has_api_scope("access_as_use"));
    // A non-ASCII space does not separate words.
    assert!(!has_api_scope("openid\u{a0}access_as_user"));
}

fn claims(oid: &str, tid: &str, scp: &str) -> Claims {
    Claims { oid: oid.to_string(), tid: tid.to_string(), scp: scp.to_string() }
}

#[test]
fn claims_must_name_tenant_account_and_scope() {
    assert_eq!(authorize_claims(&claims("seller-1", TENANT, API_SCOPE)), Ok("seller-1".to_string()));
    assert_eq!(
        authorize_claims(&claims("seller-1", "other-tenant", API_SCOPE)),
        Err(ApiError::Unauthorized)
    );
    assert_eq!(authorize_claims(&claims("", TENANT, API_SCOPE)), Err(ApiError::Unauthorized));
    assert_eq!(authorize_claims(&claims("seller-1", TENANT, "openid")), Err(ApiError::Unauthorized));
}

#[test]
fn bearer_prefix_is_required() {
    assert_eq!(bearer_token(Some("Bearer abc.def")), Ok("abc.def".to_string()));
    assert_eq!(bearer_token(Some("bearer abc")), Err(ApiError::Unauthorized));
    assert_eq!(bearer_token(Some("Bearer")), Err(ApiError::Unauthorized));
    assert_eq!(bearer_token(None), Err(ApiError::Unauthorized));
    assert_eq!(bearer_token(Some("Bearer ")), Ok(String::new()));
}

#[test]
fn test_seller_tokens_need_a_subject() {
    assert_eq!(test_subject("test-seller:alice"), Some("alice".to_string()));
    assert_eq!(test_subject("test-seller:"), None);
    assert_eq!(test_subject("eyJ.x.y"), None);
}

#[test]
fn key_id_is_read_from_the_token_header() {
    let with_kid = "eyJhbGciOiJSUzI1NiIsInR5cCI6IkpXVCIsImtpZCI6ImtleS0xIn0.e30.c2ln";
    assert_eq!(token_key_id(with_kid), Ok("key-1".to_string()));
    let without_kid = "eyJhbGciOiJSUzI1NiIsInR5cCI6IkpXVCJ9.e30.c2ln";
    assert_eq!(token_key_id(without_kid), Err(ApiError::Unauthorized));
    assert_eq!(token_key_id("not-a-token"), Err(ApiError::Unauthorized));
    assert_eq!(kid_from_header(Some(Some("k".to_string()))), Ok("k".to_string()));
    assert_eq!(kid_from_header(Some(None)), Err(ApiError::Unauthorized));
    assert_eq!(kid_from_header(None), Err(ApiError::Unauthorized));
}

#[test]
fn first_published_key_with_the_id_is_chosen() {
    let ids = vec![None, Some("a".to_string()), Some("b".to_string()), Some("b".to_string())];
    assert_eq!(find_key(&ids, "b"), Some(2));
    assert_eq!(find_key(&ids, "a"), Some(1));
    assert_eq!(find_key(&ids, "c"), None);
    assert_eq!(find_key(&vec![], "a"), None);
}

#[test]
fn signing_keys_are_cached_for_an_hour() {
    assert!(keys_cache_usable(false, Some(0)));
    assert!(keys_cache_usable(false, Some(KEY_CACHE_NS - 1)));
    assert!(!keys_cache_usable(false, Some(KEY_CACHE_NS)));
    assert!(!keys_cache_usable(true, Some(0)));
    assert!(!keys_cache_usable(false, None));
}

#[test]
fn auth_config_names_the_api_scope() {
    let c = auth_config();
    assert_eq!(c.client_id, CLIENT);
    assert_eq!(
        c.authority,
        "https://sociobotcustomers.ciamlogin.com/35c6fe40-0ec0-46b6-98c6-213ad4de6650/"
    );
    assert_eq!(c.scope, "api://25c704f4-465a-47af-80ab-2c489466b697/access_as_user");
}

#[test]
fn scope_check_agrees_with_ascii_whitespace_splitting() {
    for s in [
        "", " ", "access_as_user", " access_as_user ", "a\x0baccess_as_user", "access_as_user\x0b",
        "openid  profile\taccess_as_user", "access_as_userX access_as_use", "é access_as_user é",
        "access_as_user,openid", "\x0caccess_as_user\r",
    ] {
        let expected = s.split_ascii_whitespace().any(|w| w == API_SCOPE);
        assert_eq!(has_api_scope(s), expected, "input {s:?}");
    }
}

#[test]
fn unknown_keys_are_fetched_once_more_then_refused() {
    let ids = vec![Some("a".to_string()), Some("b".to_string())];
    assert_eq!(key_lookup_step(&ids, "b", false), KeyLookup::Use(1));
    assert_eq!(key_lookup_step(&ids, "b", true), KeyLookup::Use(1));
    assert_eq!(key_lookup_step(&ids, "c", false), KeyLookup::Refresh);
    assert_eq!(key_lookup_step(&ids, "c", true), KeyLookup::Reject);
}
