use nblm::envcfg::ApiProfile;
use nblm::sa::{jwt_bearer_body, jwt_claims_json, json_escape, TokenCache};
use nblm::store::{SerializedTokens, TokenStore, TokenStoreKey};

fn sample_tokens(updated_at: i64) -> SerializedTokens {
    SerializedTokens {
        refresh_token: "refresh-123".to_string(),
        scopes: vec!["scope-a".to_string(), "scope-b".to_string()],
        expires_at: Some(1234567890),
        token_type: Some("Bearer".to_string()),
        updated_at,
    }
}

fn key(project: &str, endpoint: &str) -> TokenStoreKey {
    TokenStoreKey {
        profile: ApiProfile::Enterprise,
        project_number: Some(project.to_string()),
        endpoint_location: Some(endpoint.to_string()),
        user_hint: None,
    }
}

// Round trip: save followed by load returns an equal record; an unknown
// key returns none.
#[test]
fn store_round_trip_returns_equal_record() {
    let mut store = TokenStore::new();
    let k = key("123", "global");
    store.save(&k, sample_tokens(7));
    let loaded = store.load(&k).expect("record must be found");
    assert_eq!(loaded, sample_tokens(7));
}

#[test]
fn store_load_unknown_key_returns_none() {
    let mut store = TokenStore::new();
    store.save(&key("123", "global"), sample_tokens(7));
    assert!(store.load(&key("456", "global")).is_none());
    assert!(store.load(&key("123", "us")).is_none());
}

#[test]
fn store_save_overwrites_existing_record() {
    let mut store = TokenStore::new();
    let k = key("123", "global");
    store.save(&k, sample_tokens(1));
    store.save(&k, sample_tokens(2));
    assert_eq!(store.load(&k).unwrap().updated_at, 2);
}

#[test]
fn storage_key_is_stable_and_deterministic() {
    let k = key("123", "global");
    assert_eq!(k.storage_key(), "enterprise|:123|:global|~");
    assert_eq!(k.storage_key(), k.storage_key());
}

#[test]
fn storage_key_distinguishes_absent_and_empty_fields() {
    let absent = TokenStoreKey {
        profile: ApiProfile::Enterprise,
        project_number: None,
        endpoint_location: None,
        user_hint: None,
    };
    let empty = TokenStoreKey {
        profile: ApiProfile::Enterprise,
        project_number: Some(String::new()),
        endpoint_location: None,
        user_hint: None,
    };
    assert_ne!(absent.storage_key(), empty.storage_key());
}

#[test]
fn different_configs_resolve_to_independent_records() {
    let k1 = key("project-1", "global");
    let k2 = key("project-2", "us");
    assert_ne!(k1.storage_key(), k2.storage_key());
    let mut store = TokenStore::new();
    store.save(&k1, sample_tokens(1));
    store.save(&k2, sample_tokens(2));
    assert_eq!(store.load(&k1).unwrap().updated_at, 1);
    assert_eq!(store.load(&k2).unwrap().updated_at, 2);
}

// With a leeway larger than the granted lifetime the cached entry is
// already invalid on the very next fetch.
#[test]
fn cache_with_leeway_beyond_ttl_is_immediately_invalid() {
    let mut cache = TokenCache::new();
    let now = 1000;
    cache.store("tok".to_string(), now, 60, 90);
    assert!(cache.get(now).is_none());
    assert!(cache.get(now + 1).is_none());
}

// With a leeway smaller than the lifetime the cached token is returned
// unchanged on later calls inside the window.
#[test]
fn cache_within_window_returns_token_unchanged() {
    let mut cache = TokenCache::new();
    let now = 1000;
    cache.store("tok".to_string(), now, 120, 10);
    assert_eq!(cache.get(now).as_deref(), Some("tok"));
    assert_eq!(cache.get(now + 109).as_deref(), Some("tok"));
    assert!(cache.get(now + 110).is_none());
}

#[test]
fn cache_clear_forces_a_fresh_exchange() {
    let mut cache = TokenCache::new();
    cache.store("tok".to_string(), 0, 1000, 0);
    assert!(cache.get(1).is_some());
    cache.clear();
    assert!(cache.get(1).is_none());
}

#[test]
fn jwt_claims_json_is_exact() {
    let claims = jwt_claims_json(
        &"svc@example.iam".to_string(),
        &vec!["s1".to_string(), "s2".to_string()],
        &"https://oauth2.googleapis.com/token".to_string(),
        1700000000,
        3600,
    );
    assert_eq!(
        claims,
        "{\"iss\":\"svc@example.iam\",\"scope\":\"s1 s2\",\"aud\":\"https://oauth2.googleapis.com/token\",\"exp\":1700003600,\"iat\":1700000000}"
    );
}

#[test]
fn json_escape_handles_quotes_and_backslashes() {
    assert_eq!(json_escape("plain"), "plain");
    assert_eq!(json_escape("a\"b\\c"), "a\\\"b\\\\c");
}

#[test]
fn jwt_bearer_body_encodes_the_assertion() {
    let body = jwt_bearer_body(&"a.b.c=".to_string());
    assert_eq!(
        body,
        "grant_type=urn%3Aietf%3Aparams%3Aoauth%3Agrant-type%3Ajwt-bearer&assertion=a.b.c%3D"
    );
}

#[test]
fn bootstrapper_plan_reflects_the_store() {
    let mut b = nblm::args::OAuthBootstrapper::new().unwrap();
    let k = key("123", "global");
    assert_eq!(
        b.plan_for(&k, true),
        nblm::bootstrap::BootstrapPlan::SkipBootstrap
    );
    assert_eq!(
        b.plan_for(&k, false),
        nblm::bootstrap::BootstrapPlan::RunInteractive
    );
    b.store.save(&k, sample_tokens(1));
    assert_eq!(b.plan_for(&k, false), nblm::bootstrap::BootstrapPlan::UseStored);
}
