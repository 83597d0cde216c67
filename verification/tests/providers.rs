use nblm::provider::{EnvTokenProvider, GcloudTokenProvider, ProviderKind, StaticTokenProvider};

#[test]
fn provider_kind_as_str_returns_correct_labels() {
    assert_eq!(ProviderKind::GcloudOauth.as_str(), "gcloud-oauth");
    assert_eq!(ProviderKind::EnvAccessToken.as_str(), "env-access-token");
    assert_eq!(ProviderKind::StaticToken.as_str(), "static-token");
    assert_eq!(ProviderKind::UserOauth.as_str(), "user-oauth");
}

#[test]
fn provider_kind_is_experimental_only_for_user_oauth() {
    assert!(!ProviderKind::GcloudOauth.is_experimental());
    assert!(!ProviderKind::EnvAccessToken.is_experimental());
    assert!(!ProviderKind::StaticToken.is_experimental());
    assert!(ProviderKind::UserOauth.is_experimental());
}

#[test]
fn service_account_kind_has_its_own_label() {
    assert_eq!(ProviderKind::ServiceAccount.as_str(), "service-account");
    assert!(!ProviderKind::ServiceAccount.is_experimental());
}

#[test]
fn static_token_provider_returns_correct_kind() {
    let provider = StaticTokenProvider::new("token".to_string());
    assert_eq!(provider.kind(), ProviderKind::StaticToken);
}

#[test]
fn gcloud_token_provider_returns_correct_kind() {
    let provider = GcloudTokenProvider::new("gcloud".to_string());
    assert_eq!(provider.kind(), ProviderKind::GcloudOauth);
}

#[test]
fn env_token_provider_returns_correct_kind() {
    let provider = EnvTokenProvider::new("TEST_TOKEN".to_string());
    assert_eq!(provider.kind(), ProviderKind::EnvAccessToken);
}

#[test]
fn static_token_provider_returns_token() {
    let provider = StaticTokenProvider::new("test-token-123".to_string());
    let token = provider.access_token().unwrap();
    assert_eq!(token, "test-token-123");
}

// The static provider is deterministic: any number of calls return the
// configured value unchanged, and refresh returns it again.
#[test]
fn static_token_provider_is_deterministic_across_calls() {
    let provider = StaticTokenProvider::new("fixed".to_string());
    for _ in 0..5 {
        assert_eq!(provider.access_token().unwrap(), "fixed");
    }
    assert_eq!(provider.refresh_token().unwrap(), "fixed");
}

#[test]
fn env_token_provider_reads_from_lookup() {
    let provider = EnvTokenProvider::new("TEST_NBLM_TOKEN".to_string());
    let token = provider.token_from_lookup(Some("env-token-456".to_string())).unwrap();
    assert_eq!(token, "env-token-456");
}

#[test]
fn env_token_provider_errors_when_missing() {
    let provider = EnvTokenProvider::new("NONEXISTENT_TOKEN".to_string());
    let result = provider.token_from_lookup(None);
    assert!(result.is_err());
    assert!(result
        .unwrap_err()
        .render()
        .contains("environment variable NONEXISTENT_TOKEN missing"));
}

#[test]
fn env_token_provider_returns_set_value_unchanged() {
    let provider = EnvTokenProvider::new("VAR".to_string());
    assert_eq!(provider.token_from_lookup(Some("abc".to_string())).unwrap(), "abc");
}

#[test]
fn gcloud_output_is_trimmed_on_success() {
    let provider = GcloudTokenProvider::new("gcloud".to_string());
    let token = provider
        .token_from_output(true, Some("  ya29.token\n".to_string()), &String::new())
        .unwrap();
    assert_eq!(token, "ya29.token");
}

#[test]
fn gcloud_failure_carries_trimmed_stderr() {
    let provider = GcloudTokenProvider::new("gcloud".to_string());
    let err = provider
        .token_from_output(false, None, &"boom\n".to_string())
        .unwrap_err();
    let rendered = err.render();
    assert!(rendered.contains("gcloud auth login"));
    assert!(rendered.ends_with("Error: boom"));
}

#[test]
fn gcloud_non_utf8_output_is_rejected() {
    let provider = GcloudTokenProvider::new("gcloud".to_string());
    let err = provider.token_from_output(true, None, &String::new()).unwrap_err();
    assert!(err.render().contains("invalid UTF-8 token"));
}
