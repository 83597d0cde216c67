use nblm::bootstrap::{
    bootstrap_disabled_from_env, bootstrap_plan, flow_step, refresh_token_from_store,
    serialize_tokens, BootstrapPlan, FlowAction, FlowEvent, FlowFailure, FlowStage,
};
use nblm::callback::{callback_response, parse_callback_request, verify_callback, CallbackQuery};
use nblm::error::OAuthError;
use nblm::oauth::{
    build_authorize_url, code_exchange_body, finalize_token_response, refresh_body, split_scopes,
    AuthorizeParams, OAuthClientConfig, OAuthTokens, TokenResponse,
};
use nblm::store::SerializedTokens;

fn test_config() -> nblm::oauth::OAuthConfig {
    OAuthClientConfig {
        client_id: "client-id".to_string(),
        client_secret: None,
        redirect_uri: "http://localhost:9999".to_string(),
        audience: None,
    }
    .into_oauth_config()
}

#[test]
fn into_oauth_config_uses_well_known_endpoints() {
    let cfg = test_config();
    assert_eq!(cfg.auth_endpoint, "https://accounts.google.com/o/oauth2/v2/auth");
    assert_eq!(cfg.token_endpoint, "https://oauth2.googleapis.com/token");
    assert_eq!(cfg.scopes.len(), 2);
    assert_eq!(cfg.scopes[0], "https://www.googleapis.com/auth/cloud-platform");
    assert_eq!(cfg.scopes[1], "https://www.googleapis.com/auth/drive.file");
    assert_eq!(cfg.client_id, "client-id");
}

#[test]
fn authorize_url_carries_encoded_parameters() {
    let cfg = test_config();
    let params = AuthorizeParams {
        state: None,
        code_challenge: None,
        code_challenge_method: None,
    };
    let ctx = build_authorize_url(&cfg, &params, "state with space".to_string());
    assert_eq!(ctx.state, "state with space");
    assert!(ctx.url.starts_with("https://accounts.google.com/o/oauth2/v2/auth?response_type=code"));
    // percent-encoding is live: the space must not survive unencoded.
    assert!(ctx.url.contains("&state=state%20with%20space"));
    assert!(ctx.url.contains("&redirect_uri=http%3A%2F%2Flocalhost%3A9999"));
    assert!(ctx.url.contains("&access_type=offline&prompt=consent"));
}

#[test]
fn authorize_url_prefers_caller_state() {
    let cfg = test_config();
    let params = AuthorizeParams {
        state: Some("chosen".to_string()),
        code_challenge: None,
        code_challenge_method: None,
    };
    let ctx = build_authorize_url(&cfg, &params, "fresh".to_string());
    assert_eq!(ctx.state, "chosen");
}

#[test]
fn code_exchange_body_is_exact() {
    let cfg = test_config();
    let body = code_exchange_body(&cfg, &"the code".to_string());
    assert_eq!(
        body,
        "grant_type=authorization_code&code=the%20code&client_id=client-id&redirect_uri=http%3A%2F%2Flocalhost%3A9999"
    );
}

#[test]
fn refresh_body_includes_secret_when_configured() {
    let client = OAuthClientConfig {
        client_id: "cid".to_string(),
        client_secret: Some("sec ret".to_string()),
        redirect_uri: "http://localhost:1".to_string(),
        audience: None,
    };
    let cfg = client.into_oauth_config();
    let body = refresh_body(&cfg, &"rt".to_string());
    assert_eq!(
        body,
        "grant_type=refresh_token&refresh_token=rt&client_id=cid&client_secret=sec%20ret"
    );
}

#[test]
fn callback_parse_extracts_and_decodes_parameters() {
    let request =
        "GET /?code=a%20b&state=xyz&extra=1 HTTP/1.1\r\nHost: localhost\r\n\r\n".to_string();
    let q = parse_callback_request(&request);
    assert_eq!(q.code.as_deref(), Some("a b"));
    assert_eq!(q.state.as_deref(), Some("xyz"));
    assert!(q.error.is_none());
}

#[test]
fn callback_parse_without_query_carries_nothing() {
    let q = parse_callback_request(&"GET / HTTP/1.1\r\n\r\n".to_string());
    assert!(q.code.is_none() && q.state.is_none() && q.error.is_none());
}

#[test]
fn callback_parse_reports_provider_error() {
    let q = parse_callback_request(&"GET /?error=access_denied HTTP/1.1\r\n".to_string());
    assert_eq!(q.error.as_deref(), Some("access_denied"));
}

#[test]
fn callback_response_pages_match_outcome() {
    let ok = CallbackQuery {
        code: Some("c".to_string()),
        state: Some("s".to_string()),
        error: None,
    };
    assert!(callback_response(&ok).starts_with("HTTP/1.1 200 OK"));
    let failed = CallbackQuery {
        code: None,
        state: None,
        error: Some("denied".to_string()),
    };
    let page = callback_response(&failed);
    assert!(page.starts_with("HTTP/1.1 400 Bad Request"));
    assert!(page.contains("denied"));
    let invalid = CallbackQuery {
        code: None,
        state: None,
        error: None,
    };
    assert!(callback_response(&invalid).starts_with("HTTP/1.1 400 Bad Request"));
}

// CSRF: a callback whose state differs from the issued one fails with
// StateMismatch and never yields a code to exchange.
#[test]
fn verify_callback_rejects_state_mismatch() {
    let q = CallbackQuery {
        code: Some("the-code".to_string()),
        state: Some("attacker".to_string()),
        error: None,
    };
    let err = verify_callback(&"issued".to_string(), &q).unwrap_err();
    match err {
        OAuthError::StateMismatch { expected, actual } => {
            assert_eq!(expected, "issued");
            assert_eq!(actual, "attacker");
        }
        other => panic!("expected StateMismatch, got {}", other.render()),
    }
}

#[test]
fn verify_callback_accepts_exact_state() {
    let q = CallbackQuery {
        code: Some("the-code".to_string()),
        state: Some("issued".to_string()),
        error: None,
    };
    assert_eq!(verify_callback(&"issued".to_string(), &q).unwrap(), "the-code");
}

// The flow machine never produces a token-exchange action for a
// mismatched state: the flow ends in Failed(StateMismatch).
#[test]
fn flow_state_mismatch_never_triggers_exchange() {
    let cfg = test_config();
    let stage = FlowStage::ListeningForCallback {
        state: "issued".to_string(),
    };
    let q = CallbackQuery {
        code: Some("the-code".to_string()),
        state: Some("forged".to_string()),
        error: None,
    };
    let (next, action) = flow_step(&cfg, stage, FlowEvent::CallbackReceived(q), 0);
    assert!(matches!(
        next,
        FlowStage::Failed(FlowFailure::StateMismatch { .. })
    ));
    assert!(action.is_none());
}

#[test]
fn flow_good_callback_produces_exchange_request() {
    let cfg = test_config();
    let stage = FlowStage::ListeningForCallback {
        state: "issued".to_string(),
    };
    let q = CallbackQuery {
        code: Some("the-code".to_string()),
        state: Some("issued".to_string()),
        error: None,
    };
    let (next, action) = flow_step(&cfg, stage, FlowEvent::CallbackReceived(q), 0);
    assert!(matches!(next, FlowStage::CodeReceived { .. }));
    match action {
        Some(FlowAction::ExchangeCode { body }) => {
            assert!(body.starts_with("grant_type=authorization_code&code=the-code"));
        }
        _ => panic!("expected an exchange action"),
    }
}

// A callback timeout is terminal and persists nothing: the flow fails
// with Timeout and the machine yields no action at all.
#[test]
fn flow_timeout_fails_and_persists_nothing() {
    let cfg = test_config();
    let stage = FlowStage::ListeningForCallback {
        state: "issued".to_string(),
    };
    let (next, action) = flow_step(&cfg, stage, FlowEvent::CallbackTimedOut, 0);
    assert!(matches!(next, FlowStage::Failed(FlowFailure::Timeout)));
    assert!(action.is_none());
}

#[test]
fn flow_exchange_without_refresh_token_fails() {
    let cfg = test_config();
    let stage = FlowStage::CodeReceived {
        state: "s".to_string(),
        code: "c".to_string(),
    };
    let tokens = OAuthTokens {
        access_token: "at".to_string(),
        refresh_token: None,
        scope: None,
        token_type: None,
        expires_at: 100,
    };
    let (next, action) = flow_step(&cfg, stage, FlowEvent::ExchangeSucceeded(tokens), 50);
    match next {
        FlowStage::Failed(FlowFailure::ExchangeFailed(m)) => {
            assert_eq!(m, "no refresh token received");
        }
        _ => panic!("expected ExchangeFailed"),
    }
    assert!(action.is_none());
}

#[test]
fn flow_exchange_with_refresh_token_persists() {
    let cfg = test_config();
    let stage = FlowStage::CodeReceived {
        state: "s".to_string(),
        code: "c".to_string(),
    };
    let tokens = OAuthTokens {
        access_token: "at".to_string(),
        refresh_token: Some("rt".to_string()),
        scope: Some("a b".to_string()),
        token_type: Some("Bearer".to_string()),
        expires_at: 100,
    };
    let (next, action) = flow_step(&cfg, stage, FlowEvent::ExchangeSucceeded(tokens), 42);
    assert!(matches!(next, FlowStage::TokenExchanged { .. }));
    match action {
        Some(FlowAction::PersistTokens { tokens }) => {
            assert_eq!(tokens.refresh_token, "rt");
            assert_eq!(tokens.scopes, vec!["a".to_string(), "b".to_string()]);
            assert_eq!(tokens.expires_at, Some(100));
            assert_eq!(tokens.token_type.as_deref(), Some("Bearer"));
            assert_eq!(tokens.updated_at, 42);
        }
        _ => panic!("expected a persist action"),
    }
}

#[test]
fn serialize_tokens_splits_scopes() {
    let tokens = OAuthTokens {
        access_token: "at".to_string(),
        refresh_token: Some("rt".to_string()),
        scope: Some("  one   two  ".to_string()),
        token_type: None,
        expires_at: 9,
    };
    let record = serialize_tokens(&tokens, &"rt".to_string(), 1);
    assert_eq!(record.scopes, vec!["one".to_string(), "two".to_string()]);
}

#[test]
fn split_scopes_drops_empty_words() {
    let words = split_scopes(&" a  b ".to_string());
    assert_eq!(words, vec!["a".to_string(), "b".to_string()]);
    assert!(split_scopes(&String::new()).is_empty());
}

#[test]
fn finalize_token_response_defaults_expiry() {
    let resp = TokenResponse {
        access_token: "at".to_string(),
        refresh_token: None,
        scope: None,
        token_type: None,
        expires_in: None,
    };
    let tokens = finalize_token_response(resp, 1000).unwrap();
    assert_eq!(tokens.expires_at, 4600);
}

#[test]
fn finalize_token_response_rejects_empty_access_token() {
    let resp = TokenResponse {
        access_token: String::new(),
        refresh_token: None,
        scope: None,
        token_type: None,
        expires_in: Some(60),
    };
    let err = finalize_token_response(resp, 0).unwrap_err();
    assert!(err.render().contains("missing access_token"));
}

#[test]
fn bootstrap_plan_respects_disable_flag() {
    assert_eq!(bootstrap_plan(false, true), BootstrapPlan::SkipBootstrap);
    assert_eq!(bootstrap_plan(true, true), BootstrapPlan::SkipBootstrap);
    assert_eq!(bootstrap_plan(true, false), BootstrapPlan::UseStored);
    assert_eq!(bootstrap_plan(false, false), BootstrapPlan::RunInteractive);
}

#[test]
fn disable_flag_recognizes_truthy_values() {
    for value in ["1", "true", "TRUE", "yes", "YES", "on", "ON"] {
        assert!(
            bootstrap_disabled_from_env(Some(value.to_string())),
            "{} should disable bootstrap",
            value
        );
    }
    for value in ["0", "false", "", " off ", "noop"] {
        assert!(
            !bootstrap_disabled_from_env(Some(value.to_string())),
            "{} should keep bootstrap enabled",
            value
        );
    }
    assert!(!bootstrap_disabled_from_env(None));
}

#[test]
fn refresh_token_requires_a_stored_record() {
    let err = refresh_token_from_store(None).unwrap_err();
    assert!(err.render().contains("no refresh token stored"));
    let stored = SerializedTokens {
        refresh_token: "rt".to_string(),
        scopes: vec![],
        expires_at: None,
        token_type: None,
        updated_at: 0,
    };
    assert_eq!(refresh_token_from_store(Some(stored)).unwrap(), "rt");
}

#[test]
fn oauth_error_render_names_the_mismatch() {
    let err = OAuthError::StateMismatch {
        expected: "aaa".to_string(),
        actual: "bbb".to_string(),
    };
    assert_eq!(err.render(), "CSRF state mismatch: expected aaa, got bbb");
    assert_eq!(OAuthError::Timeout.render(), "OAuth callback timeout");
    assert_eq!(
        OAuthError::MissingEnvVar("NBLM_OAUTH_CLIENT_ID".to_string()).render(),
        "Missing required environment variable: NBLM_OAUTH_CLIENT_ID"
    );
}
