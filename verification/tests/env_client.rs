use nblm::args::{
    auth_method_label, check_auth_method_allowed, choose_provider, parse_pre_command,
    resolve_profile_params, AuthMethod, AuthSubcommand, GlobalArgs, OAuthBootstrapper,
    ProfileArg, ProviderChoice, SpecialCommand,
};
use nblm::envcfg::{normalize_endpoint_location, ApiProfile, EnvironmentConfig, ProfileParams};
use nblm::urlbuild::UrlBuilder;
use nblm::validate::{pair_with_names, validate_url};

fn make_test_args(
    project_number: Option<String>,
    location: &str,
    endpoint_location: &str,
    profile: ProfileArg,
) -> GlobalArgs {
    GlobalArgs {
        project_number,
        location: location.to_string(),
        endpoint_location: endpoint_location.to_string(),
        profile,
        auth: AuthMethod::Gcloud,
        token: None,
        json: false,
        debug_http: false,
        timeout_ms: None,
        env_token: None,
        base_url: None,
    }
}

#[test]
fn resolve_profile_params_enterprise_requires_project_number() {
    let args = make_test_args(None, "global", "us", ProfileArg::Enterprise);
    let err = resolve_profile_params(&args, ApiProfile::Enterprise).unwrap_err();
    assert!(err.render().contains("requires --project-number"));
}

#[test]
fn resolve_profile_params_enterprise_rejects_empty_project_number() {
    let args = make_test_args(Some("  ".to_string()), "global", "us", ProfileArg::Enterprise);
    let err = resolve_profile_params(&args, ApiProfile::Enterprise).unwrap_err();
    assert!(err.render().contains("requires --project-number"));
}

#[test]
fn resolve_profile_params_enterprise_accepts_valid_project_number() {
    let args = make_test_args(Some("123456".to_string()), "us", "us", ProfileArg::Enterprise);
    let params = resolve_profile_params(&args, ApiProfile::Enterprise).unwrap();
    assert_eq!(params.expected_profile(), ApiProfile::Enterprise);
}

#[test]
fn resolve_profile_params_enterprise_defaults_empty_location_to_global() {
    let args = make_test_args(Some("123456".to_string()), "  ", "us", ProfileArg::Enterprise);
    let params = resolve_profile_params(&args, ApiProfile::Enterprise).unwrap();
    let env = EnvironmentConfig::from_profile(ApiProfile::Enterprise, params).unwrap();
    assert!(env.parent_path().contains("locations/global"));
}

#[test]
fn resolve_profile_params_enterprise_defaults_empty_endpoint_to_global() {
    let args = make_test_args(Some("123456".to_string()), "global", "  ", ProfileArg::Enterprise);
    let params = resolve_profile_params(&args, ApiProfile::Enterprise).unwrap();
    let env = EnvironmentConfig::from_profile(ApiProfile::Enterprise, params).unwrap();
    assert!(env.base_url().contains("global-discoveryengine"));
}

#[test]
fn resolve_profile_params_personal_returns_personal_params() {
    let args = make_test_args(None, "global", "us", ProfileArg::Personal);
    let params = resolve_profile_params(&args, ApiProfile::Personal).unwrap();
    assert_eq!(params.expected_profile(), ApiProfile::Personal);
}

#[test]
fn resolve_profile_params_workspace_returns_workspace_params() {
    let args = make_test_args(None, "global", "us", ProfileArg::Workspace);
    let params = resolve_profile_params(&args, ApiProfile::Workspace).unwrap();
    assert_eq!(params.expected_profile(), ApiProfile::Workspace);
}

#[test]
fn test_parse_pre_command() {
    // doctor
    let args = vec!["nblm".to_string(), "doctor".to_string()];
    match parse_pre_command(&args) {
        Some(SpecialCommand::Doctor(_)) => {}
        _ => panic!("expected Doctor command"),
    }

    // auth
    let args = vec!["nblm".to_string(), "auth".to_string(), "login".to_string()];
    match parse_pre_command(&args) {
        Some(SpecialCommand::Auth(cmd)) => match cmd.command {
            AuthSubcommand::Login(_) => {}
            _ => panic!("expected Login subcommand"),
        },
        _ => panic!("expected Auth command"),
    }

    // a normal command falls through to the full parser
    let args = vec!["nblm".to_string(), "notebooks".to_string()];
    assert!(parse_pre_command(&args).is_none());
}

#[test]
fn parse_pre_command_reads_flags() {
    let args = vec![
        "nblm".to_string(),
        "doctor".to_string(),
        "--skip-api-check".to_string(),
    ];
    match parse_pre_command(&args) {
        Some(SpecialCommand::Doctor(d)) => assert!(d.skip_api_check),
        _ => panic!("expected Doctor command"),
    }
    let args = vec![
        "nblm".to_string(),
        "auth".to_string(),
        "login".to_string(),
        "--drive-access".to_string(),
    ];
    match parse_pre_command(&args) {
        Some(SpecialCommand::Auth(cmd)) => match cmd.command {
            AuthSubcommand::Login(l) => assert!(l.drive_access),
            _ => panic!("expected Login subcommand"),
        },
        _ => panic!("expected Auth command"),
    }
    let args = vec!["nblm".to_string(), "auth".to_string(), "status".to_string()];
    match parse_pre_command(&args) {
        Some(SpecialCommand::Auth(cmd)) => assert!(matches!(cmd.command, AuthSubcommand::Status)),
        _ => panic!("expected Auth command"),
    }
}

#[test]
fn auth_method_label_returns_correct_labels() {
    assert_eq!(auth_method_label(AuthMethod::Gcloud), "gcloud");
    assert_eq!(auth_method_label(AuthMethod::Env), "env");
    assert_eq!(auth_method_label(AuthMethod::UserOauth), "user-oauth");
}

#[test]
fn auth_method_requires_experimental_flag_only_for_user_oauth() {
    assert!(!AuthMethod::Gcloud.requires_experimental_flag());
    assert!(!AuthMethod::Env.requires_experimental_flag());
    assert!(AuthMethod::UserOauth.requires_experimental_flag());
}

#[test]
fn user_oauth_requires_experiment_flag() {
    let err = check_auth_method_allowed(AuthMethod::UserOauth, false).unwrap_err();
    assert!(err.render().contains("experimental"));
    assert!(check_auth_method_allowed(AuthMethod::UserOauth, true).is_ok());
    assert!(check_auth_method_allowed(AuthMethod::Gcloud, false).is_ok());
    assert!(check_auth_method_allowed(AuthMethod::Env, false).is_ok());
}

#[test]
fn choose_provider_prefers_explicit_token_for_env_auth() {
    let mut args = make_test_args(Some("1".to_string()), "global", "global", ProfileArg::Enterprise);
    args.auth = AuthMethod::Env;
    args.token = Some("token".to_string());
    args.env_token = Some("other".to_string());
    match choose_provider(&args, false, None).unwrap() {
        ProviderChoice::Static { token } => assert_eq!(token, "token"),
        _ => panic!("expected a static provider"),
    }
    args.token = None;
    match choose_provider(&args, false, None).unwrap() {
        ProviderChoice::Static { token } => assert_eq!(token, "other"),
        _ => panic!("expected a static provider"),
    }
    args.env_token = None;
    match choose_provider(&args, false, None).unwrap() {
        ProviderChoice::Env { key } => assert_eq!(key, "NBLM_ACCESS_TOKEN"),
        _ => panic!("expected the env provider"),
    }
}

#[test]
fn choose_provider_defaults_gcloud_binary() {
    let args = make_test_args(Some("1".to_string()), "global", "global", ProfileArg::Enterprise);
    match choose_provider(&args, false, None).unwrap() {
        ProviderChoice::Gcloud { binary } => assert_eq!(binary, "gcloud"),
        _ => panic!("expected the gcloud provider"),
    }
    match choose_provider(&args, false, Some("/opt/bin/gcloud".to_string())).unwrap() {
        ProviderChoice::Gcloud { binary } => assert_eq!(binary, "/opt/bin/gcloud"),
        _ => panic!("expected the gcloud provider"),
    }
}

#[test]
fn build_store_key_includes_all_fields() {
    let args = make_test_args(
        Some("test-project-123".to_string()),
        "us",
        "us",
        ProfileArg::Enterprise,
    );
    let key = OAuthBootstrapper::build_store_key(&args, "test-project-123".to_string());
    assert_eq!(key.profile, ApiProfile::Enterprise);
    assert_eq!(key.project_number, Some("test-project-123".to_string()));
    assert_eq!(key.endpoint_location, Some("us".to_string()));
    assert_eq!(key.user_hint, None);
}

#[test]
fn build_store_key_generates_different_keys_for_different_configs() {
    let args1 = make_test_args(Some("project-1".to_string()), "global", "global", ProfileArg::Enterprise);
    let args2 = make_test_args(Some("project-2".to_string()), "us", "us", ProfileArg::Enterprise);
    let key1 = OAuthBootstrapper::build_store_key(&args1, "project-1".to_string());
    let key2 = OAuthBootstrapper::build_store_key(&args2, "project-2".to_string());
    assert_ne!(key1.project_number, key2.project_number);
    assert_ne!(key1.endpoint_location, key2.endpoint_location);
    // The string form is what keys the store.
    assert_ne!(key1.storage_key(), key2.storage_key());
}

#[test]
fn get_project_number_returns_error_when_missing() {
    let mut args = make_test_args(Some("123456".to_string()), "global", "global", ProfileArg::Enterprise);
    args.project_number = None;
    let result = OAuthBootstrapper::get_project_number(&args);
    assert!(result.is_err());
    let error = result.unwrap_err();
    assert!(error.render().contains("project-number"));
    assert!(error.render().contains("required"));
}

#[test]
fn get_project_number_returns_value_when_present() {
    let args = make_test_args(Some("123456".to_string()), "global", "global", ProfileArg::Enterprise);
    let result = OAuthBootstrapper::get_project_number(&args);
    assert!(result.is_ok());
    assert_eq!(result.unwrap(), "123456");
}

#[test]
fn trims_and_pairs_names() {
    let values = vec!["https://example.com".to_string()];
    let names = vec!["  Example  ".to_string()];
    let pairs = pair_with_names(&values, &names, "--name").unwrap();
    assert_eq!(pairs[0].0, "https://example.com");
    assert_eq!(pairs[0].1.as_deref(), Some("Example"));
}

#[test]
fn empty_name_becomes_none() {
    let values = vec!["https://example.com".to_string()];
    let names = vec!["   ".to_string()];
    let pairs = pair_with_names(&values, &names, "--name").unwrap();
    assert!(pairs[0].1.is_none());
}

#[test]
fn len_mismatch_errors() {
    let values = vec!["https://example.com".to_string()];
    let names = vec!["one".to_string(), "two".to_string()];
    assert!(pair_with_names(&values, &names, "--name").is_err());
}

#[test]
fn mod_normalize_endpoint_location_variants() {
    assert_eq!(
        normalize_endpoint_location("us".into()).unwrap(),
        "us-".to_string()
    );
    assert_eq!(
        normalize_endpoint_location("eu-".into()).unwrap(),
        "eu-".to_string()
    );
    assert_eq!(
        normalize_endpoint_location(" global ".into()).unwrap(),
        "global-".to_string()
    );
}

#[test]
fn mod_normalize_endpoint_location_invalid() {
    let err = normalize_endpoint_location("asia".into()).unwrap_err();
    assert!(err.render().contains("unsupported endpoint location"));
}

#[test]
fn client_normalize_endpoint_location_variants() {
    assert_eq!(
        normalize_endpoint_location("us".into()).unwrap(),
        "us-".to_string()
    );
    assert_eq!(
        normalize_endpoint_location("eu-".into()).unwrap(),
        "eu-".to_string()
    );
    assert_eq!(
        normalize_endpoint_location(" global ".into()).unwrap(),
        "global-".to_string()
    );
}

#[test]
fn client_normalize_endpoint_location_invalid() {
    let err = normalize_endpoint_location("asia".into()).unwrap_err();
    assert!(err.render().contains("unsupported endpoint location"));
}

#[test]
fn normalize_endpoint_location_is_case_insensitive() {
    assert_eq!(normalize_endpoint_location("US".into()).unwrap(), "us-".to_string());
    assert_eq!(normalize_endpoint_location("Global--".into()).unwrap(), "global-".to_string());
}

#[test]
fn enterprise_constructor_builds_expected_urls() {
    let env = EnvironmentConfig::enterprise(
        "123".to_string(),
        "global".to_string(),
        "us".to_string(),
    )
    .unwrap();
    assert_eq!(env.profile(), ApiProfile::Enterprise);
    assert_eq!(env.base_url(), "https://us-discoveryengine.googleapis.com/v1alpha");
    assert_eq!(env.parent_path(), "projects/123/locations/global");
}

#[test]
fn with_base_url_overrides_base_url() {
    let env = EnvironmentConfig::enterprise(
        "123".to_string(),
        "global".to_string(),
        "us".to_string(),
    )
    .unwrap()
    .with_base_url("http://localhost:8080/v1alpha".to_string());
    assert_eq!(env.base_url(), "http://localhost:8080/v1alpha");
    assert_eq!(env.parent_path(), "projects/123/locations/global");
}

#[test]
fn api_profile_parse_accepts_enterprise() {
    let profile = ApiProfile::parse("enterprise").unwrap();
    assert_eq!(profile, ApiProfile::Enterprise);
    assert_eq!(profile.as_str(), "enterprise");
}

#[test]
fn for_profile_rejects_experimental_profiles() {
    let err = EnvironmentConfig::for_profile(
        ApiProfile::Personal,
        "123".to_string(),
        "global".to_string(),
        "us".to_string(),
    )
    .unwrap_err();
    assert!(err.render().contains("unsupported API profile"));
}

#[test]
fn build_url_combines_base_and_path_correctly() {
    let builder = UrlBuilder::new(
        "http://example.com/v1alpha".to_string(),
        "projects/123/locations/global".to_string(),
    );

    let url = builder.build_url(&"/projects/123/notebooks".to_string()).unwrap();
    assert_eq!(url, "http://example.com/v1alpha/projects/123/notebooks");

    let url = builder.build_url(&"projects/123/notebooks".to_string()).unwrap();
    assert_eq!(url, "http://example.com/v1alpha/projects/123/notebooks");
}

#[test]
fn build_upload_url_handles_v1alpha_correctly() {
    let builder = UrlBuilder::new(
        "https://us-discoveryengine.googleapis.com/v1alpha".to_string(),
        "projects/123/locations/global".to_string(),
    );
    let url = builder
        .build_upload_url(&"/projects/123/notebooks/abc/sources:uploadFile".to_string())
        .unwrap();
    assert_eq!(
        url,
        "https://us-discoveryengine.googleapis.com/upload/v1alpha/projects/123/notebooks/abc/sources:uploadFile"
    );
}

#[test]
fn notebook_paths_follow_the_parent() {
    let builder = UrlBuilder::new(
        "http://example.com/v1alpha".to_string(),
        "projects/123/locations/global".to_string(),
    );
    assert_eq!(builder.notebooks_collection(), "projects/123/locations/global/notebooks");
    assert_eq!(
        builder.notebook_path(&"abc".to_string()),
        "projects/123/locations/global/notebooks/abc"
    );
}

#[test]
fn build_url_rejects_a_relative_base() {
    let builder = UrlBuilder::new("/relative/path".to_string(), String::new());
    let err = builder.build_url(&"x".to_string()).unwrap_err();
    assert!(err.render().contains("invalid URL"));
}

#[test]
fn validate_url_checks_scheme() {
    assert!(validate_url(&"https://example.com".to_string()).is_ok());
    assert!(validate_url(&"http://example.com".to_string()).is_ok());
    let err = validate_url(&"ftp://example.com".to_string()).unwrap_err();
    assert!(err.render().contains("unsupported URL scheme: ftp"));
    let err = validate_url(&"not a url".to_string()).unwrap_err();
    assert!(err.render().contains("invalid URL"));
}

#[test]
fn delete_requests_carry_one_name_each() {
    let names = vec!["projects/1/notebooks/a".to_string(), "projects/1/notebooks/b".to_string()];
    let requests = nblm::notebooks::single_delete_requests(&names);
    assert_eq!(requests.len(), 2);
    assert_eq!(requests[0].names, vec!["projects/1/notebooks/a".to_string()]);
    assert_eq!(requests[1].names, vec!["projects/1/notebooks/b".to_string()]);
}

#[test]
fn notebook_id_is_the_trailing_segment() {
    assert_eq!(
        nblm::notebooks::notebook_id_from_name(&"projects/1/locations/g/notebooks/nb123".to_string()),
        "nb123"
    );
    assert_eq!(nblm::notebooks::notebook_id_from_name(&"bare-id".to_string()), "bare-id");
}
