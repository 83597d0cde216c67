use nblm::doctor::{
    check_commands, check_environment_variables, command_checks, env_var_checks,
    evaluate_command, evaluate_env_var, CheckResult, CheckStatus, DiagnosticsSummary,
};
use nblm::models::{ProjectRole, TextContent, UserContent};
use nblm::share::{account_roles_for, ShareRole};
use nblm::sources::{
    build_add_source_contents, resolve_upload_meta, validate_upload_inputs, AddArgs,
};

fn add_args() -> AddArgs {
    AddArgs {
        notebook_id: "nb".to_string(),
        web_urls: vec![],
        web_names: vec![],
        texts: vec![],
        text_names: vec![],
        drive_document_ids: vec![],
        drive_mime_types: vec![],
        drive_names: vec![],
        video_urls: vec![],
    }
}

#[test]
fn test_check_status_markers() {
    assert_eq!(CheckStatus::Pass.as_marker(), "   [ok]");
    assert_eq!(CheckStatus::Warning.as_marker(), " [warn]");
    assert_eq!(CheckStatus::Error.as_marker(), "[error]");
}

#[test]
fn test_check_status_exit_codes() {
    assert_eq!(CheckStatus::Pass.exit_code(), 0);
    assert_eq!(CheckStatus::Warning.exit_code(), 1);
    assert_eq!(CheckStatus::Error.exit_code(), 2);
}

#[test]
fn test_check_status_colored_markers() {
    // Colors may be on or off depending on the terminal; the marker text
    // is present either way.
    assert!(CheckStatus::Pass.as_marker_colored().contains("[ok]"));
    assert!(CheckStatus::Warning.as_marker_colored().contains("[warn]"));
    assert!(CheckStatus::Error.as_marker_colored().contains("[error]"));
}

#[test]
fn test_check_result_format() {
    let result = CheckResult::new("test".to_string(), CheckStatus::Pass, "Test passed".to_string());
    assert_eq!(result.format(), "   [ok] Test passed");

    let result_with_suggestion = CheckResult::new(
        "test".to_string(),
        CheckStatus::Warning,
        "Test warning".to_string(),
    )
    .with_suggestion("Try this fix".to_string());
    assert!(result_with_suggestion.format().contains("Suggestion:"));
}

#[test]
fn test_diagnostics_summary_exit_code() {
    let summary = DiagnosticsSummary::new(vec![
        CheckResult::new("test1".to_string(), CheckStatus::Pass, "Pass".to_string()),
        CheckResult::new("test2".to_string(), CheckStatus::Pass, "Pass".to_string()),
    ]);
    assert_eq!(summary.exit_code(), 0);

    let summary = DiagnosticsSummary::new(vec![
        CheckResult::new("test1".to_string(), CheckStatus::Pass, "Pass".to_string()),
        CheckResult::new("test2".to_string(), CheckStatus::Warning, "Warning".to_string()),
    ]);
    assert_eq!(summary.exit_code(), 1);

    let summary = DiagnosticsSummary::new(vec![
        CheckResult::new("test1".to_string(), CheckStatus::Pass, "Pass".to_string()),
        CheckResult::new("test2".to_string(), CheckStatus::Error, "Error".to_string()),
    ]);
    assert_eq!(summary.exit_code(), 2);
}

#[test]
fn summary_lines_count_failures() {
    let summary = DiagnosticsSummary::new(vec![
        CheckResult::new("a".to_string(), CheckStatus::Pass, "ok".to_string()),
        CheckResult::new("b".to_string(), CheckStatus::Pass, "ok".to_string()),
    ]);
    assert_eq!(summary.format_summary(), "\nSummary: All 2 checks passed.");
    assert_eq!(summary.count_by_status(CheckStatus::Pass), 2);

    let summary = DiagnosticsSummary::new(vec![
        CheckResult::new("a".to_string(), CheckStatus::Error, "bad".to_string()),
        CheckResult::new("b".to_string(), CheckStatus::Warning, "meh".to_string()),
        CheckResult::new("c".to_string(), CheckStatus::Pass, "ok".to_string()),
    ]);
    assert_eq!(
        summary.format_summary(),
        "\nSummary: 2 checks failing out of 3. See above for details."
    );
}

#[test]
fn env_var_check_reports_set_and_missing() {
    let table = env_var_checks();
    let set = evaluate_env_var(&table[0], &Some("42".to_string()));
    assert_eq!(set.status, CheckStatus::Pass);
    assert!(set.message.contains("NBLM_PROJECT_NUMBER=42"));

    let missing = evaluate_env_var(&table[0], &None);
    assert_eq!(missing.status, CheckStatus::Error);
    assert!(missing.message.contains("NBLM_PROJECT_NUMBER missing"));
    assert!(missing.suggestion.is_some());

    let optional_missing = evaluate_env_var(&table[1], &Some(String::new()));
    assert_eq!(optional_missing.status, CheckStatus::Warning);
}

#[test]
fn env_var_check_hides_the_access_token() {
    let table = env_var_checks();
    let hidden = evaluate_env_var(&table[3], &Some("secret".to_string()));
    assert_eq!(hidden.status, CheckStatus::Pass);
    assert!(!hidden.message.contains("secret"));
    assert!(hidden.message.contains("set (value hidden)"));
}

#[test]
fn check_environment_variables_follows_the_table() {
    let results = check_environment_variables(&vec![
        Some("1".to_string()),
        None,
        None,
        None,
    ]);
    assert_eq!(results.len(), 4);
    assert_eq!(results[0].status, CheckStatus::Pass);
    assert_eq!(results[1].status, CheckStatus::Warning);
}

#[test]
fn command_check_reports_version_or_absence() {
    let table = command_checks();
    let found = evaluate_command(&table[0], &Some("Google Cloud SDK 441.0.0\nbq 2.0\n".to_string()));
    assert_eq!(found.status, CheckStatus::Pass);
    assert!(found.message.contains("gcloud is installed (Google Cloud SDK 441.0.0)"));

    let results = check_commands(&vec![None]);
    assert_eq!(results.len(), 1);
    assert_eq!(results[0].status, CheckStatus::Warning);
    assert!(results[0].message.contains("gcloud command not found"));
}

#[test]
fn drive_scope_check_passes_with_valid_scope() {
    let granted = nblm::doctor::scopes_include(
        &"https://www.googleapis.com/auth/drive.file".to_string(),
        "https://www.googleapis.com/auth/drive.file",
    );
    assert!(granted);
    let results =
        nblm::doctor::check_drive_access_token(&nblm::doctor::DriveScopeProbe::Granted(granted));
    assert_eq!(results.len(), 1);
    assert_eq!(results[0].status, CheckStatus::Pass);
    assert!(results[0].message.contains("grants Google Drive access"));
}

#[test]
fn drive_scope_check_reports_missing_scope() {
    let granted = nblm::doctor::scopes_include(
        &"https://www.googleapis.com/auth/cloud-platform".to_string(),
        "https://www.googleapis.com/auth/drive.file",
    );
    assert!(!granted);
    let results =
        nblm::doctor::check_drive_access_token(&nblm::doctor::DriveScopeProbe::Granted(granted));
    assert_eq!(results.len(), 1);
    assert_eq!(results[0].status, CheckStatus::Warning);
    assert!(results[0].message.contains("lacks Google Drive scope"));
}

#[test]
fn drive_scope_check_without_token_emits_nothing() {
    let results = nblm::doctor::check_drive_access_token(&nblm::doctor::DriveScopeProbe::NoToken);
    assert!(results.is_empty());
    let results = nblm::doctor::check_drive_access_token(
        &nblm::doctor::DriveScopeProbe::Unconfirmed("timed out".to_string()),
    );
    assert_eq!(results.len(), 1);
    assert!(results[0].message.contains("Could not confirm"));
    assert!(results[0].message.contains("timed out"));
}

#[test]
fn account_role_default_is_reader() {
    let default_role = ProjectRole::default();
    assert!(matches!(default_role, ProjectRole::ProjectRoleReader));
}

#[test]
fn add_sources_builds_request_correctly() {
    let contents = vec![UserContent::Text {
        text_content: TextContent {
            content: "Content".to_string(),
            source_name: Some("Test".to_string()),
        },
    }];
    let request = nblm::models::BatchCreateSourcesRequest {
        user_contents: contents.clone(),
    };
    assert_eq!(request.user_contents.len(), 1);
}

#[test]
fn build_add_source_contents_orders_the_sources() {
    let mut args = add_args();
    args.web_urls = vec!["https://example.com".to_string()];
    args.web_names = vec!["  Example  ".to_string()];
    args.texts = vec!["some text".to_string()];
    args.drive_document_ids = vec!["doc1".to_string()];
    args.drive_mime_types = vec!["application/pdf".to_string()];
    args.video_urls = vec!["https://youtube.com/watch?v=1".to_string()];
    let contents = build_add_source_contents(&args).unwrap();
    assert_eq!(contents.len(), 4);
    match &contents[0] {
        UserContent::Web { web_content } => {
            assert_eq!(web_content.url, "https://example.com");
            assert_eq!(web_content.source_name.as_deref(), Some("Example"));
        }
        _ => panic!("expected a web source first"),
    }
    assert!(matches!(&contents[1], UserContent::Text { .. }));
    match &contents[2] {
        UserContent::GoogleDrive { google_drive_content } => {
            assert_eq!(google_drive_content.document_id, "doc1");
            assert_eq!(google_drive_content.mime_type, "application/pdf");
        }
        _ => panic!("expected a drive source third"),
    }
    assert!(matches!(&contents[3], UserContent::Video { .. }));
}

#[test]
fn build_add_source_contents_rejects_bad_inputs() {
    let mut args = add_args();
    let err = build_add_source_contents(&args).unwrap_err();
    assert!(err.render().contains("at least one source must be specified"));

    args = add_args();
    args.texts = vec!["   ".to_string()];
    let err = build_add_source_contents(&args).unwrap_err();
    assert!(err.render().contains("--text cannot be empty"));

    args = add_args();
    args.drive_document_ids = vec!["doc1".to_string()];
    let err = build_add_source_contents(&args).unwrap_err();
    assert!(err.render().contains("must be specified in pairs (got 1 document IDs and 0 mime types)"));

    args = add_args();
    args.web_urls = vec!["ftp://example.com".to_string()];
    let err = build_add_source_contents(&args).unwrap_err();
    assert!(err.render().contains("unsupported URL scheme"));
}

#[test]
fn upload_inputs_must_not_be_blank() {
    let ok = validate_upload_inputs(
        &"nb".to_string(),
        &"file.txt".to_string(),
        &"text/plain".to_string(),
    );
    assert!(ok.is_ok());
    let err = validate_upload_inputs(&"  ".to_string(), &"f".to_string(), &"t".to_string());
    assert!(err.unwrap_err().render().contains("notebook_id cannot be empty"));
    let err = validate_upload_inputs(&"nb".to_string(), &" ".to_string(), &"t".to_string());
    assert!(err.unwrap_err().render().contains("file name cannot be empty"));
    let err = validate_upload_inputs(&"nb".to_string(), &"f".to_string(), &"".to_string());
    assert!(err.unwrap_err().render().contains("content type cannot be empty"));
}

#[test]
fn upload_meta_prefers_explicit_values() {
    let (name, ctype) = resolve_upload_meta(
        &Some("  Nice Name  ".to_string()),
        &Some("file.bin".to_string()),
        &Some(" text/plain ".to_string()),
        "application/octet-stream".to_string(),
    )
    .unwrap();
    assert_eq!(name, "Nice Name");
    assert_eq!(ctype, "text/plain");

    let (name, ctype) = resolve_upload_meta(
        &None,
        &Some("file.bin".to_string()),
        &None,
        "application/octet-stream".to_string(),
    )
    .unwrap();
    assert_eq!(name, "file.bin");
    assert_eq!(ctype, "application/octet-stream");

    let err = resolve_upload_meta(&None, &None, &None, "x".to_string()).unwrap_err();
    assert!(err.render().contains("could not determine file name"));
}

#[test]
fn page_size_is_clamped_to_the_accepted_range() {
    assert_eq!(nblm::notebooks::clamp_page_size(0), 1);
    assert_eq!(nblm::notebooks::clamp_page_size(50), 50);
    assert_eq!(nblm::notebooks::clamp_page_size(9999), 500);
}

#[test]
fn share_roles_map_to_project_roles() {
    let accounts = account_roles_for(
        &vec!["a@example.com".to_string(), "b@example.com".to_string()],
        ShareRole::Writer,
    );
    assert_eq!(accounts.len(), 2);
    assert_eq!(accounts[0].email, "a@example.com");
    assert!(matches!(accounts[0].role, ProjectRole::ProjectRoleWriter));
    let owner = ShareRole::Owner.account_role("c@example.com".to_string());
    assert!(matches!(owner.role, ProjectRole::ProjectRoleOwner));
}
