use nblm::error::Error;
use nblm::pipeline::{build_body_preview, execute_request, finalize_outcome};
use nblm::retry::{
    backoff_delay, run_with_retry, AttemptOutcome, RetryConfig, RetryDirective, Retryer,
};

fn resp(status: u16, body: &str) -> AttemptOutcome {
    AttemptOutcome::Response {
        status,
        retry_after_ms: None,
        body: body.to_string(),
    }
}

#[test]
fn retry_config_default_and_builders() {
    let cfg = RetryConfig::default();
    assert_eq!(cfg.min_delay_ms, 500);
    assert_eq!(cfg.max_delay_ms, 10000);
    assert_eq!(cfg.max_retries, 3);
    let fast = RetryConfig::default()
        .with_min_delay(5)
        .with_max_delay(20)
        .with_max_retries(2);
    assert_eq!(fast.min_delay_ms, 5);
    assert_eq!(fast.max_delay_ms, 20);
    assert_eq!(fast.max_retries, 2);
}

#[test]
fn backoff_doubles_and_caps() {
    let cfg = RetryConfig {
        min_delay_ms: 100,
        max_delay_ms: 450,
        max_retries: 5,
    };
    assert_eq!(backoff_delay(&cfg, 0), 100);
    assert_eq!(backoff_delay(&cfg, 1), 200);
    assert_eq!(backoff_delay(&cfg, 2), 400);
    assert_eq!(backoff_delay(&cfg, 3), 450);
    assert_eq!(backoff_delay(&cfg, 4), 450);
}

#[test]
fn retry_after_header_is_honored_verbatim() {
    let cfg = RetryConfig::default();
    let mut engine = Retryer::new(cfg);
    let outcome = AttemptOutcome::Response {
        status: 429,
        retry_after_ms: Some(123456),
        body: String::new(),
    };
    match engine.on_outcome(&outcome) {
        RetryDirective::RetryAfter(d) => assert_eq!(d, 123456),
        RetryDirective::Finish => panic!("429 must be retried"),
    }
}

#[test]
fn non_transient_outcome_finishes_immediately() {
    let cfg = RetryConfig::default();
    let mut engine = Retryer::new(cfg);
    assert!(matches!(
        engine.on_outcome(&resp(404, "nope")),
        RetryDirective::Finish
    ));
    // A 401 is not handled by the retry engine either.
    assert!(matches!(
        engine.on_outcome(&resp(401, "auth")),
        RetryDirective::Finish
    ));
}

// Two 429 responses followed by a success: exactly three attempts, and the
// call surfaces the success.
#[test]
fn retry_429_twice_then_success_makes_three_attempts() {
    let cfg = RetryConfig::default().with_min_delay(1).with_max_delay(2);
    let outcomes = vec![resp(429, ""), resp(429, ""), resp(200, "ok")];
    let attempts = run_with_retry(&cfg, &outcomes);
    assert_eq!(attempts, 3);
    let result = finalize_outcome(&outcomes[attempts - 1]);
    assert_eq!(result.unwrap(), "ok");
}

// Nothing but 429 with a budget of two retries: exactly three attempts,
// and the surfaced error names the status.
#[test]
fn retry_exhausted_on_429_surfaces_too_many_requests() {
    let cfg = RetryConfig::default()
        .with_min_delay(1)
        .with_max_delay(2)
        .with_max_retries(2);
    let outcomes = vec![resp(429, ""), resp(429, ""), resp(429, ""), resp(429, "")];
    let attempts = run_with_retry(&cfg, &outcomes);
    assert_eq!(attempts, 3);
    let err = finalize_outcome(&outcomes[attempts - 1]).unwrap_err();
    assert!(err.render().contains("Too Many Requests"));
}

#[test]
fn transport_failures_are_retried_until_exhausted() {
    let cfg = RetryConfig::default().with_max_retries(1);
    let outcomes = vec![
        AttemptOutcome::Transport("connection refused".to_string()),
        AttemptOutcome::Transport("connection refused".to_string()),
        AttemptOutcome::Transport("connection refused".to_string()),
    ];
    let attempts = run_with_retry(&cfg, &outcomes);
    assert_eq!(attempts, 2);
    let err = finalize_outcome(&outcomes[attempts - 1]).unwrap_err();
    assert!(err.render().contains("connection refused"));
}

// A 401 then a 200 after refresh: exactly one refresh call, and the call
// succeeds.
#[test]
fn pipeline_401_then_200_refreshes_once_and_succeeds() {
    let cfg = RetryConfig::default();
    let run = execute_request(
        &cfg,
        &Ok("token-1".to_string()),
        &vec![resp(401, "expired")],
        &Ok("token-2".to_string()),
        &vec![resp(200, "fresh")],
    );
    assert_eq!(run.refresh_calls, 1);
    assert_eq!(run.attempts, 2);
    assert_eq!(run.result.unwrap(), "fresh");
}

// A second consecutive 401 is terminal: still exactly one refresh call,
// and the call fails with the 401 error.
#[test]
fn pipeline_401_then_401_refreshes_once_and_fails() {
    let cfg = RetryConfig::default();
    let run = execute_request(
        &cfg,
        &Ok("token-1".to_string()),
        &vec![resp(401, "expired")],
        &Ok("token-2".to_string()),
        &vec![resp(401, "still expired")],
    );
    assert_eq!(run.refresh_calls, 1);
    match run.result.unwrap_err() {
        Error::Http { status, .. } => assert_eq!(status, 401),
        other => panic!("expected an Http error, got {}", other.render()),
    }
}

#[test]
fn pipeline_success_makes_no_refresh_call() {
    let cfg = RetryConfig::default();
    let run = execute_request(
        &cfg,
        &Ok("token".to_string()),
        &vec![resp(200, "body")],
        &Ok("unused".to_string()),
        &vec![resp(200, "unused")],
    );
    assert_eq!(run.refresh_calls, 0);
    assert_eq!(run.attempts, 1);
    assert_eq!(run.result.unwrap(), "body");
}

#[test]
fn pipeline_propagates_token_fetch_failure() {
    let cfg = RetryConfig::default();
    let run = execute_request(
        &cfg,
        &Err(Error::TokenProvider("no token".to_string())),
        &vec![resp(200, "never sent")],
        &Ok("unused".to_string()),
        &vec![resp(200, "unused")],
    );
    assert_eq!(run.refresh_calls, 0);
    assert_eq!(run.attempts, 0);
    assert!(run.result.unwrap_err().render().contains("no token"));
}

#[test]
fn http_error_extracts_envelope_message() {
    let err = Error::http(500, r#"{"error":{"message":"backend exploded"}}"#.to_string());
    match &err {
        Error::Http { message, .. } => assert_eq!(message, "backend exploded"),
        _ => panic!("expected Http"),
    }
    assert!(err.render().contains("backend exploded"));
}

#[test]
fn http_error_falls_back_to_raw_body() {
    let err = Error::http(502, "plain text failure".to_string());
    match &err {
        Error::Http { message, .. } => assert_eq!(message, "plain text failure"),
        _ => panic!("expected Http"),
    }
    assert!(err.render().starts_with("http error 502 Bad Gateway: "));
}

#[test]
fn error_render_covers_every_variant() {
    assert_eq!(
        Error::TokenProvider("x".to_string()).render(),
        "token provider error: x"
    );
    assert_eq!(
        Error::Endpoint("x".to_string()).render(),
        "invalid endpoint configuration: x"
    );
    assert_eq!(Error::Validation("x".to_string()).render(), "validation error: x");
    assert_eq!(Error::Request("x".to_string()).render(), "request error: x");
    assert_eq!(Error::Url("x".to_string()).render(), "url parse error: x");
}

#[test]
fn body_preview_passes_short_text_through() {
    let body: Vec<u8> = b"hello body".to_vec();
    assert_eq!(build_body_preview(&body), "hello body");
}

#[test]
fn body_preview_truncates_long_text() {
    let body: Vec<u8> = vec![b'a'; 3000];
    let preview = build_body_preview(&body);
    assert_eq!(preview.chars().count(), 2049);
    assert!(preview.ends_with('\u{2026}'));
}

#[test]
fn body_preview_names_non_utf8_length() {
    let body: Vec<u8> = vec![0xff, 0xfe, 0xfd];
    assert_eq!(build_body_preview(&body), "<non-utf8 body: 3 bytes>");
}
