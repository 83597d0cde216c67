//! HTTP request pipeline.
//!
//! Composes a credential provider with the retry engine: fetch a token, run
//! the attempt under the retry policy, and if the final status is 401,
//! refresh the token once and run the attempt through the retry policy one
//! more time.  A second consecutive 401 is terminal.  Any non-success final
//! status becomes a structured `Http` error carrying the status, the
//! extracted message and the raw body.
//!
//! The functions here are the pipeline's decisions; the caller performs the
//! token fetches and the HTTP attempts and feeds the outcomes in.

use vstd::prelude::*;

use crate::error::{http_message_spec, Error};
use crate::retry::{attempts_spec, run_with_retry, AttemptOutcome, RetryConfig};

verus! {

/// HTTP success statuses.
pub open spec fn is_success_status(status: u16) -> bool {
    200 <= status <= 299
}

/// The one status the pipeline intercepts for a token refresh.
pub open spec fn is_unauthorized(o: &AttemptOutcome) -> bool {
    o matches AttemptOutcome::Response { status, .. } && status == 401
}

/// Exec mirror of `is_unauthorized`.
pub fn outcome_is_unauthorized(o: &AttemptOutcome) -> (r: bool)
    ensures
        r == is_unauthorized(o),
{
    match o {
        AttemptOutcome::Response { status, .. } => *status == 401,
        _ => false,
    }
}

/// How the pipeline's result relates to the final attempt outcome: a
/// transport failure becomes a `Request` error, a success status hands the
/// body through unchanged, and any other status becomes the structured
/// `Http` error for that status and body.
pub open spec fn result_reflects_outcome(r: Result<String, Error>, o: AttemptOutcome) -> bool {
    match o {
        AttemptOutcome::Transport(m) => r matches Err(Error::Request(m2)) && m2@ == m@,
        AttemptOutcome::Response { status, body, .. } => if is_success_status(status) {
            r matches Ok(b) && b@ == body@
        } else {
            r matches Err(Error::Http { status: s2, message, body: b2 }) && s2 == status && b2@
                == body@ && message@ == http_message_spec(body@)
        },
    }
}

/// Turn the final attempt outcome into the pipeline's result.
pub fn finalize_outcome(o: &AttemptOutcome) -> (r: Result<String, Error>)
    ensures
        result_reflects_outcome(r, *o),
{
    match o {
        AttemptOutcome::Transport(m) => Err(Error::Request(m.clone())),
        AttemptOutcome::Response { status, body, .. } => {
            if 200 <= *status && *status <= 299 {
                Ok(body.clone())
            } else {
                Err(Error::http(*status, body.clone()))
            }
        },
    }
}

/// An exact copy of an error value.
pub fn clone_error(e: &Error) -> (r: Error)
    ensures
        r == *e,
{
    match e {
        Error::TokenProvider(m) => Error::TokenProvider(m.clone()),
        Error::Endpoint(m) => Error::Endpoint(m.clone()),
        Error::Validation(m) => Error::Validation(m.clone()),
        Error::Request(m) => Error::Request(m.clone()),
        Error::Http { status, message, body } => Error::Http {
            status: *status,
            message: message.clone(),
            body: body.clone(),
        },
        Error::Url(m) => Error::Url(m.clone()),
    }
}

/// How often the pipeline asks the provider to refresh: exactly once, and
/// only when the first pass's final outcome is a 401.
pub open spec fn refresh_count_spec(
    cfg: RetryConfig,
    token_ok: bool,
    first: Seq<AttemptOutcome>,
) -> int {
    if token_ok && is_unauthorized(&first[attempts_spec(cfg, first) - 1]) {
        1
    } else {
        0
    }
}

/// What one full pipeline execution produced.
pub struct PipelineRun {
    /// HTTP attempts made, both passes together.
    pub attempts: usize,
    /// How often the provider's refresh was invoked.
    pub refresh_calls: u32,
    /// The final outcome: the response body, or the error.
    pub result: Result<String, Error>,
}

/// Execute the pipeline against recorded events: the provider's token fetch
/// result, the outcome of each first-pass attempt, the provider's refresh
/// result, and the outcome of each second-pass attempt.  Unused event lists
/// are not consumed: the refresh result and second pass matter only when
/// the first pass ends in 401.
pub fn execute_request(
    cfg: &RetryConfig,
    token: &Result<String, Error>,
    first: &Vec<AttemptOutcome>,
    refresh: &Result<String, Error>,
    second: &Vec<AttemptOutcome>,
) -> (run: PipelineRun)
    requires
        first@.len() > 0,
        second@.len() > 0,
        first@.len() + second@.len() <= usize::MAX,
    ensures
        run.refresh_calls == refresh_count_spec(*cfg, token is Ok, first@),
        token matches Err(e) ==> run.attempts == 0 && (run.result matches Err(e2) && e2 == e),
        (token is Ok && !is_unauthorized(&first@[attempts_spec(*cfg, first@) - 1])) ==> {
            &&& run.attempts == attempts_spec(*cfg, first@)
            &&& result_reflects_outcome(run.result, first@[attempts_spec(*cfg, first@) - 1])
        },
        (token is Ok && is_unauthorized(&first@[attempts_spec(*cfg, first@) - 1]) && refresh
            is Err) ==> {
            &&& run.attempts == attempts_spec(*cfg, first@)
            &&& run.result matches Err(e2) && e2 == refresh->Err_0
        },
        (token is Ok && is_unauthorized(&first@[attempts_spec(*cfg, first@) - 1]) && refresh
            is Ok) ==> {
            &&& run.attempts == attempts_spec(*cfg, first@) + attempts_spec(*cfg, second@)
            &&& result_reflects_outcome(run.result, second@[attempts_spec(*cfg, second@) - 1])
        },
{
    match token {
        Err(e) => {
            return PipelineRun { attempts: 0, refresh_calls: 0, result: Err(clone_error(e)) };
        },
        Ok(_) => {},
    }
    let a1 = run_with_retry(cfg, first);
    let f1 = &first[a1 - 1];
    if !outcome_is_unauthorized(f1) {
        return PipelineRun { attempts: a1, refresh_calls: 0, result: finalize_outcome(f1) };
    }
    // Final status 401: discard that response, refresh the token once, and
    // run the rebuilt request through the retry policy one more time.
    match refresh {
        Err(e) => {
            return PipelineRun { attempts: a1, refresh_calls: 1, result: Err(clone_error(e)) };
        },
        Ok(_) => {},
    }
    let a2 = run_with_retry(cfg, second);
    let f2 = &second[a2 - 1];
    PipelineRun { attempts: a1 + a2, refresh_calls: 1, result: finalize_outcome(f2) }
}

/// Relies on `String::from_utf8`: succeeds exactly on valid UTF-8 and
/// decodes it.
#[verifier::external_body]
pub fn bytes_to_string(v: &Vec<u8>) -> (r: Option<String>)
    ensures
        r is None ==> !vstd::utf8::valid_utf8(v@),
        r matches Some(s) ==> vstd::utf8::valid_utf8(v@) && s@ == vstd::utf8::decode_utf8(v@),
{
    match String::from_utf8(v.clone()) {
        Ok(s) => Some(s),
        Err(_) => None,
    }
}

/// How many characters of a body the debug log shows.
pub const MAX_BODY_PREVIEW: usize = 2048;

/// The logged preview of a response body: the decoded text, truncated to
/// the preview length with an ellipsis; a placeholder naming the byte
/// count when the body is not UTF-8.
pub open spec fn body_preview_spec(bytes: Seq<u8>) -> Seq<char> {
    if vstd::utf8::valid_utf8(bytes) {
        let text = vstd::utf8::decode_utf8(bytes);
        if text.len() > 2048 {
            text.subrange(0, 2048).push('\u{2026}')
        } else {
            text
        }
    } else {
        "<non-utf8 body: "@ + crate::strutil::dec_str(bytes.len() as int) + " bytes>"@
    }
}

/// Build the logged preview of a response body.
pub fn build_body_preview(body: &Vec<u8>) -> (r: String)
    ensures
        r@ == body_preview_spec(body@),
{
    match bytes_to_string(body) {
        Some(text) => {
            let v = crate::strutil::string_to_chars(text.as_str());
            if v.len() > MAX_BODY_PREVIEW {
                let mut prefix = crate::strutil::chars_range(&v, 0, MAX_BODY_PREVIEW);
                prefix.push('\u{2026}');
                let r = crate::strutil::chars_to_string(&prefix);
                proof {
                    assert(r@ =~= body_preview_spec(body@));
                }
                r
            } else {
                text
            }
        },
        None => {
            let r = String::from_str("<non-utf8 body: ").concat(
                crate::strutil::u64_to_string(body.len() as u64).as_str(),
            ).concat(" bytes>");
            proof {
                assert(r@ =~= body_preview_spec(body@));
            }
            r
        },
    }
}

/// A 401 answered by a successful refresh and a success on the second pass:
/// the provider is asked to refresh exactly once, and the call succeeds.
pub proof fn lemma_pipeline_401_then_200(
    cfg: RetryConfig,
    first: Seq<AttemptOutcome>,
    second: Seq<AttemptOutcome>,
    run: PipelineRun,
)
    requires
        first.len() > 0,
        second.len() > 0,
        is_unauthorized(&first[attempts_spec(cfg, first) - 1]),
        second[attempts_spec(cfg, second) - 1] matches AttemptOutcome::Response { status, .. }
            && is_success_status(status),
        run.refresh_calls == refresh_count_spec(cfg, true, first),
        run.attempts == attempts_spec(cfg, first) + attempts_spec(cfg, second),
        result_reflects_outcome(run.result, second[attempts_spec(cfg, second) - 1]),
    ensures
        run.refresh_calls == 1,
        run.result is Ok,
{
}

/// A 401 answered by a refresh and a second 401: the provider is asked to
/// refresh exactly once, and the call fails with the 401 `Http` error — the
/// pipeline never loops on refreshes.
pub proof fn lemma_pipeline_401_then_401(
    cfg: RetryConfig,
    first: Seq<AttemptOutcome>,
    second: Seq<AttemptOutcome>,
    run: PipelineRun,
)
    requires
        first.len() > 0,
        second.len() > 0,
        is_unauthorized(&first[attempts_spec(cfg, first) - 1]),
        is_unauthorized(&second[attempts_spec(cfg, second) - 1]),
        run.refresh_calls == refresh_count_spec(cfg, true, first),
        run.attempts == attempts_spec(cfg, first) + attempts_spec(cfg, second),
        result_reflects_outcome(run.result, second[attempts_spec(cfg, second) - 1]),
    ensures
        run.refresh_calls == 1,
        run.result matches Err(e) && e matches Error::Http { status, .. } && status == 401,
{
}

} // verus!
