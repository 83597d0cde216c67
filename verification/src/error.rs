//! Error taxonomy of the library.
//!
//! `Error` covers the client-facing failures (credential backends, endpoint
//! configuration, transport, upstream HTTP); `OAuthError` covers the
//! interactive OAuth flow and the token store.  Each renders itself to a
//! `String` through a `render` method.

use vstd::prelude::*;

use crate::strutil::{dec_str, u64_to_string};

verus! {

/// What the conventional `{"error":{"message": ...}}` envelope of `body`
/// holds, if `body` parses as JSON and carries that shape.  Decided by
/// serde_json, so left uninterpreted here.
pub uninterp spec fn error_envelope_message(body: Seq<char>) -> Option<Seq<char>>;

/// Relies on serde_json's `from_str` and `Value::get`/`as_str`: pulls the
/// message out of a `{"error":{"message": ...}}` JSON envelope, if present.
#[verifier::external_body]
fn extract_error_message(body: &String) -> (r: Option<String>)
    ensures
        match r {
            Some(m) => error_envelope_message(body@) == Some(m@),
            None => error_envelope_message(body@) is None,
        },
{
    let json: serde_json::Value = serde_json::from_str(body).ok()?;
    json.get("error")
        .and_then(|err| err.get("message"))
        .and_then(|msg| msg.as_str())
        .map(|s| s.to_string())
}

/// Failures surfaced by the client layer.
#[derive(Debug)]
pub enum Error {
    /// A credential backend could not produce a token.
    TokenProvider(String),
    /// The endpoint configuration is invalid.
    Endpoint(String),
    /// An input failed validation before any request was made.
    Validation(String),
    /// The transport failed before an HTTP status was received.
    Request(String),
    /// The upstream API answered with a non-success status.
    Http { status: u16, message: String, body: String },
    /// A URL could not be parsed.
    Url(String),
}

/// The message carried by an `Http` error: the envelope message when the
/// body holds one, the raw body otherwise.
pub open spec fn http_message_spec(body: Seq<char>) -> Seq<char> {
    match error_envelope_message(body) {
        Some(m) => m,
        None => body,
    }
}

impl Error {
    /// Build the structured HTTP error for a non-success response.
    pub fn http(status: u16, body: String) -> (e: Error)
        ensures
            e matches Error::Http { status: s, message, body: b } && s == status && b@ == body@
                && message@ == http_message_spec(body@),
    {
        let message = match extract_error_message(&body) {
            Some(m) => m,
            None => body.clone(),
        };
        Error::Http { status, message, body }
    }

    /// Build a validation error.
    pub fn validation(message: String) -> (e: Error)
        ensures
            e matches Error::Validation(m) && m@ == message@,
    {
        Error::Validation(message)
    }

    /// The rendered, human-readable form of the error.
    pub fn render(&self) -> (r: String)
        ensures
            r@ == error_render_spec(self),
    {
        match self {
            Error::TokenProvider(m) => {
                let r = String::from_str("token provider error: ").concat(m.as_str());
                proof {
                    assert(r@ =~= error_render_spec(self));
                }
                r
            },
            Error::Endpoint(m) => {
                let r = String::from_str("invalid endpoint configuration: ").concat(m.as_str());
                proof {
                    assert(r@ =~= error_render_spec(self));
                }
                r
            },
            Error::Validation(m) => {
                let r = String::from_str("validation error: ").concat(m.as_str());
                proof {
                    assert(r@ =~= error_render_spec(self));
                }
                r
            },
            Error::Request(m) => {
                let r = String::from_str("request error: ").concat(m.as_str());
                proof {
                    assert(r@ =~= error_render_spec(self));
                }
                r
            },
            Error::Http { status, message, body: _ } => {
                let n = u64_to_string(*status as u64);
                let reason = status_reason(*status);
                let mut r = String::from_str("http error ").concat(n.as_str());
                if !reason.as_str().is_empty() {
                    r = r.concat(" ").concat(reason.as_str());
                }
                let r = r.concat(": ").concat(message.as_str());
                proof {
                    assert(r@ =~= error_render_spec(self));
                }
                r
            },
            Error::Url(m) => {
                let r = String::from_str("url parse error: ").concat(m.as_str());
                proof {
                    assert(r@ =~= error_render_spec(self));
                }
                r
            },
        }
    }
}

/// The rendered form of each `Error` variant.
pub open spec fn error_render_spec(e: &Error) -> Seq<char> {
    match e {
        Error::TokenProvider(m) => "token provider error: "@ + m@,
        Error::Endpoint(m) => "invalid endpoint configuration: "@ + m@,
        Error::Validation(m) => "validation error: "@ + m@,
        Error::Request(m) => "request error: "@ + m@,
        Error::Http { status, message, body: _ } => "http error "@ + dec_str(*status as int)
            + (if status_reason_spec(*status).len() == 0 {
                Seq::<char>::empty()
            } else {
                " "@ + status_reason_spec(*status)
            }) + ": "@ + message@,
        Error::Url(m) => "url parse error: "@ + m@,
    }
}

/// The canonical reason phrase for the HTTP status codes this layer names
/// in its messages; empty for codes it does not know.
pub open spec fn status_reason_spec(status: u16) -> Seq<char> {
    if status == 400 {
        "Bad Request"@
    } else if status == 401 {
        "Unauthorized"@
    } else if status == 403 {
        "Forbidden"@
    } else if status == 404 {
        "Not Found"@
    } else if status == 429 {
        "Too Many Requests"@
    } else if status == 500 {
        "Internal Server Error"@
    } else if status == 502 {
        "Bad Gateway"@
    } else if status == 503 {
        "Service Unavailable"@
    } else if status == 504 {
        "Gateway Timeout"@
    } else {
        Seq::<char>::empty()
    }
}

/// The canonical reason phrase for a status code, or the empty string.
pub fn status_reason(status: u16) -> (r: String)
    ensures
        r@ == status_reason_spec(status),
{
    if status == 400 {
        String::from_str("Bad Request")
    } else if status == 401 {
        String::from_str("Unauthorized")
    } else if status == 403 {
        String::from_str("Forbidden")
    } else if status == 404 {
        String::from_str("Not Found")
    } else if status == 429 {
        String::from_str("Too Many Requests")
    } else if status == 500 {
        String::from_str("Internal Server Error")
    } else if status == 502 {
        String::from_str("Bad Gateway")
    } else if status == 503 {
        String::from_str("Service Unavailable")
    } else if status == 504 {
        String::from_str("Gateway Timeout")
    } else {
        String::new()
    }
}

/// Failures of the OAuth2 machinery.
#[derive(Debug)]
pub enum OAuthError {
    /// The OAuth client configuration is missing or invalid.
    Config(String),
    /// The authorization flow failed.
    Flow(String),
    /// A refresh-token exchange failed.
    Refresh(String),
    /// The token store could not be read or written.
    Storage(String),
    /// The callback's `state` did not match the one issued at build time.
    StateMismatch { expected: String, actual: String },
    /// A required environment variable is not set.
    MissingEnvVar(String),
    /// The loopback listener saw no callback within the allowed window.
    Timeout,
    /// The token endpoint's response was missing what the flow needs.
    InvalidResponse(String),
}

/// The rendered form of each `OAuthError` variant.
pub open spec fn oauth_render_spec(e: &OAuthError) -> Seq<char> {
    match e {
        OAuthError::Config(m) => "OAuth client configuration error: "@ + m@,
        OAuthError::Flow(m) => "OAuth authorization flow failed: "@ + m@,
        OAuthError::Refresh(m) => "Token refresh failed: "@ + m@,
        OAuthError::Storage(m) => "Token storage error: "@ + m@,
        OAuthError::StateMismatch { expected, actual } => "CSRF state mismatch: expected "@
            + expected@ + ", got "@ + actual@,
        OAuthError::MissingEnvVar(m) => "Missing required environment variable: "@ + m@,
        OAuthError::Timeout => "OAuth callback timeout"@,
        OAuthError::InvalidResponse(m) => "Invalid token response: "@ + m@,
    }
}

impl OAuthError {
    /// The rendered, human-readable form of the error.
    pub fn render(&self) -> (r: String)
        ensures
            r@ == oauth_render_spec(self),
    {
        match self {
            OAuthError::Config(m) => {
                let r = String::from_str("OAuth client configuration error: ").concat(m.as_str());
                proof {
                    assert(r@ =~= oauth_render_spec(self));
                }
                r
            },
            OAuthError::Flow(m) => {
                let r = String::from_str("OAuth authorization flow failed: ").concat(m.as_str());
                proof {
                    assert(r@ =~= oauth_render_spec(self));
                }
                r
            },
            OAuthError::Refresh(m) => {
                let r = String::from_str("Token refresh failed: ").concat(m.as_str());
                proof {
                    assert(r@ =~= oauth_render_spec(self));
                }
                r
            },
            OAuthError::Storage(m) => {
                let r = String::from_str("Token storage error: ").concat(m.as_str());
                proof {
                    assert(r@ =~= oauth_render_spec(self));
                }
                r
            },
            OAuthError::StateMismatch { expected, actual } => {
                let r = String::from_str("CSRF state mismatch: expected ").concat(
                    expected.as_str(),
                ).concat(", got ").concat(actual.as_str());
                proof {
                    assert(r@ =~= oauth_render_spec(self));
                }
                r
            },
            OAuthError::MissingEnvVar(m) => {
                let r = String::from_str("Missing required environment variable: ").concat(
                    m.as_str(),
                );
                proof {
                    assert(r@ =~= oauth_render_spec(self));
                }
                r
            },
            OAuthError::Timeout => {
                let r = String::from_str("OAuth callback timeout");
                proof {
                    assert(r@ =~= oauth_render_spec(self));
                }
                r
            },
            OAuthError::InvalidResponse(m) => {
                let r = String::from_str("Invalid token response: ").concat(m.as_str());
                proof {
                    assert(r@ =~= oauth_render_spec(self));
                }
                r
            },
        }
    }
}

} // verus!
