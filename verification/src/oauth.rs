//! OAuth2 authorization flow: client configuration, authorization URL
//! construction, and the token-endpoint request bodies for the code,
//! refresh-token and JWT-bearer grants.
//!
//! The HTTP POSTs themselves happen outside the library; the bodies built
//! here and the response handling around them are exact.

use vstd::prelude::*;

use crate::error::OAuthError;
use crate::strutil::{join_spec, join_strings};
use crate::urlenc::{percent_encode, percent_encoded};

verus! {

/// Google's OAuth2 authorization endpoint.
pub const AUTH_ENDPOINT: &'static str = "https://accounts.google.com/o/oauth2/v2/auth";

/// Google's OAuth2 token endpoint.
pub const TOKEN_ENDPOINT: &'static str = "https://oauth2.googleapis.com/token";

/// The cloud-platform scope requested for API access.
pub const SCOPE_CLOUD_PLATFORM: &'static str = "https://www.googleapis.com/auth/cloud-platform";

/// The Drive file scope requested for source uploads.
pub const SCOPE_DRIVE_FILE: &'static str = "https://www.googleapis.com/auth/drive.file";

/// The redirect URI used when no override is configured; the interactive
/// flow replaces it with the bound loopback port.
pub const DEFAULT_REDIRECT_URI: &'static str = "http://localhost:8085";

/// The loopback address the callback listener binds to.
pub const LOOPBACK_ADDR: &'static str = "127.0.0.1";

/// Build the loopback redirect URI for a bound port.
pub fn build_redirect_uri(port: u16) -> (r: String)
    ensures
        r@ == "http://127.0.0.1:"@ + crate::strutil::dec_str(port as int),
{
    let r = String::from_str("http://").concat(LOOPBACK_ADDR).concat(":").concat(
        crate::strutil::u64_to_string(port as u64).as_str(),
    );
    proof {
        reveal_strlit("http://");
        reveal_strlit("127.0.0.1");
        reveal_strlit(":");
        reveal_strlit("http://127.0.0.1:");
        assert(r@ =~= "http://127.0.0.1:"@ + crate::strutil::dec_str(port as int));
    }
    r
}

/// OAuth client configuration, as resolved from the environment by the
/// caller: the client id is required, the rest optional.
#[derive(Debug, Clone)]
pub struct OAuthClientConfig {
    pub client_id: String,
    pub client_secret: Option<String>,
    pub redirect_uri: String,
    pub audience: Option<String>,
}

/// The full, immutable flow configuration.
#[derive(Debug, Clone)]
pub struct OAuthConfig {
    pub auth_endpoint: String,
    pub token_endpoint: String,
    pub client_id: String,
    pub client_secret: Option<String>,
    pub redirect_uri: String,
    pub scopes: Vec<String>,
    pub audience: Option<String>,
    pub additional_params: Vec<(String, String)>,
}

impl OAuthClientConfig {
    /// Complete the client configuration with the fixed well-known
    /// endpoints and scopes.
    pub fn into_oauth_config(self) -> (c: OAuthConfig)
        ensures
            c.auth_endpoint@ == "https://accounts.google.com/o/oauth2/v2/auth"@,
            c.token_endpoint@ == "https://oauth2.googleapis.com/token"@,
            c.client_id == self.client_id,
            c.client_secret == self.client_secret,
            c.redirect_uri == self.redirect_uri,
            c.scopes@.map_values(|s: String| s@) =~= seq![
                "https://www.googleapis.com/auth/cloud-platform"@,
                "https://www.googleapis.com/auth/drive.file"@,
            ],
            c.audience == self.audience,
            c.additional_params@.len() == 0,
    {
        let mut scopes: Vec<String> = Vec::new();
        scopes.push(String::from_str(SCOPE_CLOUD_PLATFORM));
        scopes.push(String::from_str(SCOPE_DRIVE_FILE));
        OAuthConfig {
            auth_endpoint: String::from_str(AUTH_ENDPOINT),
            token_endpoint: String::from_str(TOKEN_ENDPOINT),
            client_id: self.client_id,
            client_secret: self.client_secret,
            redirect_uri: self.redirect_uri,
            scopes,
            audience: self.audience,
            additional_params: Vec::new(),
        }
    }
}

/// Optional knobs for one authorization-URL construction.
pub struct AuthorizeParams {
    pub state: Option<String>,
    pub code_challenge: Option<String>,
    pub code_challenge_method: Option<String>,
}

/// The authorization URL and the CSRF state issued with it.  The state is
/// produced once per flow invocation and must be echoed back by the
/// callback.
pub struct AuthorizeContext {
    pub url: String,
    pub state: String,
}

/// The exact authorization URL for a configuration and state.
pub open spec fn authorize_url_spec(
    auth_endpoint: Seq<char>,
    client_id: Seq<char>,
    redirect_uri: Seq<char>,
    scopes: Seq<Seq<char>>,
    state: Seq<char>,
    code_challenge: Option<Seq<char>>,
    code_challenge_method: Option<Seq<char>>,
) -> Seq<char> {
    auth_endpoint + "?response_type=code&client_id="@ + percent_encoded(client_id)
        + "&redirect_uri="@ + percent_encoded(redirect_uri) + "&scope="@ + percent_encoded(
        join_spec(scopes, " "@),
    ) + "&state="@ + percent_encoded(state) + "&access_type=offline&prompt=consent"@ + (match code_challenge {
        Some(c) => "&code_challenge="@ + percent_encoded(c),
        None => Seq::<char>::empty(),
    }) + (match code_challenge_method {
        Some(m) => "&code_challenge_method="@ + percent_encoded(m),
        None => Seq::<char>::empty(),
    })
}

/// Build the authorization URL.  The state is the caller's when one is
/// given, otherwise the fresh unpredictable value produced for this
/// invocation.
pub fn build_authorize_url(cfg: &OAuthConfig, params: &AuthorizeParams, fresh_state: String) -> (r:
    AuthorizeContext)
    ensures
        r.state@ == (match params.state {
            Some(s) => s@,
            None => fresh_state@,
        }),
        r.url@ == authorize_url_spec(
            cfg.auth_endpoint@,
            cfg.client_id@,
            cfg.redirect_uri@,
            cfg.scopes@.map_values(|s: String| s@),
            r.state@,
            match params.code_challenge {
                Some(ref c) => Some(c@),
                None => None,
            },
            match params.code_challenge_method {
                Some(ref m) => Some(m@),
                None => None,
            },
        ),
{
    let state = match &params.state {
        Some(s) => s.clone(),
        None => fresh_state,
    };
    let scope_str = join_strings(&cfg.scopes, " ");
    let mut url = cfg.auth_endpoint.clone().concat("?response_type=code&client_id=").concat(
        percent_encode(&cfg.client_id).as_str(),
    ).concat("&redirect_uri=").concat(percent_encode(&cfg.redirect_uri).as_str()).concat(
        "&scope=",
    ).concat(percent_encode(&scope_str).as_str()).concat("&state=").concat(
        percent_encode(&state).as_str(),
    ).concat("&access_type=offline&prompt=consent");
    match &params.code_challenge {
        Some(c) => {
            url = url.concat("&code_challenge=").concat(percent_encode(c).as_str());
        },
        None => {},
    }
    match &params.code_challenge_method {
        Some(m) => {
            url = url.concat("&code_challenge_method=").concat(percent_encode(m).as_str());
        },
        None => {},
    }
    proof {
        assert(url@ =~= authorize_url_spec(
            cfg.auth_endpoint@,
            cfg.client_id@,
            cfg.redirect_uri@,
            cfg.scopes@.map_values(|s: String| s@),
            state@,
            match params.code_challenge {
                Some(ref c) => Some(c@),
                None => None,
            },
            match params.code_challenge_method {
                Some(ref m) => Some(m@),
                None => None,
            },
        ));
    }
    AuthorizeContext { url, state }
}

/// The form body POSTed to exchange an authorization code.
pub open spec fn code_exchange_body_spec(
    client_id: Seq<char>,
    client_secret: Option<Seq<char>>,
    redirect_uri: Seq<char>,
    code: Seq<char>,
) -> Seq<char> {
    "grant_type=authorization_code&code="@ + percent_encoded(code) + "&client_id="@
        + percent_encoded(client_id) + (match client_secret {
        Some(s) => "&client_secret="@ + percent_encoded(s),
        None => Seq::<char>::empty(),
    }) + "&redirect_uri="@ + percent_encoded(redirect_uri)
}

/// Build the code-exchange form body for the token endpoint.
pub fn code_exchange_body(cfg: &OAuthConfig, code: &String) -> (r: String)
    ensures
        r@ == code_exchange_body_spec(
            cfg.client_id@,
            match cfg.client_secret {
                Some(ref s) => Some(s@),
                None => None,
            },
            cfg.redirect_uri@,
            code@,
        ),
{
    let mut body = String::from_str("grant_type=authorization_code&code=").concat(
        percent_encode(code).as_str(),
    ).concat("&client_id=").concat(percent_encode(&cfg.client_id).as_str());
    match &cfg.client_secret {
        Some(s) => {
            body = body.concat("&client_secret=").concat(percent_encode(s).as_str());
        },
        None => {},
    }
    let body = body.concat("&redirect_uri=").concat(percent_encode(&cfg.redirect_uri).as_str());
    proof {
        assert(body@ =~= code_exchange_body_spec(
            cfg.client_id@,
            match cfg.client_secret {
                Some(ref s) => Some(s@),
                None => None,
            },
            cfg.redirect_uri@,
            code@,
        ));
    }
    body
}

/// The form body POSTed for the refresh-token grant.
pub open spec fn refresh_body_spec(
    client_id: Seq<char>,
    client_secret: Option<Seq<char>>,
    refresh_token: Seq<char>,
) -> Seq<char> {
    "grant_type=refresh_token&refresh_token="@ + percent_encoded(refresh_token) + "&client_id="@
        + percent_encoded(client_id) + (match client_secret {
        Some(s) => "&client_secret="@ + percent_encoded(s),
        None => Seq::<char>::empty(),
    })
}

/// Build the refresh-grant form body for the token endpoint.
pub fn refresh_body(cfg: &OAuthConfig, refresh_token: &String) -> (r: String)
    ensures
        r@ == refresh_body_spec(
            cfg.client_id@,
            match cfg.client_secret {
                Some(ref s) => Some(s@),
                None => None,
            },
            refresh_token@,
        ),
{
    let mut body = String::from_str("grant_type=refresh_token&refresh_token=").concat(
        percent_encode(refresh_token).as_str(),
    ).concat("&client_id=").concat(percent_encode(&cfg.client_id).as_str());
    match &cfg.client_secret {
        Some(s) => {
            body = body.concat("&client_secret=").concat(percent_encode(s).as_str());
        },
        None => {},
    }
    proof {
        assert(body@ =~= refresh_body_spec(
            cfg.client_id@,
            match cfg.client_secret {
                Some(ref s) => Some(s@),
                None => None,
            },
            refresh_token@,
        ));
    }
    body
}

/// The token endpoint's parsed response.
#[derive(Debug)]
pub struct TokenResponse {
    pub access_token: String,
    pub refresh_token: Option<String>,
    pub scope: Option<String>,
    pub token_type: Option<String>,
    pub expires_in: Option<i64>,
}

/// The tokens a completed grant produced, with the access token's absolute
/// expiry.
#[derive(Debug)]
pub struct OAuthTokens {
    pub access_token: String,
    pub refresh_token: Option<String>,
    pub scope: Option<String>,
    pub token_type: Option<String>,
    pub expires_at: i64,
}

/// The access-token lifetime assumed when the endpoint names none.
pub open spec fn default_expiry_secs() -> int {
    3600
}

/// Turn a token-endpoint response into tokens with an absolute expiry:
/// `now` plus the granted lifetime (one hour when the endpoint named
/// none).  An empty access token is rejected.
pub fn finalize_token_response(resp: TokenResponse, now: i64) -> (r: Result<
    OAuthTokens,
    OAuthError,
>)
    requires
        0 <= now < 0x1000_0000_0000_0000,
    ensures
        resp.access_token@.len() == 0 ==> (r matches Err(e) && e matches OAuthError::InvalidResponse(
            m,
        ) && m@ == "missing access_token"@),
        resp.access_token@.len() != 0 ==> (r matches Ok(t) && t.access_token == resp.access_token
            && t.refresh_token == resp.refresh_token && t.scope == resp.scope && t.token_type
            == resp.token_type && t.expires_at == now + (match resp.expires_in {
            Some(s) => if 0 <= s <= 0x7fff_ffff {
                s as int
            } else {
                default_expiry_secs()
            },
            None => default_expiry_secs(),
        })),
{
    if resp.access_token.as_str().unicode_len() == 0 {
        return Err(OAuthError::InvalidResponse(String::from_str("missing access_token")));
    }
    let lifetime: i64 = match resp.expires_in {
        Some(s) => {
            if 0 <= s && s <= 0x7fff_ffff {
                s
            } else {
                3600
            }
        },
        None => 3600,
    };
    Ok(
        OAuthTokens {
            access_token: resp.access_token,
            refresh_token: resp.refresh_token,
            scope: resp.scope,
            token_type: resp.token_type,
            expires_at: now + lifetime,
        },
    )
}

/// The words of the space-separated scope string, from `from` on; empty
/// words (from consecutive spaces) are dropped.
pub open spec fn split_scopes_from(s: Seq<char>, from: int) -> Seq<Seq<char>>
    decreases s.len() - from,
{
    if !(0 <= from < s.len()) {
        Seq::<Seq<char>>::empty()
    } else {
        proof {
            lemma_first_space_bounds(s, from);
        }
        let word_end = first_space_or_end(s, from);
        if word_end == from {
            split_scopes_from(s, from + 1)
        } else if word_end == s.len() {
            seq![s.subrange(from, word_end)]
        } else {
            seq![s.subrange(from, word_end)] + split_scopes_from(s, word_end + 1)
        }
    }
}

/// Split a space-separated scope string into the granted scopes.
pub open spec fn split_scopes_spec(s: Seq<char>) -> Seq<Seq<char>> {
    split_scopes_from(s, 0)
}

fn split_scopes_rec(v: &Vec<char>, from: usize, out: &mut Vec<String>)
    requires
        from <= v@.len(),
    ensures
        final(out)@.map_values(|s: String| s@) == old(out)@.map_values(|s: String| s@)
            + split_scopes_from(v@, from as int),
    decreases v@.len() - from,
{
    proof {
        crate::callback::lemma_find_char_bounds(v@, from as int, ' ');
    }
    if from >= v.len() {
        proof {
            assert(out@.map_values(|s: String| s@) =~= old(out)@.map_values(|s: String| s@)
                + split_scopes_from(v@, from as int));
        }
        return ;
    }
    let mut word_end: usize = from;
    while word_end < v.len() && v[word_end] != ' '
        invariant
            from <= word_end <= v@.len(),
            forall|k: int| from <= k < word_end ==> v@[k] != ' ',
        decreases v@.len() - word_end,
    {
        word_end += 1;
    }
    proof {
        lemma_first_space_from(v@, from as int, word_end as int);
    }
    if word_end == from {
        split_scopes_rec(v, from + 1, out);
    } else {
        let word = crate::strutil::chars_range_to_string(v, from, word_end);
        out.push(word);
        proof {
            assert(out@.map_values(|s: String| s@) =~= old(out)@.map_values(|s: String| s@)
                + seq![v@.subrange(from as int, word_end as int)]);
        }
        if word_end < v.len() {
            split_scopes_rec(v, word_end + 1, out);
        } else {
            proof {
                assert(split_scopes_from(v@, word_end + 1 as int) =~= Seq::<Seq<char>>::empty());
                assert(out@.map_values(|s: String| s@) =~= old(out)@.map_values(|s: String| s@)
                    + split_scopes_from(v@, from as int));
            }
        }
    }
}

proof fn lemma_first_space_from(s: Seq<char>, from: int, word_end: int)
    requires
        0 <= from <= word_end <= s.len(),
        forall|k: int| from <= k < word_end ==> s[k] != ' ',
        word_end == s.len() || s[word_end] == ' ',
    ensures
        first_space_or_end(s, from) == word_end,
    decreases word_end - from,
{
    if from < word_end {
        lemma_first_space_from(s, from + 1, word_end);
    }
}

/// Split a space-separated scope string into its words.
pub fn split_scopes(s: &String) -> (r: Vec<String>)
    ensures
        r@.map_values(|x: String| x@) == split_scopes_spec(s@),
{
    let v = crate::strutil::string_to_chars(s.as_str());
    let mut out: Vec<String> = Vec::new();
    proof {
        assert(out@.map_values(|x: String| x@) =~= Seq::<Seq<char>>::empty());
    }
    split_scopes_rec(&v, 0, &mut out);
    proof {
        assert(out@.map_values(|x: String| x@) =~= split_scopes_spec(s@));
    }
    out
}

/// The index of the first space at or after `from`, or the length.
pub open spec fn first_space_or_end(s: Seq<char>, from: int) -> int
    decreases s.len() - from,
{
    if from >= s.len() {
        s.len() as int
    } else if s[from] == ' ' {
        from
    } else {
        first_space_or_end(s, from + 1)
    }
}

/// `first_space_or_end` stays within `[from, s.len()]`.
pub proof fn lemma_first_space_bounds(s: Seq<char>, from: int)
    requires
        0 <= from <= s.len(),
    ensures
        from <= first_space_or_end(s, from) <= s.len(),
    decreases s.len() - from,
{
    if from < s.len() && s[from] != ' ' {
        lemma_first_space_bounds(s, from + 1);
    }
}

} // verus!
