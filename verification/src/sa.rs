//! Service-account credentials: the single-slot token cache, the JWT-bearer
//! claim set, and the token-endpoint form body.
//!
//! On a token fetch the provider returns the cached token while it is still
//! valid; otherwise it mints a signed JWT assertion (issuer = the service
//! account's email, scope = the space-joined requested scopes, audience =
//! the token endpoint, a short expiry, issued-at = now), exchanges it with a
//! `urn:ietf:params:oauth:grant-type:jwt-bearer` form POST, and caches the
//! result with the configured leeway already subtracted.  The signing and
//! the POST happen outside the library; everything decided here is exact.

use vstd::prelude::*;

use crate::strutil::{dec_str_i64, i64_to_string, join_spec, join_strings};
use crate::urlenc::{percent_encode, percent_encoded};

verus! {

/// A token together with the instant (Unix seconds) after which it must not
/// be used.  The leeway was already subtracted when the entry was stored.
pub struct CachedToken {
    pub token: String,
    pub expires_at: i64,
}

/// The service-account provider's single-slot token cache.
pub struct TokenCache {
    slot: Option<CachedToken>,
}

impl TokenCache {
    /// The cached entry, if any.
    pub closed spec fn entry(&self) -> Option<CachedToken> {
        self.slot
    }

    /// A fresh cache holds nothing.
    pub fn new() -> (c: Self)
        ensures
            c.entry() is None,
    {
        TokenCache { slot: None }
    }

    /// The cached token is returned only while `now` lies strictly before
    /// its (leeway-adjusted) expiry; an expired or empty slot yields none.
    pub fn get(&self, now: i64) -> (r: Option<String>)
        ensures
            match r {
                Some(t) => self.entry() matches Some(c) && now < c.expires_at && t@ == c.token@,
                None => self.entry() is None || now >= self.entry().unwrap().expires_at,
            },
    {
        match &self.slot {
            Some(c) => {
                if now < c.expires_at {
                    Some(c.token.clone())
                } else {
                    None
                }
            },
            None => None,
        }
    }

    /// Cache a token the issuer said is good for `expires_in` seconds,
    /// treating it as expired `leeway` seconds early.
    pub fn store(&mut self, token: String, now: i64, expires_in: i64, leeway: i64)
        requires
            -0x1000_0000_0000_0000 < now < 0x1000_0000_0000_0000,
            -0x1000_0000_0000_0000 < expires_in < 0x1000_0000_0000_0000,
            -0x1000_0000_0000_0000 < leeway < 0x1000_0000_0000_0000,
        ensures
            final(self).entry() matches Some(c) && c.token@ == token@ && c.expires_at == now
                + expires_in - leeway,
    {
        let expires_at = now + expires_in - leeway;
        self.slot = Some(CachedToken { token, expires_at });
    }

    /// Forget the cached token, forcing the next fetch to re-exchange.
    pub fn clear(&mut self)
        ensures
            final(self).entry() is None,
    {
        self.slot = None;
    }
}

/// A leeway not smaller than the granted lifetime leaves the entry already
/// expired: the very next `get` at any instant from `now` on yields none.
/// With a leeway smaller than the lifetime, every `get` strictly before
/// `now + expires_in - leeway` returns the token unchanged.
pub proof fn lemma_cache_leeway(cache: TokenCache, now: i64, expires_in: i64, leeway: i64, t: i64)
    requires
        cache.entry() matches Some(c) && c.expires_at == now + expires_in - leeway,
        t >= now,
    ensures
        leeway >= expires_in ==> t >= cache.entry().unwrap().expires_at,
        (leeway < expires_in && t < now + expires_in - leeway) ==> t
            < cache.entry().unwrap().expires_at,
{
}

/// Escape a string for inclusion in a JSON string literal: backslash and
/// double quote get a backslash; control characters are not escaped and are
/// excluded by the callers' preconditions instead.
pub open spec fn json_escape_spec(s: Seq<char>) -> Seq<char>
    decreases s.len(),
{
    if s.len() == 0 {
        Seq::<char>::empty()
    } else {
        let head = if s[0] == '"' || s[0] == '\\' {
            seq!['\\', s[0]]
        } else {
            seq![s[0]]
        };
        head + json_escape_spec(s.drop_first())
    }
}

proof fn lemma_json_escape_append(s: Seq<char>, c: char)
    ensures
        json_escape_spec(s.push(c)) == json_escape_spec(s) + (if c == '"' || c == '\\' {
            seq!['\\', c]
        } else {
            seq![c]
        }),
    decreases s.len(),
{
    reveal_with_fuel(json_escape_spec, 3);
    let p = s.push(c);
    if s.len() == 0 {
        assert(p.drop_first() =~= Seq::<char>::empty());
        assert(json_escape_spec(s.push(c)) =~= json_escape_spec(s) + (if c == '"' || c == '\\' {
            seq!['\\', c]
        } else {
            seq![c]
        }));
    } else {
        assert(p[0] == s[0]);
        assert(p.drop_first() =~= s.drop_first().push(c));
        lemma_json_escape_append(s.drop_first(), c);
        assert(json_escape_spec(s.push(c)) =~= json_escape_spec(s) + (if c == '"' || c == '\\' {
            seq!['\\', c]
        } else {
            seq![c]
        }));
    }
}

/// Escape backslashes and double quotes for a JSON string literal.
pub fn json_escape(s: &str) -> (r: String)
    ensures
        r@ == json_escape_spec(s@),
{
    let v = crate::strutil::string_to_chars(s);
    let mut out: Vec<char> = Vec::new();
    let mut i: usize = 0;
    while i < v.len()
        invariant
            i <= v@.len(),
            v@ == s@,
            out@ == json_escape_spec(s@.subrange(0, i as int)),
        decreases v@.len() - i,
    {
        let c = v[i];
        if c == '"' || c == '\\' {
            out.push('\\');
            out.push(c);
        } else {
            out.push(c);
        }
        proof {
            lemma_json_escape_append(s@.subrange(0, i as int), s@[i as int]);
            assert(s@.subrange(0, i as int).push(s@[i as int]) =~= s@.subrange(0, i + 1 as int));
        }
        i += 1;
    }
    proof {
        assert(s@.subrange(0, s@.len() as int) =~= s@);
    }
    crate::strutil::chars_to_string(&out)
}

/// The claim set of the service account's JWT assertion.
pub open spec fn jwt_claims_spec(
    issuer: Seq<char>,
    scopes: Seq<Seq<char>>,
    audience: Seq<char>,
    iat: int,
    exp: int,
) -> Seq<char> {
    "{\"iss\":\""@ + json_escape_spec(issuer) + "\",\"scope\":\""@ + json_escape_spec(
        join_spec(scopes, " "@),
    ) + "\",\"aud\":\""@ + json_escape_spec(audience) + "\",\"exp\":"@ + dec_str_i64(exp)
        + ",\"iat\":"@ + dec_str_i64(iat) + "}"@
}

/// Build the JSON claim set for the JWT-bearer assertion: issuer, the
/// space-joined scopes, the token endpoint as audience, and the issue and
/// expiry instants.
pub fn jwt_claims_json(
    issuer: &String,
    scopes: &Vec<String>,
    audience: &String,
    iat: i64,
    ttl_secs: i64,
) -> (r: String)
    requires
        0 <= iat,
        0 <= ttl_secs,
        iat + ttl_secs <= i64::MAX,
    ensures
        r@ == jwt_claims_spec(
            issuer@,
            scopes@.map_values(|s: String| s@),
            audience@,
            iat as int,
            iat + ttl_secs,
        ),
{
    let exp = iat + ttl_secs;
    let joined = join_strings(scopes, " ");
    let r = String::from_str("{\"iss\":\"").concat(json_escape(issuer.as_str()).as_str()).concat(
        "\",\"scope\":\"",
    ).concat(json_escape(joined.as_str()).as_str()).concat("\",\"aud\":\"").concat(
        json_escape(audience.as_str()).as_str(),
    ).concat("\",\"exp\":").concat(i64_to_string(exp).as_str()).concat(",\"iat\":").concat(
        i64_to_string(iat).as_str(),
    ).concat("}");
    proof {
        assert(r@ =~= jwt_claims_spec(
            issuer@,
            scopes@.map_values(|s: String| s@),
            audience@,
            iat as int,
            iat + ttl_secs,
        ));
    }
    r
}

/// The form body of the JWT-bearer token request.
pub open spec fn jwt_bearer_body_spec(assertion: Seq<char>) -> Seq<char> {
    "grant_type=urn%3Aietf%3Aparams%3Aoauth%3Agrant-type%3Ajwt-bearer&assertion="@
        + percent_encoded(assertion)
}

/// Build the `urn:ietf:params:oauth:grant-type:jwt-bearer` form POST body
/// carrying the signed assertion.
pub fn jwt_bearer_body(assertion: &String) -> (r: String)
    ensures
        r@ == jwt_bearer_body_spec(assertion@),
{
    let r = String::from_str(
        "grant_type=urn%3Aietf%3Aparams%3Aoauth%3Agrant-type%3Ajwt-bearer&assertion=",
    ).concat(percent_encode(assertion).as_str());
    proof {
        assert(r@ =~= jwt_bearer_body_spec(assertion@));
    }
    r
}

} // verus!
