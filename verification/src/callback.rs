//! Loopback callback handling.
//!
//! The interactive flow answers exactly one inbound HTTP request: a
//! `GET /?code=<code>&state=<state>` (or `?error=<reason>`) redirect from
//! the browser.  No general HTTP parsing is needed — only the `code`,
//! `state` and `error` query parameters are extracted from the raw request
//! text, and a minimal static HTML page is sent back.
//!
//! CSRF defense: the `state` echoed by the callback must equal the state
//! issued when the authorization URL was built; on a mismatch the flow
//! fails with `StateMismatch` and the token exchange is unreachable.

use vstd::prelude::*;

use crate::error::OAuthError;
use crate::strutil::{chars_range_to_string, string_to_chars, str_equal};
use crate::urlenc::{percent_decode, percent_decoded};

verus! {

/// The parameters a callback request carried.
#[verifier::ext_equal]
pub ghost struct CallbackView {
    pub code: Option<Seq<char>>,
    pub state: Option<Seq<char>>,
    pub error: Option<Seq<char>>,
}

/// The `code`, `state` and `error` parameters of the callback request.
pub struct CallbackQuery {
    pub code: Option<String>,
    pub state: Option<String>,
    pub error: Option<String>,
}

impl View for CallbackQuery {
    type V = CallbackView;

    open spec fn view(&self) -> CallbackView {
        CallbackView {
            code: crate::store::opt_view(&self.code),
            state: crate::store::opt_view(&self.state),
            error: crate::store::opt_view(&self.error),
        }
    }
}

/// A callback that carried none of the three parameters.
pub open spec fn empty_callback() -> CallbackView {
    CallbackView { code: None, state: None, error: None }
}

/// The index of the first occurrence of `c` at or after `from`, or the
/// length when there is none.
pub open spec fn find_char_from(s: Seq<char>, from: int, c: char) -> int
    decreases s.len() - from,
{
    if from >= s.len() {
        s.len() as int
    } else if s[from] == c {
        from
    } else {
        find_char_from(s, from + 1, c)
    }
}

/// `find_char_from` stays within `[from, s.len()]`.
pub proof fn lemma_find_char_bounds(s: Seq<char>, from: int, c: char)
    requires
        0 <= from <= s.len(),
    ensures
        from <= find_char_from(s, from, c) <= s.len(),
        find_char_from(s, from, c) < s.len() ==> s[find_char_from(s, from, c)] == c,
        forall|k: int| from <= k < find_char_from(s, from, c) ==> s[k] != c,
    decreases s.len() - from,
{
    if from < s.len() && s[from] != c {
        lemma_find_char_bounds(s, from + 1, c);
    }
}

/// Whether `pat` occurs in `s` starting at `i`.
pub open spec fn subseq_at(s: Seq<char>, i: int, pat: Seq<char>) -> bool {
    i + pat.len() <= s.len() && s.subrange(i, i + pat.len() as int) == pat
}

/// The first index at or after `from` where `pat` occurs, or `-1`.
pub open spec fn find_subseq_from(s: Seq<char>, from: int, pat: Seq<char>) -> int
    decreases s.len() - from,
{
    if from < 0 || from + pat.len() > s.len() {
        -1
    } else if subseq_at(s, from, pat) {
        from
    } else if from + pat.len() == s.len() {
        -1
    } else {
        find_subseq_from(s, from + 1, pat)
    }
}

/// `find_subseq_from` is `-1` or an occurrence index.
pub proof fn lemma_find_subseq_bounds(s: Seq<char>, from: int, pat: Seq<char>)
    requires
        0 <= from,
    ensures
        find_subseq_from(s, from, pat) == -1 || (from <= find_subseq_from(s, from, pat)
            && subseq_at(s, find_subseq_from(s, from, pat), pat)),
    decreases s.len() - from,
{
    if from + pat.len() <= s.len() && !subseq_at(s, from, pat) && from + pat.len() != s.len() {
        lemma_find_subseq_bounds(s, from + 1, pat);
    }
}

/// The decoded form of a raw parameter value: percent-decoded when that
/// succeeds, the raw text otherwise.
pub open spec fn decoded_or_raw(raw: Seq<char>) -> Seq<char> {
    match percent_decoded(raw) {
        Some(d) => d,
        None => raw,
    }
}

/// Fold one `key=value` parameter into the accumulated callback: the last
/// occurrence of a key wins; a parameter without `=` changes nothing.
pub open spec fn apply_param_spec(acc: CallbackView, p: Seq<char>) -> CallbackView {
    let eq = find_char_from(p, 0, '=');
    if eq >= p.len() {
        acc
    } else {
        let key = p.subrange(0, eq);
        let value = decoded_or_raw(p.subrange(eq + 1, p.len() as int));
        if key == "code"@ {
            CallbackView { code: Some(value), ..acc }
        } else if key == "state"@ {
            CallbackView { state: Some(value), ..acc }
        } else if key == "error"@ {
            CallbackView { error: Some(value), ..acc }
        } else {
            acc
        }
    }
}

/// Fold the `&`-separated parameters of `q`, from `from` on, into `acc`.
pub open spec fn parse_query_from(q: Seq<char>, from: int, acc: CallbackView) -> CallbackView
    decreases q.len() - from,
{
    if !(0 <= from <= q.len()) {
        acc
    } else {
        proof {
            lemma_find_char_bounds(q, from, '&');
        }
        let amp = find_char_from(q, from, '&');
        let acc2 = apply_param_spec(acc, q.subrange(from, amp));
        if amp >= q.len() {
            acc2
        } else {
            parse_query_from(q, amp + 1, acc2)
        }
    }
}

/// What the raw callback request text carries: everything between the
/// first `?` and the following ` HTTP/` marker is the query string, parsed
/// as `&`-separated `key=value` pairs with percent-decoded values.  A
/// request without `?`, or without the ` HTTP/` marker after it, carries
/// nothing.
pub open spec fn parse_callback_spec(req: Seq<char>) -> CallbackView {
    let qpos = find_char_from(req, 0, '?');
    if qpos >= req.len() {
        empty_callback()
    } else {
        let after = req.subrange(qpos + 1, req.len() as int);
        let hpos = find_subseq_from(after, 0, " HTTP/"@);
        if hpos == -1 {
            empty_callback()
        } else {
            parse_query_from(after.subrange(0, hpos), 0, empty_callback())
        }
    }
}

/// The index of the first occurrence of `c` at or after `from`, or the
/// length.
pub fn find_char(v: &Vec<char>, from: usize, c: char) -> (r: usize)
    requires
        from <= v@.len(),
    ensures
        r == find_char_from(v@, from as int, c),
        from <= r <= v@.len(),
    decreases v@.len() - from,
{
    proof {
        lemma_find_char_bounds(v@, from as int, c);
    }
    if from >= v.len() {
        v.len()
    } else if v[from] == c {
        from
    } else {
        find_char(v, from + 1, c)
    }
}

/// Whether `pat` occurs in `v` at position `i`.
pub fn subseq_matches(v: &Vec<char>, i: usize, pat: &Vec<char>) -> (r: bool)
    requires
        i + pat@.len() <= v@.len(),
    ensures
        r == subseq_at(v@, i as int, pat@),
{
    let n = v.len();
    let m = pat.len();
    let mut k: usize = 0;
    while k < m
        invariant
            n == v@.len(),
            m == pat@.len(),
            i + m <= n,
            k <= m,
            forall|j: int| 0 <= j < k ==> v@[i + j] == pat@[j],
        decreases m - k,
    {
        if v[i + k] != pat[k] {
            proof {
                assert(v@.subrange(i as int, i + pat@.len() as int)[k as int] != pat@[k as int]);
            }
            return false;
        }
        k += 1;
    }
    proof {
        assert(v@.subrange(i as int, i + pat@.len() as int) =~= pat@);
    }
    true
}

fn find_subseq(v: &Vec<char>, from: usize, pat: &Vec<char>) -> (r: Option<usize>)
    requires
        from <= v@.len(),
    ensures
        match r {
            Some(i) => find_subseq_from(v@, from as int, pat@) == i,
            None => find_subseq_from(v@, from as int, pat@) == -1,
        },
    decreases v@.len() - from,
{
    let n = v.len();
    let m = pat.len();
    if m > n || from > n - m {
        return None;
    }
    if subseq_matches(v, from, pat) {
        Some(from)
    } else if from == n - m {
        None
    } else {
        find_subseq(v, from + 1, pat)
    }
}

struct CallbackAcc {
    code: Option<String>,
    state: Option<String>,
    error: Option<String>,
}

impl CallbackAcc {
    spec fn view(&self) -> CallbackView {
        CallbackView {
            code: crate::store::opt_view(&self.code),
            state: crate::store::opt_view(&self.state),
            error: crate::store::opt_view(&self.error),
        }
    }
}

fn apply_param(acc: CallbackAcc, q: &Vec<char>, from: usize, to: usize) -> (r: CallbackAcc)
    requires
        from <= to <= q@.len(),
    ensures
        r.view() == apply_param_spec(acc.view(), q@.subrange(from as int, to as int)),
{
    let ghost p = q@.subrange(from as int, to as int);
    let eq = find_char(q, from, '=');
    proof {
        lemma_find_char_bounds(q@, from as int, '=');
        lemma_find_char_bounds(p, 0, '=');
        // The search inside the segment mirrors the search in the whole.
        assert forall|k: int| 0 <= k < p.len() implies p[k] == q@[from + k] by {}
    }
    if eq >= to {
        proof {
            if find_char_from(p, 0, '=') < p.len() {
                let w = find_char_from(p, 0, '=');
                assert(p[w] == '=');
                assert(q@[from + w] == '=');
                lemma_find_char_bounds(q@, from as int, '=');
                assert(find_char_from(q@, from as int, '=') <= from + w);
            }
        }
        return acc;
    }
    proof {
        // eq < to: the '=' found in q lies inside the segment, and is the
        // first one there.
        assert(q@[eq as int] == '=');
        assert(p[eq - from] == '=');
        let w = find_char_from(p, 0, '=');
        if w < eq - from {
            assert(p[w] == '=');
            assert(q@[from + w] == '=');
        }
        if w > eq - from {
            assert(forall|k: int| 0 <= k < w ==> p[k] != '=');
            assert(p[eq - from] == '=');
        }
        assert(w == eq - from);
        assert(q@.subrange(from as int, eq as int) =~= p.subrange(0, eq - from));
        assert(q@.subrange(eq + 1 as int, to as int) =~= p.subrange(eq - from + 1, p.len() as int));
    }
    let key = chars_range_to_string(q, from, eq);
    let raw = chars_range_to_string(q, eq + 1, to);
    let value = match percent_decode(&raw) {
        Some(d) => d,
        None => raw,
    };
    if str_equal(key.as_str(), "code") {
        let r = CallbackAcc { code: Some(value), ..acc };
        proof {
            assert(r.view() =~= apply_param_spec(acc.view(), p));
        }
        r
    } else if str_equal(key.as_str(), "state") {
        let r = CallbackAcc { state: Some(value), ..acc };
        proof {
            assert(r.view() =~= apply_param_spec(acc.view(), p));
        }
        r
    } else if str_equal(key.as_str(), "error") {
        let r = CallbackAcc { error: Some(value), ..acc };
        proof {
            assert(r.view() =~= apply_param_spec(acc.view(), p));
        }
        r
    } else {
        proof {
            assert(acc.view() =~= apply_param_spec(acc.view(), p));
        }
        acc
    }
}

fn parse_query(q: &Vec<char>, from: usize, acc: CallbackAcc) -> (r: CallbackAcc)
    requires
        from <= q@.len(),
    ensures
        r.view() == parse_query_from(q@, from as int, acc.view()),
    decreases q@.len() - from,
{
    let amp = find_char(q, from, '&');
    let acc2 = apply_param(acc, q, from, amp);
    if amp >= q.len() {
        acc2
    } else {
        parse_query(q, amp + 1, acc2)
    }
}

/// Extract the `code`, `state` and `error` parameters from the raw text of
/// the callback request.
pub fn parse_callback_request(request: &String) -> (r: CallbackQuery)
    ensures
        r@ == parse_callback_spec(request@),
{
    let v = string_to_chars(request.as_str());
    let qpos = find_char(&v, 0, '?');
    if qpos >= v.len() {
        return CallbackQuery { code: None, state: None, error: None };
    }
    let after = crate::strutil::chars_range(&v, qpos + 1, v.len());
    let marker = string_to_chars(" HTTP/");
    let hpos = match find_subseq(&after, 0, &marker) {
        None => {
            return CallbackQuery { code: None, state: None, error: None };
        },
        Some(h) => h,
    };
    proof {
        lemma_find_subseq_bounds(after@, 0, marker@);
    }
    let query = crate::strutil::chars_range(&after, 0, hpos);
    let acc = parse_query(
        &query,
        0,
        CallbackAcc { code: None, state: None, error: None },
    );
    let r = CallbackQuery { code: acc.code, state: acc.state, error: acc.error };
    proof {
        assert(r@ =~= parse_callback_spec(request@));
    }
    r
}

/// The HTTP response the listener answers with: a failure page naming the
/// provider's error, a success page when both `code` and `state` arrived,
/// and a generic rejection otherwise.
pub open spec fn callback_response_spec(cb: CallbackView) -> Seq<char> {
    match cb.error {
        Some(e) =>
            "HTTP/1.1 400 Bad Request\r\nContent-Type: text/html\r\n\r\n<html><body><h1>Authentication failed</h1><p>Error: "@
            + e + "</p></body></html>"@,
        None => if cb.code is Some && cb.state is Some {
            "HTTP/1.1 200 OK\r\nContent-Type: text/html\r\n\r\n<html><body><h1>Authentication successful!</h1><p>You can close this window.</p></body></html>"@
        } else {
            "HTTP/1.1 400 Bad Request\r\nContent-Type: text/html\r\n\r\n<html><body><h1>Invalid request</h1></body></html>"@
        },
    }
}

/// Build the HTTP response for a parsed callback.
pub fn callback_response(cb: &CallbackQuery) -> (r: String)
    ensures
        r@ == callback_response_spec(cb@),
{
    match &cb.error {
        Some(e) => {
            let r = String::from_str(
                "HTTP/1.1 400 Bad Request\r\nContent-Type: text/html\r\n\r\n<html><body><h1>Authentication failed</h1><p>Error: ",
            ).concat(e.as_str()).concat("</p></body></html>");
            proof {
                assert(r@ =~= callback_response_spec(cb@));
            }
            r
        },
        None => {
            if cb.code.is_some() && cb.state.is_some() {
                String::from_str(
                    "HTTP/1.1 200 OK\r\nContent-Type: text/html\r\n\r\n<html><body><h1>Authentication successful!</h1><p>You can close this window.</p></body></html>",
                )
            } else {
                String::from_str(
                    "HTTP/1.1 400 Bad Request\r\nContent-Type: text/html\r\n\r\n<html><body><h1>Invalid request</h1></body></html>",
                )
            }
        },
    }
}

/// Whether a callback passes verification against the state issued at
/// authorize-URL build time: no provider error, the exact same state, and
/// an authorization code present.
pub open spec fn callback_accepted(expected_state: Seq<char>, cb: CallbackView) -> bool {
    cb.error is None && cb.state == Some(expected_state) && cb.code is Some
}

/// Verify a callback: a provider-reported error fails the flow; a missing
/// or different `state` is a CSRF mismatch and terminal; otherwise the
/// authorization code is returned.  The code is handed out only on exact
/// state agreement.
pub fn verify_callback(expected_state: &String, cb: &CallbackQuery) -> (r: Result<
    String,
    OAuthError,
>)
    ensures
        r matches Ok(code) ==> callback_accepted(expected_state@, cb@) && Some(code@) == cb@.code,
        callback_accepted(expected_state@, cb@) ==> (r matches Ok(code) && Some(code@)
            == cb@.code),
        cb@.error matches Some(e) ==> (r matches Err(err) && err matches OAuthError::Flow(m) && m@
            == "authorization server returned error: "@ + e),
        (cb@.error is None && cb@.state != Some(expected_state@)) ==> (r matches Err(err)
            && err matches OAuthError::StateMismatch { expected, actual } && expected@
            == expected_state@ && actual@ == (match cb@.state {
            Some(s) => s,
            None => Seq::<char>::empty(),
        })),
        (cb@.error is None && cb@.state == Some(expected_state@) && cb@.code is None) ==> (r
            matches Err(err) && err matches OAuthError::Flow(m) && m@ == "no code parameter"@),
{
    match &cb.error {
        Some(e) => {
            let m = String::from_str("authorization server returned error: ").concat(e.as_str());
            proof {
                assert(m@ =~= "authorization server returned error: "@ + cb@.error.unwrap());
            }
            return Err(OAuthError::Flow(m));
        },
        None => {},
    }
    let state_matches = match &cb.state {
        Some(s) => str_equal(s.as_str(), expected_state.as_str()),
        None => false,
    };
    if !state_matches {
        let actual = match &cb.state {
            Some(s) => s.clone(),
            None => String::new(),
        };
        return Err(
            OAuthError::StateMismatch { expected: expected_state.clone(), actual },
        );
    }
    match &cb.code {
        Some(c) => Ok(c.clone()),
        None => Err(OAuthError::Flow(String::from_str("no code parameter"))),
    }
}

/// CSRF defense: a callback whose `state` is not exactly the issued state
/// never yields an authorization code, so no token exchange can follow.
pub proof fn lemma_state_mismatch_rejected(
    expected_state: Seq<char>,
    cb: CallbackView,
    r: Result<String, OAuthError>,
)
    requires
        cb.state != Some(expected_state),
        r is Ok ==> callback_accepted(expected_state, cb),
    ensures
        r is Err,
{
}

} // verus!
