//! URL construction for API endpoints.
//!
//! Builds resource paths under the environment's parent, joins them to the
//! base URL, and validates the result through the `url` crate.

use vstd::prelude::*;

use crate::callback::subseq_at;
use crate::error::Error;
use crate::strutil::{chars_range_to_string, string_to_chars};

verus! {

/// The scheme of `s` as the `url` crate parses it, or none when `s` is not
/// an absolute URL.  A function of the input alone.
pub uninterp spec fn url_scheme_of(s: Seq<char>) -> Option<Seq<char>>;

/// Relies on `url::Url::parse` and `Url::scheme`: parses an absolute URL
/// and reports its (lowercased) scheme; parsing fails on relative or
/// malformed input.
#[verifier::external_body]
pub fn parse_url_scheme(s: &String) -> (r: Option<String>)
    ensures
        match r {
            Some(sch) => url_scheme_of(s@) == Some(sch@),
            None => url_scheme_of(s@) is None,
        },
{
    match url::Url::parse(s) {
        Ok(u) => Some(u.scheme().to_string()),
        Err(_) => None,
    }
}

/// The path with every leading `/` removed.
pub open spec fn strip_leading_slashes(s: Seq<char>) -> Seq<char>
    decreases s.len(),
{
    if s.len() > 0 && s[0] == '/' {
        strip_leading_slashes(s.drop_first())
    } else {
        s
    }
}

proof fn lemma_strip_slashes_prefix(s: Seq<char>, i: int)
    requires
        0 <= i <= s.len(),
        forall|k: int| 0 <= k < i ==> s[k] == '/',
        i == s.len() || s[i] != '/',
    ensures
        strip_leading_slashes(s) == s.subrange(i, s.len() as int),
    decreases i,
{
    if i == 0 {
        assert(s.subrange(0, s.len() as int) =~= s);
    } else {
        let t = s.drop_first();
        lemma_strip_slashes_prefix(t, i - 1);
        assert(t.subrange(i - 1, t.len() as int) =~= s.subrange(i, s.len() as int));
    }
}

fn strip_leading_slashes_exec(path: &String) -> (r: Vec<char>)
    ensures
        r@ == strip_leading_slashes(path@),
{
    let v = string_to_chars(path.as_str());
    let mut i: usize = 0;
    while i < v.len() && v[i] == '/'
        invariant
            i <= v@.len(),
            v@ == path@,
            forall|k: int| 0 <= k < i ==> v@[k] == '/',
        decreases v@.len() - i,
    {
        i += 1;
    }
    proof {
        lemma_strip_slashes_prefix(v@, i as int);
    }
    crate::strutil::chars_range(&v, i, v.len())
}

/// The last index at or before `from` where `pat` occurs in `s`, or `-1`.
pub open spec fn rfind_subseq(s: Seq<char>, pat: Seq<char>, from: int) -> int
    decreases from + 1,
{
    if from < 0 {
        -1
    } else if subseq_at(s, from, pat) {
        from
    } else {
        rfind_subseq(s, pat, from - 1)
    }
}

/// The base with every trailing `/` removed.
pub open spec fn strip_trailing_slashes(s: Seq<char>) -> Seq<char>
    decreases s.len(),
{
    if s.len() > 0 && s.last() == '/' {
        strip_trailing_slashes(s.drop_last())
    } else {
        s
    }
}

proof fn lemma_strip_trailing_slashes(s: Seq<char>, j: int)
    requires
        0 <= j <= s.len(),
        forall|k: int| j <= k < s.len() ==> s[k] == '/',
        j == 0 || s[j - 1] != '/',
    ensures
        strip_trailing_slashes(s) == s.subrange(0, j),
    decreases s.len() - j,
{
    if j == s.len() {
        assert(s.subrange(0, s.len() as int) =~= s);
    } else {
        let t = s.drop_last();
        lemma_strip_trailing_slashes(t, j);
        assert(t.subrange(0, j) =~= s.subrange(0, j));
    }
}

/// The URL a path joins to: the base, one `/`, and the path without its
/// leading slashes.
pub open spec fn joined_url_spec(base: Seq<char>, path: Seq<char>) -> Seq<char> {
    base + "/"@ + strip_leading_slashes(path)
}

/// The upload variant of a base and path: `/upload` is spliced in before
/// the last `/v1alpha` of the (slash-trimmed) base, or appended when the
/// base has no `/v1alpha`.
pub open spec fn upload_url_spec(base: Seq<char>, path: Seq<char>) -> Seq<char> {
    let b = strip_trailing_slashes(base);
    let p = strip_leading_slashes(path);
    let marker = "/v1alpha"@;
    let pos = rfind_subseq(b, marker, b.len() - marker.len());
    if pos >= 0 {
        b.subrange(0, pos) + "/upload/v1alpha/"@ + p
    } else {
        b + "/upload/"@ + p
    }
}

/// URL construction for API endpoints: a base URL and the parent resource
/// path all resources live under.
#[derive(Clone)]
pub struct UrlBuilder {
    pub base: String,
    pub parent: String,
}

impl UrlBuilder {
    pub fn new(base: String, parent: String) -> (r: Self)
        ensures
            r.base == base,
            r.parent == parent,
    {
        UrlBuilder { base, parent }
    }

    /// The notebooks collection under the parent.
    pub fn notebooks_collection(&self) -> (r: String)
        ensures
            r@ == self.parent@ + "/notebooks"@,
    {
        let r = self.parent.clone().concat("/notebooks");
        proof {
            assert(r@ =~= self.parent@ + "/notebooks"@);
        }
        r
    }

    /// The path of one notebook under the parent.
    pub fn notebook_path(&self, notebook_id: &String) -> (r: String)
        ensures
            r@ == self.parent@ + "/notebooks/"@ + notebook_id@,
    {
        let r = self.parent.clone().concat("/notebooks/").concat(notebook_id.as_str());
        proof {
            assert(r@ =~= self.parent@ + "/notebooks/"@ + notebook_id@);
        }
        r
    }

    /// Join a path to the base URL; the result must parse as an absolute
    /// URL.
    pub fn build_url(&self, path: &String) -> (r: Result<String, Error>)
        ensures
            url_scheme_of(joined_url_spec(self.base@, path@)) is Some ==> (r matches Ok(u) && u@
                == joined_url_spec(self.base@, path@)),
            url_scheme_of(joined_url_spec(self.base@, path@)) is None ==> (r matches Err(e)
                && e matches Error::Url(m) && m@ == "invalid URL: "@ + joined_url_spec(
                self.base@,
                path@,
            )),
    {
        let trimmed = strip_leading_slashes_exec(path);
        let joined = self.base.clone().concat("/").concat(
            crate::strutil::chars_to_string(&trimmed).as_str(),
        );
        proof {
            assert(joined@ =~= joined_url_spec(self.base@, path@));
        }
        match parse_url_scheme(&joined) {
            Some(_) => Ok(joined),
            None => {
                let m = String::from_str("invalid URL: ").concat(joined.as_str());
                proof {
                    assert(m@ =~= "invalid URL: "@ + joined_url_spec(self.base@, path@));
                }
                Err(Error::Url(m))
            },
        }
    }

    /// Build the media-upload URL for a path: the upload prefix is spliced
    /// in before the base's API version; the result must parse as an
    /// absolute URL.
    pub fn build_upload_url(&self, path: &String) -> (r: Result<String, Error>)
        ensures
            url_scheme_of(upload_url_spec(self.base@, path@)) is Some ==> (r matches Ok(u) && u@
                == upload_url_spec(self.base@, path@)),
            url_scheme_of(upload_url_spec(self.base@, path@)) is None ==> (r matches Err(e)
                && e matches Error::Url(m) && m@ == "invalid URL: "@ + upload_url_spec(
                self.base@,
                path@,
            )),
    {
        let bv = string_to_chars(self.base.as_str());
        let mut end: usize = bv.len();
        while end > 0 && bv[end - 1] == '/'
            invariant
                end <= bv@.len(),
                forall|k: int| end <= k < bv@.len() ==> bv@[k] == '/',
            decreases end,
        {
            end -= 1;
        }
        proof {
            lemma_strip_trailing_slashes(bv@, end as int);
        }
        let b = crate::strutil::chars_range(&bv, 0, end);
        let trimmed = strip_leading_slashes_exec(path);
        let p = crate::strutil::chars_to_string(&trimmed);
        let marker = string_to_chars("/v1alpha");
        let upload = match rfind_subseq_exec(&b, &marker) {
            Some(pos) => {
                let prefix = chars_range_to_string(&b, 0, pos);
                let u = prefix.concat("/upload/v1alpha/").concat(p.as_str());
                proof {
                    assert(u@ =~= upload_url_spec(self.base@, path@));
                }
                u
            },
            None => {
                let u = crate::strutil::chars_to_string(&b).concat("/upload/").concat(p.as_str());
                proof {
                    assert(u@ =~= upload_url_spec(self.base@, path@));
                }
                u
            },
        };
        match parse_url_scheme(&upload) {
            Some(_) => Ok(upload),
            None => {
                let m = String::from_str("invalid URL: ").concat(upload.as_str());
                proof {
                    assert(m@ =~= "invalid URL: "@ + upload_url_spec(self.base@, path@));
                }
                Err(Error::Url(m))
            },
        }
    }
}

/// Find the last occurrence of `pat` in `v`.
pub fn rfind_subseq_exec(v: &Vec<char>, pat: &Vec<char>) -> (r: Option<usize>)
    ensures
        match r {
            Some(i) => rfind_subseq(v@, pat@, v@.len() - pat@.len()) == i && i + pat@.len()
                <= v@.len(),
            None => rfind_subseq(v@, pat@, v@.len() - pat@.len()) == -1,
        },
{
    let n = v.len();
    let m = pat.len();
    if m > n {
        proof {
            lemma_rfind_none_when_out(v@, pat@, n as int - m as int);
        }
        return None;
    }
    let mut i: usize = n - m;
    loop
        invariant
            n == v@.len(),
            m == pat@.len(),
            m <= n,
            i <= n - m,
            rfind_subseq(v@, pat@, n - m) == rfind_subseq(v@, pat@, i as int),
        decreases i,
    {
        if crate::callback::subseq_matches(v, i, pat) {
            return Some(i);
        }
        if i == 0 {
            proof {
                lemma_rfind_none_when_out(v@, pat@, -1);
            }
            return None;
        }
        i -= 1;
    }
}

proof fn lemma_rfind_none_when_out(s: Seq<char>, pat: Seq<char>, from: int)
    requires
        from < 0,
    ensures
        rfind_subseq(s, pat, from) == -1,
{
}

} // verus!
