//! Input validation for the CLI-facing operations.

use vstd::prelude::*;

use crate::error::Error;
use crate::store::opt_view;
use crate::strutil::{trim_spec, trim_string};
use crate::urlbuild::url_scheme_of;

verus! {

/// Check that a string is an absolute `http` or `https` URL.
pub fn validate_url(url: &String) -> (r: Result<(), Error>)
    ensures
        match url_scheme_of(url@) {
            None => r matches Err(e) && e matches Error::Validation(m) && m@ == "invalid URL: "@
                + url@,
            Some(scheme) => if scheme == "http"@ || scheme == "https"@ {
                r is Ok
            } else {
                r matches Err(e) && e matches Error::Validation(m) && m@
                    == "unsupported URL scheme: "@ + scheme
            },
        },
{
    match crate::urlbuild::parse_url_scheme(url) {
        None => {
            let m = String::from_str("invalid URL: ").concat(url.as_str());
            proof {
                assert(m@ =~= "invalid URL: "@ + url@);
            }
            Err(Error::Validation(m))
        },
        Some(scheme) => {
            if crate::strutil::str_equal(scheme.as_str(), "http") || crate::strutil::str_equal(
                scheme.as_str(),
                "https",
            ) {
                Ok(())
            } else {
                let m = String::from_str("unsupported URL scheme: ").concat(scheme.as_str());
                proof {
                    assert(m@ =~= "unsupported URL scheme: "@ + url_scheme_of(url@).unwrap());
                }
                Err(Error::Validation(m))
            }
        },
    }
}

/// The display name paired with value `i`: the trimmed `i`-th name when one
/// was given and is not blank, nothing otherwise.
pub open spec fn paired_name_spec(names: Seq<Seq<char>>, i: int) -> Option<Seq<char>> {
    if 0 <= i < names.len() && trim_spec(names[i]).len() > 0 {
        Some(trim_spec(names[i]))
    } else {
        None
    }
}

/// Pair each value with its optional display name: names are trimmed,
/// blank names become none, and more names than values is an error naming
/// the offending flag.
pub fn pair_with_names(values: &Vec<String>, names: &Vec<String>, field: &str) -> (r: Result<
    Vec<(String, Option<String>)>,
    Error,
>)
    ensures
        names@.len() > values@.len() ==> (r matches Err(e) && e matches Error::Validation(m) && m@
            == field@ + " count exceeds number of values"@),
        names@.len() <= values@.len() ==> (r matches Ok(pairs) && pairs@.len() == values@.len()
            && (forall|i: int|
            0 <= i < values@.len() ==> (#[trigger] pairs@[i]).0 == values@[i] && opt_view(
                &pairs@[i].1,
            ) == paired_name_spec(names@.map_values(|n: String| n@), i))),
{
    if names.len() > values.len() {
        let m = field.to_owned().concat(" count exceeds number of values");
        proof {
            assert(m@ =~= field@ + " count exceeds number of values"@);
        }
        return Err(Error::Validation(m));
    }
    let ghost name_views = names@.map_values(|n: String| n@);
    let mut pairs: Vec<(String, Option<String>)> = Vec::new();
    let mut i: usize = 0;
    while i < values.len()
        invariant
            names@.len() <= values@.len(),
            name_views == names@.map_values(|n: String| n@),
            i <= values@.len(),
            pairs@.len() == i,
            forall|k: int|
                0 <= k < i ==> (#[trigger] pairs@[k]).0 == values@[k] && opt_view(&pairs@[k].1)
                    == paired_name_spec(name_views, k),
        decreases values@.len() - i,
    {
        let name: Option<String> = if i < names.len() {
            let trimmed = trim_string(names[i].as_str());
            if trimmed.as_str().unicode_len() == 0 {
                None
            } else {
                Some(trimmed)
            }
        } else {
            None
        };
        pairs.push((values[i].clone(), name));
        i += 1;
    }
    Ok(pairs)
}

} // verus!
