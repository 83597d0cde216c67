//! The `notebooks` command surface.

use vstd::prelude::*;

use crate::models::BatchDeleteNotebooksRequest;

verus! {

/// The notebook subcommands.
pub enum Command {
    Create(CreateArgs),
    Recent(RecentArgs),
    Delete(DeleteArgs),
}

/// Arguments of `notebooks create`.
pub struct CreateArgs {
    pub title: String,
}

/// Arguments of `notebooks recent`.
pub struct RecentArgs {
    /// Page size for pagination (1-500).
    pub page_size: Option<u32>,
    /// Page token for pagination.
    pub page_token: Option<String>,
}

/// Arguments of `notebooks delete`: full notebook resource names, deleted
/// one at a time.
pub struct DeleteArgs {
    pub notebook_names: Vec<String>,
}

/// The delete requests for a list of notebook names.  The batch endpoint
/// accepts a single name per call despite its shape, so each name gets a
/// request of its own, in order.
pub fn single_delete_requests(notebook_names: &Vec<String>) -> (r: Vec<
    BatchDeleteNotebooksRequest,
>)
    ensures
        r@.len() == notebook_names@.len(),
        forall|i: int|
            0 <= i < notebook_names@.len() ==> (#[trigger] r@[i]).names@.len() == 1 && r@[i].names@[0]
                == notebook_names@[i],
{
    let mut r: Vec<BatchDeleteNotebooksRequest> = Vec::new();
    let mut i: usize = 0;
    while i < notebook_names.len()
        invariant
            i <= notebook_names@.len(),
            r@.len() == i,
            forall|k: int|
                0 <= k < i ==> (#[trigger] r@[k]).names@.len() == 1 && r@[k].names@[0]
                    == notebook_names@[k],
        decreases notebook_names@.len() - i,
    {
        let mut names: Vec<String> = Vec::new();
        names.push(notebook_names[i].clone());
        r.push(BatchDeleteNotebooksRequest { names });
        i += 1;
    }
    r
}

/// The trailing segment of a resource name: everything after the last
/// `/`, or the whole name when it has none.
pub open spec fn trailing_segment_spec(name: Seq<char>) -> Seq<char> {
    let pos = crate::urlbuild::rfind_subseq(name, "/"@, name.len() - 1);
    if pos >= 0 {
        name.subrange(pos + 1, name.len() as int)
    } else {
        name
    }
}

/// The notebook id carried by a full resource name.
pub fn notebook_id_from_name(name: &String) -> (r: String)
    ensures
        r@ == trailing_segment_spec(name@),
{
    let v = crate::strutil::string_to_chars(name.as_str());
    let n = v.len();
    let slash = crate::strutil::string_to_chars("/");
    proof {
        reveal_strlit("/");
        assert(slash@ =~= "/"@);
    }
    match crate::urlbuild::rfind_subseq_exec(&v, &slash) {
        Some(pos) => {
            proof {
                assert(pos + slash@.len() <= n);
            }
            crate::strutil::chars_range_to_string(&v, pos + 1, n)
        },
        None => name.clone(),
    }
}

/// The page-size bounds the list endpoint accepts.
pub open spec fn clamped_page_size_spec(size: u32) -> u32 {
    if size < 1 {
        1
    } else if size > 500 {
        500
    } else {
        size
    }
}

/// Clamp a requested page size into the endpoint's accepted range.
pub fn clamp_page_size(size: u32) -> (r: u32)
    ensures
        r == clamped_page_size_spec(size),
        1 <= r <= 500,
{
    if size < 1 {
        1
    } else if size > 500 {
        500
    } else {
        size
    }
}

} // verus!
