//! The `sources` command surface and its content assembly.
//!
//! `sources add` gathers web, text, Google Drive and video sources from
//! the repeated flags; the assembly here validates every input and builds
//! the request contents in the order the flags name them.

use vstd::prelude::*;

use crate::error::Error;
use crate::models::{GoogleDriveContent, TextContent, UserContent, VideoContent, WebContent};
use crate::store::opt_view;
use crate::strutil::{trim_spec, trim_string, u64_to_string};
use crate::urlbuild::url_scheme_of;
use crate::validate::{paired_name_spec, pair_with_names, validate_url};

verus! {

/// The sources subcommands.
pub enum Command {
    Add(AddArgs),
    Delete(DeleteArgs),
    Upload(UploadArgs),
    Get(GetArgs),
}

/// Arguments of `sources add`.
pub struct AddArgs {
    pub notebook_id: String,
    pub web_urls: Vec<String>,
    pub web_names: Vec<String>,
    pub texts: Vec<String>,
    pub text_names: Vec<String>,
    pub drive_document_ids: Vec<String>,
    pub drive_mime_types: Vec<String>,
    pub drive_names: Vec<String>,
    pub video_urls: Vec<String>,
}

/// Arguments of `sources delete`.
pub struct DeleteArgs {
    pub notebook_id: String,
    pub source_names: Vec<String>,
}

/// Arguments of `sources upload`.
pub struct UploadArgs {
    pub notebook_id: String,
    pub file: String,
    pub content_type: Option<String>,
    pub display_name: Option<String>,
}

/// Arguments of `sources get`.
pub struct GetArgs {
    pub notebook_id: String,
    pub source_id: String,
}

/// A URL the add command accepts: absolute, with an `http` or `https`
/// scheme.
pub open spec fn valid_source_url(u: Seq<char>) -> bool {
    match url_scheme_of(u) {
        Some(s) => s == "http"@ || s == "https"@,
        None => false,
    }
}

/// When `sources add` succeeds: names do not outnumber their values,
/// every web and video URL is acceptable, no text or Drive document id is
/// blank, Drive ids and mime types come in pairs, and at least one source
/// was named.
pub open spec fn add_sources_acceptable(a: &AddArgs) -> bool {
    &&& a.web_names@.len() <= a.web_urls@.len()
    &&& forall|i: int| 0 <= i < a.web_urls@.len() ==> valid_source_url((#[trigger] a.web_urls@[i])@)
    &&& a.text_names@.len() <= a.texts@.len()
    &&& forall|i: int| 0 <= i < a.texts@.len() ==> trim_spec((#[trigger] a.texts@[i])@).len() > 0
    &&& a.drive_document_ids@.len() == a.drive_mime_types@.len()
    &&& a.drive_names@.len() <= a.drive_document_ids@.len()
    &&& forall|i: int|
        0 <= i < a.drive_document_ids@.len() ==> trim_spec(
            (#[trigger] a.drive_document_ids@[i])@,
        ).len() > 0
    &&& forall|i: int|
        0 <= i < a.video_urls@.len() ==> valid_source_url((#[trigger] a.video_urls@[i])@)
    &&& a.web_urls@.len() + a.texts@.len() + a.drive_document_ids@.len() + a.video_urls@.len() > 0
}

/// One web source built from value `i` of the web flags.
pub open spec fn is_web_content(c: UserContent, url: String, names: Seq<Seq<char>>, i: int) -> bool {
    c matches UserContent::Web { web_content } && web_content.url == url && opt_view(
        &web_content.source_name,
    ) == paired_name_spec(names, i)
}

/// One text source built from value `i` of the text flags.
pub open spec fn is_text_content(c: UserContent, text: String, names: Seq<Seq<char>>, i: int) -> bool {
    c matches UserContent::Text { text_content } && text_content.content == text && opt_view(
        &text_content.source_name,
    ) == paired_name_spec(names, i)
}

/// One Drive source built from value `i` of the Drive flags.
pub open spec fn is_drive_content(
    c: UserContent,
    document_id: String,
    mime_type: String,
    names: Seq<Seq<char>>,
    i: int,
) -> bool {
    c matches UserContent::GoogleDrive { google_drive_content }
        && google_drive_content.document_id == document_id && google_drive_content.mime_type
        == mime_type && opt_view(&google_drive_content.source_name) == paired_name_spec(names, i)
}

/// One video source built from a video flag value.
pub open spec fn is_video_content(c: UserContent, url: String) -> bool {
    c matches UserContent::Video { video_content } && video_content.url == url
}

/// The contents `sources add` builds: the web sources, then the texts,
/// then the Drive documents, then the videos, each paired with its
/// trimmed display name.
pub open spec fn add_sources_contents_ok(a: &AddArgs, contents: Seq<UserContent>) -> bool {
    let nw = a.web_urls@.len() as int;
    let nt = a.texts@.len() as int;
    let nd = a.drive_document_ids@.len() as int;
    let nv = a.video_urls@.len() as int;
    &&& contents.len() == nw + nt + nd + nv
    &&& forall|i: int|
        0 <= i < nw ==> is_web_content(
            #[trigger] contents[i],
            a.web_urls@[i],
            a.web_names@.map_values(|n: String| n@),
            i,
        )
    &&& forall|i: int|
        0 <= i < nt ==> is_text_content(
            #[trigger] contents[nw + i],
            a.texts@[i],
            a.text_names@.map_values(|n: String| n@),
            i,
        )
    &&& forall|i: int|
        0 <= i < nd ==> is_drive_content(
            #[trigger] contents[nw + nt + i],
            a.drive_document_ids@[i],
            a.drive_mime_types@[i],
            a.drive_names@.map_values(|n: String| n@),
            i,
        )
    &&& forall|i: int|
        0 <= i < nv ==> is_video_content(#[trigger] contents[nw + nt + nd + i], a.video_urls@[i])
}

/// Assemble the contents of a `sources add` call, validating every input;
/// the call succeeds exactly on acceptable arguments.
pub fn build_add_source_contents(a: &AddArgs) -> (r: Result<Vec<UserContent>, Error>)
    ensures
        r is Ok <==> add_sources_acceptable(a),
        r matches Ok(contents) ==> add_sources_contents_ok(a, contents@),
{
    let ghost nw = a.web_urls@.len() as int;
    let ghost nt = a.texts@.len() as int;
    let ghost nd = a.drive_document_ids@.len() as int;
    let ghost nv = a.video_urls@.len() as int;
    let mut contents: Vec<UserContent> = Vec::new();

    let web_pairs = match pair_with_names(&a.web_urls, &a.web_names, "--web-name") {
        Ok(p) => p,
        Err(e) => {
            return Err(e);
        },
    };
    let mut i: usize = 0;
    while i < web_pairs.len()
        invariant
            nw == a.web_urls@.len(),
            nt == a.texts@.len(),
            nd == a.drive_document_ids@.len(),
            nv == a.video_urls@.len(),
            web_pairs@.len() == nw,
            i <= nw,
            forall|k: int|
                0 <= k < nw ==> (#[trigger] web_pairs@[k]).0 == a.web_urls@[k] && opt_view(
                    &web_pairs@[k].1,
                ) == paired_name_spec(a.web_names@.map_values(|n: String| n@), k),
            forall|k: int| 0 <= k < i ==> valid_source_url((#[trigger] a.web_urls@[k])@),
            contents@.len() == i,
            forall|k: int|
                0 <= k < i ==> is_web_content(
                    #[trigger] contents@[k],
                    a.web_urls@[k],
                    a.web_names@.map_values(|n: String| n@),
                    k,
                ),
        decreases web_pairs@.len() - i,
    {
        match validate_url(&web_pairs[i].0) {
            Ok(_) => {},
            Err(e) => {
                proof {
                    assert(web_pairs@[i as int].0 == a.web_urls@[i as int]);
                    assert(!valid_source_url(a.web_urls@[i as int]@));
                }
                return Err(e);
            },
        }
        let name = match &web_pairs[i].1 {
            Some(n) => Some(n.clone()),
            None => None,
        };
        contents.push(
            UserContent::Web {
                web_content: WebContent { url: web_pairs[i].0.clone(), source_name: name },
            },
        );
        i += 1;
    }

    let text_pairs = match pair_with_names(&a.texts, &a.text_names, "--text-name") {
        Ok(p) => p,
        Err(e) => {
            return Err(e);
        },
    };
    let mut i: usize = 0;
    while i < text_pairs.len()
        invariant
            nw == a.web_urls@.len(),
            nt == a.texts@.len(),
            nd == a.drive_document_ids@.len(),
            nv == a.video_urls@.len(),
            web_pairs@.len() == nw,
            text_pairs@.len() == nt,
            i <= nt,
            forall|k: int|
                0 <= k < nt ==> (#[trigger] text_pairs@[k]).0 == a.texts@[k] && opt_view(
                    &text_pairs@[k].1,
                ) == paired_name_spec(a.text_names@.map_values(|n: String| n@), k),
            forall|k: int| 0 <= k < nw ==> valid_source_url((#[trigger] a.web_urls@[k])@),
            forall|k: int| 0 <= k < i ==> trim_spec((#[trigger] a.texts@[k])@).len() > 0,
            contents@.len() == nw + i,
            forall|k: int|
                0 <= k < nw ==> is_web_content(
                    #[trigger] contents@[k],
                    a.web_urls@[k],
                    a.web_names@.map_values(|n: String| n@),
                    k,
                ),
            forall|k: int|
                0 <= k < i ==> is_text_content(
                    #[trigger] contents@[nw + k],
                    a.texts@[k],
                    a.text_names@.map_values(|n: String| n@),
                    k,
                ),
        decreases text_pairs@.len() - i,
    {
        if trim_string(text_pairs[i].0.as_str()).as_str().unicode_len() == 0 {
            proof {
                assert(text_pairs@[i as int].0 == a.texts@[i as int]);
                assert(trim_spec(a.texts@[i as int]@).len() == 0);
            }
            return Err(Error::Validation(String::from_str("--text cannot be empty")));
        }
        let name = match &text_pairs[i].1 {
            Some(n) => Some(n.clone()),
            None => None,
        };
        contents.push(
            UserContent::Text {
                text_content: TextContent { content: text_pairs[i].0.clone(), source_name: name },
            },
        );
        i += 1;
    }

    if a.drive_document_ids.len() != a.drive_mime_types.len() {
        let m = String::from_str(
            "--drive-document-id and --drive-mime-type must be specified in pairs (got ",
        ).concat(u64_to_string(a.drive_document_ids.len() as u64).as_str()).concat(
            " document IDs and ",
        ).concat(u64_to_string(a.drive_mime_types.len() as u64).as_str()).concat(" mime types)");
        return Err(Error::Validation(m));
    }
    if a.drive_names.len() > a.drive_document_ids.len() {
        return Err(
            Error::Validation(
                String::from_str("--drive-name count exceeds number of document IDs"),
            ),
        );
    }
    let mut i: usize = 0;
    while i < a.drive_document_ids.len()
        invariant
            nw == a.web_urls@.len(),
            nt == a.texts@.len(),
            nd == a.drive_document_ids@.len(),
            nv == a.video_urls@.len(),
            nd == a.drive_mime_types@.len(),
            a.drive_names@.len() <= nd,
            i <= nd,
            forall|k: int| 0 <= k < nw ==> valid_source_url((#[trigger] a.web_urls@[k])@),
            forall|k: int| 0 <= k < nt ==> trim_spec((#[trigger] a.texts@[k])@).len() > 0,
            forall|k: int|
                0 <= k < i ==> trim_spec((#[trigger] a.drive_document_ids@[k])@).len() > 0,
            contents@.len() == nw + nt + i,
            forall|k: int|
                0 <= k < nw ==> is_web_content(
                    #[trigger] contents@[k],
                    a.web_urls@[k],
                    a.web_names@.map_values(|n: String| n@),
                    k,
                ),
            forall|k: int|
                0 <= k < nt ==> is_text_content(
                    #[trigger] contents@[nw + k],
                    a.texts@[k],
                    a.text_names@.map_values(|n: String| n@),
                    k,
                ),
            forall|k: int|
                0 <= k < i ==> is_drive_content(
                    #[trigger] contents@[nw + nt + k],
                    a.drive_document_ids@[k],
                    a.drive_mime_types@[k],
                    a.drive_names@.map_values(|n: String| n@),
                    k,
                ),
        decreases a.drive_document_ids@.len() - i,
    {
        if trim_string(a.drive_document_ids[i].as_str()).as_str().unicode_len() == 0 {
            proof {
                assert(trim_spec(a.drive_document_ids@[i as int]@).len() == 0);
            }
            return Err(
                Error::Validation(String::from_str("--drive-document-id cannot be empty")),
            );
        }
        let name: Option<String> = if i < a.drive_names.len() {
            let t = trim_string(a.drive_names[i].as_str());
            if t.as_str().unicode_len() == 0 {
                None
            } else {
                Some(t)
            }
        } else {
            None
        };
        contents.push(
            UserContent::GoogleDrive {
                google_drive_content: GoogleDriveContent {
                    document_id: a.drive_document_ids[i].clone(),
                    mime_type: a.drive_mime_types[i].clone(),
                    source_name: name,
                },
            },
        );
        i += 1;
    }

    let mut i: usize = 0;
    while i < a.video_urls.len()
        invariant
            nw == a.web_urls@.len(),
            nt == a.texts@.len(),
            nd == a.drive_document_ids@.len(),
            nv == a.video_urls@.len(),
            nd == a.drive_mime_types@.len(),
            a.drive_names@.len() <= nd,
            a.web_names@.len() <= nw,
            a.text_names@.len() <= nt,
            i <= nv,
            forall|k: int| 0 <= k < nw ==> valid_source_url((#[trigger] a.web_urls@[k])@),
            forall|k: int| 0 <= k < nt ==> trim_spec((#[trigger] a.texts@[k])@).len() > 0,
            forall|k: int|
                0 <= k < nd ==> trim_spec((#[trigger] a.drive_document_ids@[k])@).len() > 0,
            forall|k: int| 0 <= k < i ==> valid_source_url((#[trigger] a.video_urls@[k])@),
            contents@.len() == nw + nt + nd + i,
            forall|k: int|
                0 <= k < nw ==> is_web_content(
                    #[trigger] contents@[k],
                    a.web_urls@[k],
                    a.web_names@.map_values(|n: String| n@),
                    k,
                ),
            forall|k: int|
                0 <= k < nt ==> is_text_content(
                    #[trigger] contents@[nw + k],
                    a.texts@[k],
                    a.text_names@.map_values(|n: String| n@),
                    k,
                ),
            forall|k: int|
                0 <= k < nd ==> is_drive_content(
                    #[trigger] contents@[nw + nt + k],
                    a.drive_document_ids@[k],
                    a.drive_mime_types@[k],
                    a.drive_names@.map_values(|n: String| n@),
                    k,
                ),
            forall|k: int|
                0 <= k < i ==> is_video_content(
                    #[trigger] contents@[nw + nt + nd + k],
                    a.video_urls@[k],
                ),
        decreases a.video_urls@.len() - i,
    {
        match validate_url(&a.video_urls[i]) {
            Ok(_) => {},
            Err(e) => {
                proof {
                    assert(!valid_source_url(a.video_urls@[i as int]@));
                }
                return Err(e);
            },
        }
        contents.push(
            UserContent::Video { video_content: VideoContent { url: a.video_urls[i].clone() } },
        );
        i += 1;
    }

    if contents.len() == 0 {
        return Err(
            Error::Validation(
                String::from_str(
                    "at least one source must be specified (--web-url/--text/--drive-document-id/--video-url)",
                ),
            ),
        );
    }
    Ok(contents)
}

/// The message rejecting a blank upload field.
pub open spec fn blank_field_message(field: Seq<char>) -> Seq<char> {
    field + " cannot be empty"@
}

/// Validate the inputs of a source-file upload: the notebook id, file
/// name and content type must not be blank.
pub fn validate_upload_inputs(notebook_id: &String, file_name: &String, content_type: &String) -> (
    r: Result<(), Error>)
    ensures
        trim_spec(notebook_id@).len() == 0 ==> (r matches Err(e) && e matches Error::Validation(m)
            && m@ == "notebook_id cannot be empty"@),
        (trim_spec(notebook_id@).len() > 0 && trim_spec(file_name@).len() == 0) ==> (r matches Err(
            e,
        ) && e matches Error::Validation(m) && m@ == "file name cannot be empty"@),
        (trim_spec(notebook_id@).len() > 0 && trim_spec(file_name@).len() > 0 && trim_spec(
            content_type@,
        ).len() == 0) ==> (r matches Err(e) && e matches Error::Validation(m) && m@
            == "content type cannot be empty"@),
        (trim_spec(notebook_id@).len() > 0 && trim_spec(file_name@).len() > 0 && trim_spec(
            content_type@,
        ).len() > 0) ==> r is Ok,
{
    if trim_string(notebook_id.as_str()).as_str().unicode_len() == 0 {
        return Err(Error::Validation(String::from_str("notebook_id cannot be empty")));
    }
    if trim_string(file_name.as_str()).as_str().unicode_len() == 0 {
        return Err(Error::Validation(String::from_str("file name cannot be empty")));
    }
    if trim_string(content_type.as_str()).as_str().unicode_len() == 0 {
        return Err(Error::Validation(String::from_str("content type cannot be empty")));
    }
    Ok(())
}

/// Resolve an upload's content type and display name: the explicit
/// content type (trimmed) wins over the guessed one; the display name
/// (trimmed) wins over the file's own name; with neither name the upload
/// cannot proceed.
pub fn resolve_upload_meta(
    display_name: &Option<String>,
    file_name: &Option<String>,
    content_type: &Option<String>,
    guessed_type: String,
) -> (r: Result<(String, String), Error>)
    ensures
        r matches Ok(p) ==> p.1@ == (match content_type {
            Some(ref c) => if trim_spec(c@).len() > 0 {
                trim_spec(c@)
            } else {
                guessed_type@
            },
            None => guessed_type@,
        }),
        r matches Ok(p) ==> p.0@ == (match display_name {
            Some(ref d) => if trim_spec(d@).len() > 0 {
                trim_spec(d@)
            } else {
                match file_name {
                    Some(ref f) => f@,
                    None => Seq::<char>::empty(),
                }
            },
            None => match file_name {
                Some(ref f) => f@,
                None => Seq::<char>::empty(),
            },
        }),
        r is Err <==> ((match display_name {
            Some(ref d) => trim_spec(d@).len() == 0,
            None => true,
        }) && file_name is None),
        r matches Err(e) ==> (e matches Error::Validation(m) && m@
            == "could not determine file name; use --display-name"@),
{
    let resolved_type = match content_type {
        Some(c) => {
            let t = trim_string(c.as_str());
            if t.as_str().unicode_len() > 0 {
                t
            } else {
                guessed_type
            }
        },
        None => guessed_type,
    };
    let trimmed_display: Option<String> = match display_name {
        Some(d) => {
            let t = trim_string(d.as_str());
            if t.as_str().unicode_len() > 0 {
                Some(t)
            } else {
                None
            }
        },
        None => None,
    };
    let name = match trimmed_display {
        Some(d) => d,
        None => match file_name {
            Some(f) => f.clone(),
            None => {
                return Err(
                    Error::Validation(
                        String::from_str("could not determine file name; use --display-name"),
                    ),
                );
            },
        },
    };
    Ok((name, resolved_type))
}

} // verus!
