//! Request models for the business endpoints.
//!
//! These are the wire shapes the client sends; the process around the
//! library derives their serialized forms.  Only the types whose contents
//! the library's logic builds or inspects live here.

use vstd::prelude::*;

verus! {

/// A reference to one notebook.
#[derive(Debug, Clone)]
pub struct NotebookRef {
    pub notebook_id: String,
    pub name: String,
}

/// Create-notebook request.
#[derive(Debug, Clone)]
pub struct CreateNotebookRequest {
    pub title: String,
}

/// Batch delete notebooks request.  The API accepts a single notebook name
/// per call despite the batch shape; callers delete one at a time.
#[derive(Debug, Clone)]
pub struct BatchDeleteNotebooksRequest {
    pub names: Vec<String>,
}

/// Batch create sources request.
#[derive(Debug, Clone)]
pub struct BatchCreateSourcesRequest {
    pub user_contents: Vec<UserContent>,
}

/// Batch delete sources request.
#[derive(Debug, Clone)]
pub struct BatchDeleteSourcesRequest {
    pub names: Vec<String>,
}

/// One source to add to a notebook.
#[derive(Debug, Clone)]
pub enum UserContent {
    Web { web_content: WebContent },
    Text { text_content: TextContent },
    GoogleDrive { google_drive_content: GoogleDriveContent },
    Video { video_content: VideoContent },
}

/// A web page source.
#[derive(Debug, Clone)]
pub struct WebContent {
    pub url: String,
    pub source_name: Option<String>,
}

/// An inline text source.
#[derive(Debug, Clone)]
pub struct TextContent {
    pub content: String,
    pub source_name: Option<String>,
}

/// A Google Drive document source.
#[derive(Debug, Clone)]
pub struct GoogleDriveContent {
    pub document_id: String,
    pub mime_type: String,
    pub source_name: Option<String>,
}

/// A video source.
#[derive(Debug, Clone)]
pub struct VideoContent {
    pub url: String,
}

/// Share-notebook request.
#[derive(Debug, Clone)]
pub struct ShareRequest {
    pub account_and_roles: Vec<AccountRole>,
}

/// One account paired with the role it is granted.
#[derive(Debug, Clone)]
pub struct AccountRole {
    pub email: String,
    pub role: ProjectRole,
}

/// The role granted on a shared notebook.
#[derive(Debug, Clone, Copy, PartialEq, Eq, Structural)]
pub enum ProjectRole {
    ProjectRoleOwner,
    ProjectRoleWriter,
    ProjectRoleReader,
    ProjectRoleNotShared,
}

impl Default for ProjectRole {
    /// Sharing defaults to read-only access.
    fn default() -> (r: Self)
        ensures
            r == ProjectRole::ProjectRoleReader,
    {
        ProjectRole::ProjectRoleReader
    }
}

/// Audio Overview creation request.  The API accepts only an empty body;
/// the configuration fields it documents are set through the UI instead.
#[derive(Debug, Clone)]
pub struct AudioOverviewRequest {}

} // verus!
