//! The `share` command surface.

use vstd::prelude::*;

use crate::models::{AccountRole, ProjectRole};

verus! {

/// The share subcommands.
pub enum Command {
    Add(AddArgs),
}

/// Arguments of `share add`.
pub struct AddArgs {
    pub notebook_id: String,
    pub emails: Vec<String>,
    pub role: ShareRole,
}

/// The role named on the command line.
#[derive(Debug, Clone, Copy, PartialEq, Eq, Structural)]
pub enum ShareRole {
    Owner,
    Writer,
    Reader,
    NotShared,
}

/// The project role each command-line role maps to.
pub open spec fn project_role_of_share(role: ShareRole) -> ProjectRole {
    match role {
        ShareRole::Owner => ProjectRole::ProjectRoleOwner,
        ShareRole::Writer => ProjectRole::ProjectRoleWriter,
        ShareRole::Reader => ProjectRole::ProjectRoleReader,
        ShareRole::NotShared => ProjectRole::ProjectRoleNotShared,
    }
}

impl ShareRole {
    /// Pair an email with this role.
    pub fn account_role(&self, email: String) -> (r: AccountRole)
        ensures
            r.email == email,
            r.role == project_role_of_share(*self),
    {
        AccountRole {
            email,
            role: match self {
                ShareRole::Owner => ProjectRole::ProjectRoleOwner,
                ShareRole::Writer => ProjectRole::ProjectRoleWriter,
                ShareRole::Reader => ProjectRole::ProjectRoleReader,
                ShareRole::NotShared => ProjectRole::ProjectRoleNotShared,
            },
        }
    }
}

/// Pair every email with the selected role, in order.
pub fn account_roles_for(emails: &Vec<String>, role: ShareRole) -> (r: Vec<AccountRole>)
    ensures
        r@.len() == emails@.len(),
        forall|i: int|
            0 <= i < emails@.len() ==> (#[trigger] r@[i]).email == emails@[i] && r@[i].role
                == project_role_of_share(role),
{
    let mut r: Vec<AccountRole> = Vec::new();
    let mut i: usize = 0;
    while i < emails.len()
        invariant
            i <= emails@.len(),
            r@.len() == i,
            forall|k: int|
                0 <= k < i ==> (#[trigger] r@[k]).email == emails@[k] && r@[k].role
                    == project_role_of_share(role),
        decreases emails@.len() - i,
    {
        r.push(role.account_role(emails[i].clone()));
        i += 1;
    }
    r
}

} // verus!
