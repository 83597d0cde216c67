//! The `audio` command surface.

use vstd::prelude::*;

verus! {

/// The audio-overview subcommands.
pub enum Command {
    Create(CreateArgs),
    Delete(DeleteArgs),
}

/// Arguments of `audio create`.
pub struct CreateArgs {
    pub notebook_id: String,
}

/// Arguments of `audio delete`.
pub struct DeleteArgs {
    pub notebook_id: String,
}

} // verus!
