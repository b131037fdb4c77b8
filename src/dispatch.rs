//! Navigation commands forwarded to the content subsystem.
use vstd::prelude::*;

use crate::url::{has_script_suffix, is_script_path, Url};

verus! {

/// What the content subsystem is asked to do with a location.
#[derive(PartialEq, Eq, Debug, Clone)]
pub enum ContentCommand {
    /// Fetch and run the script at the location.
    ExecuteScript(Url),
    /// Fetch and parse the document at the location.
    ParseDocument(Url),
}

/// The command for a navigation to `url`: a script when its path ends in
/// `.js`, a document otherwise. Nothing but the path decides.
pub open spec fn command_for(url: Url) -> ContentCommand {
    if has_script_suffix(url.path@) {
        ContentCommand::ExecuteScript(url)
    } else {
        ContentCommand::ParseDocument(url)
    }
}

/// Classifies a navigation by the suffix of its path.
pub fn classify(url: Url) -> (cmd: ContentCommand)
    ensures
        cmd == command_for(url),
{
    if is_script_path(url.path.as_str()) {
        ContentCommand::ExecuteScript(url)
    } else {
        ContentCommand::ParseDocument(url)
    }
}

} // verus!
