//! The skinning tool is missing.

use crate::cli::{start_cmd, wait_for_user, InvocationView};
use crate::error::{HandledError, Remedy, RemedyView};
use vstd::prelude::*;

verus! {

/// The page that tells how to install the skinning tool.
pub const INSTALL_PAGE: &'static str = "https://spicetify.app/";

/// The skinning tool answers neither to its name nor from the user's cache
/// directory.
#[derive(Debug)]
pub struct SpicetifyNotInstalledError {}

impl HandledError for SpicetifyNotInstalledError {
    open spec fn spec_to_string(&self) -> Seq<char> {
        "Spicetify installation not found"@
    }

    open spec fn spec_item(&self) -> Seq<char> {
        "spotify theme"@
    }

    open spec fn spec_action(&self) -> Seq<char> {
        "Install spicetify for spotify theme"@
    }

    /// The page that tells how to install the tool is opened, and the user
    /// says when the tool is installed.
    open spec fn spec_handle(&self) -> RemedyView {
        RemedyView::OpenAndWait {
            command: InvocationView {
                program: "cmd"@,
                args: seq!["/C"@, "start"@, INSTALL_PAGE@],
            },
            prompt: "Waiting for "@ + "spicetify installation"@ + " press enter when done"@,
        }
    }

    fn to_string(&self) -> (r: String) {
        "Spicetify installation not found".to_owned()
    }

    fn item(&self) -> (r: &'static str) {
        "spotify theme"
    }

    fn action(&self) -> (r: &'static str) {
        "Install spicetify for spotify theme"
    }

    fn handle(&self) -> (r: Remedy) {
        Remedy::OpenAndWait {
            command: start_cmd(INSTALL_PAGE),
            prompt: wait_for_user("spicetify installation"),
        }
    }
}

} // verus!
