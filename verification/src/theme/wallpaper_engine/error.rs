//! The failures of the wallpaper manager, and how each is classed: as one
//! that the user can mend or as one that ends the run.

use crate::cli::{wait_for_user, InvocationView};
use crate::error::{Error as StepError, HandledError, HandledErrorKind, Remedy, RemedyView, UnhandledError};
use crate::theme::wallpaper_engine::{workshop_page, Wallpaper, WallpaperEngine};
use crate::text::joined;
use crate::vdf::VdfError;
use std::io::Error as IoError;
use vstd::prelude::*;

verus! {

/// A failure met while the wallpaper manager was located or told to show a
/// wallpaper, before it is classed.
#[derive(Debug)]
pub enum Error {
    /// No library holds the wallpaper manager, or the manager did not do as
    /// it was told.
    WallpaperEngineNotInstalled,
    /// The project file of a wallpaper is missing from an installation.
    WallpaperNotFound(Wallpaper, WallpaperEngine),
    /// Steam has left no trace of where it is installed.
    SteamNotInstalled,
    /// The library manifest lacks what it is expected to hold.
    VdfError(VdfError),
    /// The system refused to read or start something.
    IOError(IoError),
}

impl Error {
    /// How a failure is classed. A missing installation and a missing
    /// wallpaper can be mended by the user; everything else ends the run.
    pub open spec fn classify(self) -> StepError {
        match self {
            Error::SteamNotInstalled | Error::WallpaperEngineNotInstalled => {
                StepError::HandledError(
                    HandledErrorKind::InstallationNotFound(InstallationNotFoundError()),
                )
            },
            Error::WallpaperNotFound(wallpaper, engine) => StepError::HandledError(
                HandledErrorKind::WallpaperNotFound(WallpaperNotFoundError(wallpaper, engine)),
            ),
            Error::IOError(e) => StepError::UnhandledError(UnhandledError::IOError(e)),
            Error::VdfError(e) => StepError::UnhandledError(UnhandledError::VdfError(e)),
        }
    }
}

impl From<Error> for StepError {
    fn from(value: Error) -> (r: StepError) {
        match value {
            Error::SteamNotInstalled | Error::WallpaperEngineNotInstalled => {
                StepError::HandledError(
                    HandledErrorKind::InstallationNotFound(InstallationNotFoundError()),
                )
            },
            Error::WallpaperNotFound(wallpaper, engine) => StepError::HandledError(
                HandledErrorKind::WallpaperNotFound(WallpaperNotFoundError(wallpaper, engine)),
            ),
            Error::IOError(e) => StepError::UnhandledError(UnhandledError::IOError(e)),
            Error::VdfError(e) => StepError::UnhandledError(UnhandledError::VdfError(e)),
        }
    }
}

impl vstd::std_specs::convert::FromSpecImpl<Error> for StepError {
    open spec fn obeys_from_spec() -> bool {
        true
    }

    open spec fn from_spec(value: Error) -> StepError {
        value.classify()
    }
}

/// The project file of a wallpaper is missing from an installation.
#[derive(Debug)]
pub struct WallpaperNotFoundError(pub Wallpaper, pub WallpaperEngine);

impl HandledError for WallpaperNotFoundError {
    open spec fn spec_to_string(&self) -> Seq<char> {
        "Wallpaper "@ + self.0.id@ + " from "@ + self.0.kind.spec_name() + " not found"@
    }

    open spec fn spec_item(&self) -> Seq<char> {
        "this wallpaper"@
    }

    open spec fn spec_action(&self) -> Seq<char> {
        "Install it from workshop"@
    }

    /// The wallpaper's workshop page is opened, and the user says when the
    /// wallpaper is installed.
    open spec fn spec_handle(&self) -> RemedyView {
        RemedyView::OpenAndWait {
            command: InvocationView {
                program: "cmd"@,
                args: seq!["/C"@, "start"@, workshop_page(self.0.id@)],
            },
            prompt: "Waiting for "@ + "wallpaper installation"@ + " press enter when done"@,
        }
    }

    fn to_string(&self) -> (r: String) {
        let mut r = joined("Wallpaper ", self.0.id.as_str());
        r.append(" from ");
        r.append(self.0.kind.name());
        r.append(" not found");
        r
    }

    fn item(&self) -> (r: &'static str) {
        "this wallpaper"
    }

    fn action(&self) -> (r: &'static str) {
        "Install it from workshop"
    }

    fn handle(&self) -> (r: Remedy) {
        Remedy::OpenAndWait {
            command: self.1.open_workshop_page_for_wallpaper(self.0.id.as_str()),
            prompt: wait_for_user("wallpaper installation"),
        }
    }
}

/// Neither Steam nor the wallpaper manager was found.
#[derive(Debug)]
pub struct InstallationNotFoundError();

impl HandledError for InstallationNotFoundError {
    open spec fn spec_to_string(&self) -> Seq<char> {
        "Couldn't find steam or wallpaper engine installation on your system"@
    }

    open spec fn spec_item(&self) -> Seq<char> {
        "wallpaper engine step"@
    }

    open spec fn spec_action(&self) -> Seq<char> {
        "Set wallpaper engine's path"@
    }

    /// Nothing is known yet that mends a missing installation.
    open spec fn spec_handle(&self) -> RemedyView {
        RemedyView::Unavailable
    }

    fn to_string(&self) -> (r: String) {
        "Couldn't find steam or wallpaper engine installation on your system".to_owned()
    }

    fn item(&self) -> (r: &'static str) {
        "wallpaper engine step"
    }

    fn action(&self) -> (r: &'static str) {
        "Set wallpaper engine's path"
    }

    fn handle(&self) -> (r: Remedy) {
        Remedy::Unavailable
    }
}

} // verus!
