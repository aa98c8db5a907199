//! Finding the wallpaper manager among the libraries of a Steam installation.
//!
//! Steam says where it is installed; its library manifest lists the libraries
//! and, for each, the applications it holds. The caller reads the system's
//! settings and the manifest; what follows from them is decided here.

use crate::text::joined;
use crate::theme::wallpaper_engine::error::Error;
use crate::theme::wallpaper_engine::{WallpaperEngine, STEAM_GAME_ID};
use crate::vdf::{VdfAttribute, VdfError, VdfValue};
use std::io::Error as IoError;
use vstd::prelude::*;

verus! {

/// The key of the system's settings under which Steam says where it is.
pub const STEAM_KEY: &'static str = "SOFTWARE\\WOW6432Node\\Valve\\Steam";

/// The name of the value that holds Steam's folder.
pub const STEAM_INSTALL_VALUE: &'static str = "InstallPath";

/// The folder of the wallpaper manager below `steamapps/common`.
pub const APP_FOLDER: &'static str = "wallpaper_engine";

/// What came of reading Steam's folder from the system's settings.
#[derive(Debug)]
pub enum RegistryRead {
    /// The key could not be opened.
    KeyMissing,
    /// The key was opened and holds no such value.
    ValueMissing,
    /// The key was opened and holds the value, which the system refused to
    /// hand over.
    ValueUnreadable(IoError),
    /// The value.
    Value(String),
}

/// What a library manifest says of an application.
pub enum Resolution {
    /// The first library that holds the application, by its folder.
    Library(Seq<char>),
    /// A library met before any that holds the application lacks the key
    /// (first) in the block of the given name (second).
    Malformed(Seq<char>, Seq<char>),
    /// No library holds the application.
    Absent,
}

/// What one library says of the application `app_id`: where it is, that the
/// library is malformed, or nothing. A library whose `path` is no text, or
/// whose `apps` is no block, says nothing; so does one that does not hold
/// the application. The path is looked at before the applications.
pub open spec fn resolve_in_library(library: VdfAttribute, app_id: Seq<char>) -> Option<
    Resolution,
> {
    match library.child("path"@) {
        None => Some(Resolution::Malformed("path"@, library.key@)),
        Some(path) => match path.value {
            VdfValue::Block(_) => None,
            VdfValue::String(folder) => match library.child("apps"@) {
                None => Some(Resolution::Malformed("apps"@, library.key@)),
                Some(apps) => match apps.value {
                    VdfValue::String(_) => None,
                    VdfValue::Block(_) => if apps.child(app_id) is Some {
                        Some(Resolution::Library(folder@))
                    } else {
                        None
                    },
                },
            },
        },
    }
}

/// What the libraries say of the application `app_id`, taken in order: the
/// first that says anything decides.
pub open spec fn resolve(libraries: Seq<VdfAttribute>, app_id: Seq<char>) -> Resolution
    decreases libraries.len(),
{
    if libraries.len() == 0 {
        Resolution::Absent
    } else {
        match resolve_in_library(libraries.first(), app_id) {
            Some(found) => found,
            None => resolve(libraries.drop_first(), app_id),
        }
    }
}

/// What a manifest says of the application `app_id`. A manifest whose root is
/// no block is malformed: it lacks its libraries.
pub open spec fn resolve_manifest(data: VdfAttribute, app_id: Seq<char>) -> Resolution {
    match data.value {
        VdfValue::String(_) => Resolution::Malformed("libraryfolders"@, ""@),
        VdfValue::Block(libraries) => resolve(libraries@, app_id),
    }
}

/// The folder of an application in the library whose folder is `library`.
pub open spec fn install_path(library: Seq<char>, folder: Seq<char>) -> Seq<char> {
    library + "/steamapps/common/"@ + folder
}

/// Whether `r` says what the manifest says, for an application whose folder
/// below `steamapps/common` is `folder`.
pub open spec fn resolved_as(found: Resolution, folder: Seq<char>, r: Result<String, Error>) -> bool {
    match found {
        Resolution::Library(library) => r matches Ok(path) && path@ == install_path(
            library,
            folder,
        ),
        Resolution::Malformed(key, block) => r matches Err(
            Error::VdfError(VdfError::ValueNotFound(wanted, within)),
        ) && wanted@ == key && within@ == block,
        Resolution::Absent => r matches Err(Error::WallpaperEngineNotInstalled),
    }
}

/// A library that says nothing is passed over.
proof fn lemma_resolve_skips(libraries: Seq<VdfAttribute>, i: int, app_id: Seq<char>)
    requires
        0 <= i < libraries.len(),
        resolve_in_library(libraries[i], app_id) is None,
    ensures
        resolve(libraries.skip(i), app_id) == resolve(libraries.skip(i + 1), app_id),
{
    let rest = libraries.skip(i);
    assert(rest.first() == libraries[i]);
    assert(rest.drop_first() =~= libraries.skip(i + 1));
}

/// A library that says something decides.
proof fn lemma_resolve_decides(libraries: Seq<VdfAttribute>, i: int, app_id: Seq<char>)
    requires
        0 <= i < libraries.len(),
        resolve_in_library(libraries[i], app_id) is Some,
    ensures
        resolve(libraries.skip(i), app_id) == resolve_in_library(libraries[i], app_id)->0,
{
    let rest = libraries.skip(i);
    assert(rest.first() == libraries[i]);
}

/// The folder of the application `app_id` according to a library manifest:
/// `<library>/steamapps/common/<folder>` for the first library that holds it.
///
/// A manifest that lacks what it is expected to hold gives a `VdfError` that
/// names what is missing; one in which no library holds the application gives
/// `WallpaperEngineNotInstalled`.
pub fn resolve_install_path(data: &VdfAttribute, app_id: &str, folder: &str) -> (r: Result<
    String,
    Error,
>)
    ensures
        resolved_as(resolve_manifest(*data, app_id@), folder@, r),
{
    let libraries = match &data.value {
        VdfValue::Block(libraries) => libraries,
        VdfValue::String(_) => {
            return Err(
                Error::VdfError(
                    VdfError::ValueNotFound("libraryfolders".to_owned(), "".to_owned()),
                ),
            );
        },
    };
    let mut i: usize = 0;
    assert(libraries@.skip(0) =~= libraries@);
    while i < libraries.len()
        invariant
            i <= libraries.len(),
            resolve_manifest(*data, app_id@) == resolve(libraries@.skip(i as int), app_id@),
        decreases libraries.len() - i,
    {
        let library = &libraries[i];
        let path = match library.get_string_value("path") {
            Ok(path) => path,
            Err(e) => {
                proof {
                    lemma_resolve_decides(libraries@, i as int, app_id@);
                }
                return Err(Error::VdfError(e));
            },
        };
        if let VdfValue::String(location) = &path.value {
            let apps = match library.get_string_value("apps") {
                Ok(apps) => apps,
                Err(e) => {
                    proof {
                        lemma_resolve_decides(libraries@, i as int, app_id@);
                    }
                    return Err(Error::VdfError(e));
                },
            };
            if let VdfValue::Block(_) = &apps.value {
                if apps.contains_key(app_id) {
                    proof {
                        lemma_resolve_decides(libraries@, i as int, app_id@);
                    }
                    let mut found = joined(location.as_str(), "/steamapps/common/");
                    found.append(folder);
                    return Ok(found);
                }
            }
        }
        proof {
            lemma_resolve_skips(libraries@, i as int, app_id@);
        }
        i += 1;
    }
    Err(Error::WallpaperEngineNotInstalled)
}

impl WallpaperEngine {
    /// Steam's folder, from what the system's settings gave. A key that
    /// cannot be opened, and one that lacks the value, mean that Steam is not
    /// installed; a value that the system refuses to hand over ends the run.
    pub fn get_steam_path(read: RegistryRead) -> (r: Result<String, Error>)
        ensures
            r == match read {
                RegistryRead::KeyMissing | RegistryRead::ValueMissing => Err::<String, Error>(
                    Error::WallpaperEngineNotInstalled,
                ),
                RegistryRead::ValueUnreadable(e) => Err(Error::IOError(e)),
                RegistryRead::Value(path) => Ok(path),
            },
    {
        match read {
            RegistryRead::KeyMissing => Err(Error::WallpaperEngineNotInstalled),
            RegistryRead::ValueMissing => Err(Error::WallpaperEngineNotInstalled),
            RegistryRead::ValueUnreadable(e) => Err(Error::IOError(e)),
            RegistryRead::Value(path) => Ok(path),
        }
    }

    /// Where the library manifest of a Steam installation lies.
    pub fn get_manifest_path(steam_path: &str) -> (r: String)
        ensures
            r@ == steam_path@ + "/steamapps/libraryfolders.vdf"@,
    {
        joined(steam_path, "/steamapps/libraryfolders.vdf")
    }

    /// The folder of the wallpaper manager according to a library manifest.
    pub fn get_wallpaper_engine_path(data: &VdfAttribute) -> (r: Result<String, Error>)
        ensures
            resolved_as(resolve_manifest(*data, STEAM_GAME_ID@), APP_FOLDER@, r),
    {
        resolve_install_path(data, STEAM_GAME_ID, APP_FOLDER)
    }

    /// The installation of the wallpaper manager that a library manifest
    /// leads to.
    pub fn new(data: &VdfAttribute) -> (r: Result<WallpaperEngine, Error>)
        ensures
            match resolve_manifest(*data, STEAM_GAME_ID@) {
                Resolution::Library(library) => r matches Ok(engine) && engine.path@
                    == install_path(library, APP_FOLDER@),
                Resolution::Malformed(key, block) => r matches Err(
                    Error::VdfError(VdfError::ValueNotFound(wanted, within)),
                ) && wanted@ == key && within@ == block,
                Resolution::Absent => r matches Err(Error::WallpaperEngineNotInstalled),
            },
    {
        match Self::get_wallpaper_engine_path(data) {
            Ok(path) => Ok(Self::new_with_path(path)),
            Err(e) => Err(e),
        }
    }
}

} // verus!
