//! The wallpaper manager: where it is installed, where its wallpapers lie and
//! how it is told to show one.

pub mod apply;
pub mod config;
pub mod error;
pub mod locate;

use crate::cli::{start_cmd, Invocation, InvocationView};
use crate::path::{join, parent, path_join, path_parent};
use crate::text::{joined, str_eq};
use vstd::prelude::*;

verus! {

/// The store that a wallpaper comes from.
#[derive(Clone, Copy, Debug, PartialEq, Eq, Structural)]
pub enum WallpaperKind {
    Workshop,
    MyProjects,
    DefaultProjects,
}

impl WallpaperKind {
    /// The name of the store: the variant's name in lower case. Local stores
    /// keep their wallpapers in a folder of that name.
    pub open spec fn spec_name(self) -> Seq<char> {
        match self {
            WallpaperKind::Workshop => "workshop"@,
            WallpaperKind::MyProjects => "myprojects"@,
            WallpaperKind::DefaultProjects => "defaultprojects"@,
        }
    }

    /// The store that bears `name`.
    pub open spec fn spec_from_name(name: Seq<char>) -> Option<WallpaperKind> {
        if name == "workshop"@ {
            Some(WallpaperKind::Workshop)
        } else if name == "myprojects"@ {
            Some(WallpaperKind::MyProjects)
        } else if name == "defaultprojects"@ {
            Some(WallpaperKind::DefaultProjects)
        } else {
            None
        }
    }

    /// The name of the store.
    pub fn name(&self) -> (r: &'static str)
        ensures
            r@ == self.spec_name(),
    {
        match self {
            WallpaperKind::Workshop => "workshop",
            WallpaperKind::MyProjects => "myprojects",
            WallpaperKind::DefaultProjects => "defaultprojects",
        }
    }

    /// The name of the store, as an owned text.
    pub fn to_string(&self) -> (r: String)
        ensures
            r@ == self.spec_name(),
    {
        self.name().to_owned()
    }

    /// The store that bears `name`, if any does.
    pub fn from_name(name: &str) -> (r: Option<WallpaperKind>)
        ensures
            r == Self::spec_from_name(name@),
    {
        if str_eq(name, "workshop") {
            Some(WallpaperKind::Workshop)
        } else if str_eq(name, "myprojects") {
            Some(WallpaperKind::MyProjects)
        } else if str_eq(name, "defaultprojects") {
            Some(WallpaperKind::DefaultProjects)
        } else {
            None
        }
    }

    /// Each store is found again by its name.
    pub proof fn lemma_name_round_trip(kind: WallpaperKind)
        ensures
            Self::spec_from_name(kind.spec_name()) == Some(kind),
    {
        reveal_strlit("workshop");
        reveal_strlit("myprojects");
        reveal_strlit("defaultprojects");
        assert("workshop"@.len() == 8);
        assert("myprojects"@.len() == 10);
        assert("defaultprojects"@.len() == 15);
    }
}

/// A wallpaper: its identifier within the store it comes from.
#[derive(Debug)]
pub struct Wallpaper {
    pub id: String,
    pub kind: WallpaperKind,
}

/// The mathematical content of a [`Wallpaper`].
pub struct WallpaperView {
    pub id: Seq<char>,
    pub kind: WallpaperKind,
}

impl View for Wallpaper {
    type V = WallpaperView;

    open spec fn view(&self) -> WallpaperView {
        WallpaperView { id: self.id@, kind: self.kind }
    }
}

impl Clone for Wallpaper {
    fn clone(&self) -> (r: Wallpaper)
        ensures
            r == *self,
    {
        Wallpaper { id: self.id.clone(), kind: self.kind }
    }
}

/// An installation of the wallpaper manager: the folder it lies in.
#[derive(Debug)]
pub struct WallpaperEngine {
    pub path: String,
}

impl Clone for WallpaperEngine {
    fn clone(&self) -> (r: WallpaperEngine)
        ensures
            r == *self,
    {
        WallpaperEngine { path: self.path.clone() }
    }
}

/// The identifier under which Steam distributes the wallpaper manager.
pub const STEAM_GAME_ID: &'static str = "431960";

/// The page of a workshop item, as an address that Steam opens.
pub open spec fn workshop_page(wallpaper_id: Seq<char>) -> Seq<char> {
    "steam://url/CommunityFilePage/"@ + wallpaper_id
}

/// The folder of the workshop's content for the wallpaper manager, below the
/// folder `steamapps` of a library.
pub open spec fn workshop_content() -> Seq<char> {
    "workshop/content/"@ + STEAM_GAME_ID@
}

impl WallpaperEngine {
    /// The installation that lies in `path`.
    pub fn new_with_path(path: String) -> (r: WallpaperEngine)
        ensures
            r.path == path,
    {
        WallpaperEngine { path }
    }

    /// The path of the executable that controls the manager.
    pub open spec fn spec_app32_path(self) -> Seq<char> {
        path_join(self.path@, "wallpaper32.exe"@)
    }

    /// The folder two levels above the installation: `steamapps` of the
    /// library that holds it. An installation path of fewer levels has none.
    pub open spec fn spec_library(self) -> Option<Seq<char>> {
        match path_parent(self.path@) {
            Some(common) => path_parent(common),
            None => None,
        }
    }

    /// The folder that holds the workshop's wallpapers, for an installation
    /// that lies in a library.
    pub open spec fn spec_workshop_path(self) -> Seq<char>
        recommends
            self.spec_library() is Some,
    {
        path_join(self.spec_library()->0, workshop_content())
    }

    /// The project file of the workshop wallpaper `wallpaper_id`.
    pub open spec fn spec_workshop_wallpaper_path(self, wallpaper_id: Seq<char>) -> Seq<char>
        recommends
            self.spec_library() is Some,
    {
        path_join(path_join(self.spec_workshop_path(), wallpaper_id), "project.json"@)
    }

    /// The project file of the wallpaper `wallpaper_id` in the local store
    /// whose folder is `dir`.
    pub open spec fn spec_local_wallpaper_path(
        self,
        wallpaper_id: Seq<char>,
        dir: Seq<char>,
    ) -> Seq<char> {
        path_join(
            path_join(path_join(path_join(self.path@, "projects"@), dir), wallpaper_id),
            "project.json"@,
        )
    }

    /// The project file of `wallpaper`: in the workshop's content for a
    /// workshop wallpaper, else in the local store named after its kind.
    pub open spec fn spec_wallpaper_path(self, wallpaper: WallpaperView) -> Seq<char>
        recommends
            wallpaper.kind == WallpaperKind::Workshop ==> self.spec_library() is Some,
    {
        match wallpaper.kind {
            WallpaperKind::Workshop => self.spec_workshop_wallpaper_path(wallpaper.id),
            other => self.spec_local_wallpaper_path(wallpaper.id, other.spec_name()),
        }
    }

    /// The command that controls the manager, before what it is told to do.
    pub open spec fn spec_invoke_command(self) -> InvocationView {
        InvocationView { program: self.spec_app32_path(), args: seq!["-control"@] }
    }

    /// The command that shows the wallpaper whose project file is `file` on
    /// the monitor numbered `monitor`.
    pub open spec fn spec_open_wallpaper(self, file: Seq<char>, monitor: u32) -> InvocationView {
        InvocationView {
            program: self.spec_app32_path(),
            args: seq![
                "-control"@,
                "openWallpaper"@,
                "-file"@,
                file,
                "-monitor"@,
                crate::text::decimal_of(monitor as nat),
            ],
        }
    }

    /// The path of the executable that controls the manager.
    pub fn get_app32_path(&self) -> (r: String)
        ensures
            r@ == self.spec_app32_path(),
    {
        join(self.path.as_str(), "wallpaper32.exe")
    }

    /// Whether the installation lies in a library, two levels below its
    /// folder `steamapps`.
    pub fn has_library(&self) -> (r: bool)
        ensures
            r == self.spec_library() is Some,
    {
        match parent(self.path.as_str()) {
            Some(common) => parent(common.as_str()).is_some(),
            None => false,
        }
    }

    /// The folder that holds the workshop's wallpapers.
    pub fn get_workshop_path(&self) -> (r: String)
        requires
            self.spec_library() is Some,
        ensures
            r@ == self.spec_workshop_path(),
    {
        let common = parent(self.path.as_str()).unwrap();
        let library = parent(common.as_str()).unwrap();
        let content = joined("workshop/content/", STEAM_GAME_ID);
        join(library.as_str(), content.as_str())
    }

    /// The folder that holds the workshop's wallpapers, where the installation
    /// lies in a library.
    pub fn find_workshop_path(&self) -> (r: Option<String>)
        ensures
            r is Some <==> self.spec_library() is Some,
            r matches Some(folder) ==> folder@ == self.spec_workshop_path(),
    {
        if self.has_library() {
            Some(self.get_workshop_path())
        } else {
            None
        }
    }

    /// The project file of the workshop wallpaper `wallpaper_id`.
    pub fn get_workshop_wallpaper_path(&self, wallpaper_id: &str) -> (r: String)
        requires
            self.spec_library() is Some,
        ensures
            r@ == self.spec_workshop_wallpaper_path(wallpaper_id@),
    {
        let folder = join(self.get_workshop_path().as_str(), wallpaper_id);
        join(folder.as_str(), "project.json")
    }

    /// The project file of the wallpaper `wallpaper_id` in the local store
    /// whose folder is `dir`.
    pub fn get_local_wallpaper_path(&self, wallpaper_id: &str, dir: &str) -> (r: String)
        ensures
            r@ == self.spec_local_wallpaper_path(wallpaper_id@, dir@),
    {
        let projects = join(self.path.as_str(), "projects");
        let store = join(projects.as_str(), dir);
        let folder = join(store.as_str(), wallpaper_id);
        join(folder.as_str(), "project.json")
    }

    /// The command that controls the manager, before what it is told to do.
    pub fn invoke_command(&self) -> (r: Invocation)
        ensures
            r@ == self.spec_invoke_command(),
    {
        let r = Invocation::new(self.get_app32_path()).arg("-control");
        assert(r@.args =~= seq!["-control"@]);
        r
    }

    /// The command that has Steam show the workshop page of a wallpaper.
    pub fn open_workshop_page_for_wallpaper(&self, wallpaper_id: &str) -> (r: Invocation)
        ensures
            r@ == (InvocationView {
                program: "cmd"@,
                args: seq!["/C"@, "start"@, workshop_page(wallpaper_id@)],
            }),
    {
        let page = joined("steam://url/CommunityFilePage/", wallpaper_id);
        start_cmd(page.as_str())
    }
}

} // verus!
