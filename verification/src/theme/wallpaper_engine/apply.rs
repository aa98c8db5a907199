//! Showing wallpapers: what a theme asks of the wallpaper manager, the steps
//! that this takes, and what each step comes to.

use crate::cli::Invocation;
use crate::text::{decimal_of, joined, u32_to_string};
use crate::theme::wallpaper_engine::error::Error;
use crate::theme::wallpaper_engine::{Wallpaper, WallpaperEngine, WallpaperKind};
use crate::theme::ThemeApp;
use vstd::prelude::*;

verus! {

/// A playlist on a monitor.
#[derive(Debug)]
pub struct ThemeWEPlaylist {
    pub monitor: u32,
}

/// A wallpaper on a monitor.
#[derive(Debug)]
pub struct ThemeWEWallpaper {
    pub wallpaper: Wallpaper,
    pub monitor: u32,
}

/// What a theme asks of the wallpaper manager.
#[derive(Debug)]
pub struct ThemeWallpaperEngine {
    pub wallpapers: Option<Vec<ThemeWEWallpaper>>,
    pub playlist: Option<Vec<ThemeWEPlaylist>>,
}

/// What the caller saw when it went to show a wallpaper.
#[derive(Clone, Copy, Debug, PartialEq, Eq, Structural)]
pub enum Shown {
    /// The wallpaper's project file is not there; the manager was not called.
    FileMissing,
    /// The manager was called and ended, with success or without.
    Exited { success: bool },
}

/// One wallpaper to show: the file that must be there, the command that shows
/// it, and the wallpaper and installation that they were made for.
#[derive(Debug)]
pub struct SetWallpaper {
    pub file: String,
    pub command: Invocation,
    pub wallpaper: Wallpaper,
    pub engine: WallpaperEngine,
}

/// A step of applying a theme: a wallpaper to show, and what to say once it
/// is shown. A wallpaper from the workshop cannot be shown by an installation
/// that lies in no library: its step has no action.
#[derive(Debug)]
pub struct WallpaperStep {
    pub action: Option<SetWallpaper>,
    pub success_message: String,
}

impl WallpaperStep {
    /// Whether this is the step that shows `assignment` in the installation
    /// `app`.
    pub open spec fn shows(self, app: WallpaperEngine, assignment: ThemeWEWallpaper) -> bool {
        &&& self.action is Some <==> (assignment.wallpaper.kind == WallpaperKind::Workshop
            ==> app.spec_library() is Some)
        &&& self.action matches Some(action) ==> action.shows(
            app,
            assignment.wallpaper,
            assignment.monitor,
        )
        &&& self.success_message@ == assignment.spec_success_message()
    }
}

impl ThemeWEWallpaper {
    /// What is said once the wallpaper is shown.
    pub open spec fn spec_success_message(self) -> Seq<char> {
        "Applied wallpaper "@ + self.wallpaper.id@ + " from "@
            + self.wallpaper.kind.spec_name() + " on monitor "@ + decimal_of(self.monitor as nat)
    }

    /// What is said once the wallpaper is shown.
    pub fn success_message(&self) -> (r: String)
        ensures
            r@ == self.spec_success_message(),
    {
        let mut r = joined("Applied wallpaper ", self.wallpaper.id.as_str());
        r.append(" from ");
        r.append(self.wallpaper.kind.name());
        r.append(" on monitor ");
        r.append(u32_to_string(self.monitor).as_str());
        r
    }
}

impl SetWallpaper {
    /// Whether this is what showing `wallpaper` on `monitor` takes in the
    /// installation `engine`.
    pub open spec fn shows(self, engine: WallpaperEngine, wallpaper: Wallpaper, monitor: u32) -> bool {
        &&& self.file@ == engine.spec_wallpaper_path(wallpaper@)
        &&& self.command@ == engine.spec_open_wallpaper(self.file@, monitor)
        &&& self.wallpaper == wallpaper
        &&& self.engine == engine
    }

    /// The command to run, once the caller has looked for the project file:
    /// there is none where the file is missing, which is a wallpaper not
    /// found, in this installation.
    pub fn begin(&self, file_found: bool) -> (r: Result<&Invocation, Error>)
        ensures
            r == if file_found {
                Ok::<&Invocation, Error>(&self.command)
            } else {
                Err(Error::WallpaperNotFound(self.wallpaper, self.engine))
            },
    {
        if file_found {
            Ok(&self.command)
        } else {
            Err(Error::WallpaperNotFound(self.wallpaper.clone(), self.engine.clone()))
        }
    }

    /// What showing the wallpaper came to. A missing project file is a
    /// wallpaper not found, in this installation; a manager that ended
    /// without success counts as not installed.
    pub fn conclude(&self, seen: Shown) -> (r: Result<(), Error>)
        ensures
            r == match seen {
                Shown::FileMissing => Err::<(), Error>(
                    Error::WallpaperNotFound(self.wallpaper, self.engine),
                ),
                Shown::Exited { success: false } => Err(Error::WallpaperEngineNotInstalled),
                Shown::Exited { success: true } => Ok(()),
            },
    {
        match seen {
            Shown::FileMissing => Err(
                Error::WallpaperNotFound(self.wallpaper.clone(), self.engine.clone()),
            ),
            Shown::Exited { success } => if success {
                Ok(())
            } else {
                Err(Error::WallpaperEngineNotInstalled)
            },
        }
    }
}

impl WallpaperEngine {
    /// The project file of `wallpaper`.
    pub fn get_wallpaper_path(&self, wallpaper: &Wallpaper) -> (r: String)
        requires
            wallpaper.kind == WallpaperKind::Workshop ==> self.spec_library() is Some,
        ensures
            r@ == self.spec_wallpaper_path(wallpaper@),
    {
        match wallpaper.kind {
            WallpaperKind::Workshop => self.get_workshop_wallpaper_path(wallpaper.id.as_str()),
            other => self.get_local_wallpaper_path(wallpaper.id.as_str(), other.name()),
        }
    }

    /// The command that shows the wallpaper whose project file is `file` on
    /// the monitor numbered `monitor`.
    pub fn open_wallpaper(&self, file: &str, monitor: u32) -> (r: Invocation)
        ensures
            r@ == self.spec_open_wallpaper(file@, monitor),
    {
        let number = u32_to_string(monitor);
        let r = self.invoke_command().arg("openWallpaper").arg("-file").arg(file).arg(
            "-monitor",
        ).arg(number.as_str());
        assert(r@.args =~= self.spec_open_wallpaper(file@, monitor).args);
        r
    }

    /// What showing `wallpaper` on the monitor numbered `monitor` takes: the
    /// file to look for and the command to run where it is there.
    pub fn set_wallpaper(&self, wallpaper: &Wallpaper, monitor: u32) -> (r: SetWallpaper)
        requires
            wallpaper.kind == WallpaperKind::Workshop ==> self.spec_library() is Some,
        ensures
            r.shows(*self, *wallpaper, monitor),
    {
        let file = self.get_wallpaper_path(wallpaper);
        let command = self.open_wallpaper(file.as_str(), monitor);
        SetWallpaper { file, command, wallpaper: wallpaper.clone(), engine: self.clone() }
    }

    /// What showing `wallpaper` takes, where the installation has what the
    /// wallpaper's store needs: a workshop wallpaper needs an installation
    /// that lies in a library.
    pub fn try_set_wallpaper(&self, wallpaper: &Wallpaper, monitor: u32) -> (r: Option<
        SetWallpaper,
    >)
        ensures
            r is Some <==> (wallpaper.kind == WallpaperKind::Workshop ==> self.spec_library()
                is Some),
            r matches Some(action) ==> action.shows(*self, *wallpaper, monitor),
    {
        let workshop = match wallpaper.kind {
            WallpaperKind::Workshop => true,
            _ => false,
        };
        if !workshop || self.has_library() {
            Some(self.set_wallpaper(wallpaper, monitor))
        } else {
            None
        }
    }
}

impl ThemeWallpaperEngine {
    /// The wallpapers that the theme assigns, in order.
    pub open spec fn assignments(self) -> Seq<ThemeWEWallpaper> {
        match self.wallpapers {
            Some(wallpapers) => wallpapers@,
            None => Seq::empty(),
        }
    }

    /// Whether `steps` are the steps of this theme in the installation `app`:
    /// one for each wallpaper, in the theme's order.
    pub open spec fn applies_as(self, app: WallpaperEngine, steps: Seq<WallpaperStep>) -> bool {
        &&& steps.len() == self.assignments().len()
        &&& forall|i: int|
            0 <= i < steps.len() ==> (#[trigger] steps[i]).shows(app, self.assignments()[i])
    }

    /// The steps that applying the theme takes in the installation `app`: one
    /// for each wallpaper, in the theme's order. Each step stands for itself:
    /// one that fails or is skipped leaves the others as they are.
    pub fn apply(&self, app: &WallpaperEngine) -> (r: Vec<WallpaperStep>)
        ensures
            self.applies_as(*app, r@),
    {
        let mut steps: Vec<WallpaperStep> = Vec::new();
        if let Some(wallpapers) = &self.wallpapers {
            let mut i: usize = 0;
            while i < wallpapers.len()
                invariant
                    i <= wallpapers.len(),
                    self.assignments() == wallpapers@,
                    steps@.len() == i,
                    forall|j: int| 0 <= j < i ==> (#[trigger] steps@[j]).shows(*app, wallpapers@[j]),
                decreases wallpapers.len() - i,
            {
                let assignment = &wallpapers[i];
                let action = app.try_set_wallpaper(&assignment.wallpaper, assignment.monitor);
                let success_message = assignment.success_message();
                steps.push(WallpaperStep { action, success_message });
                i += 1;
            }
        }
        steps
    }

    /// The installation to apply the theme to, from what locating it gave:
    /// the failure is classed for the step that located it.
    pub fn get_app(located: Result<WallpaperEngine, Error>) -> (r: Result<
        WallpaperEngine,
        crate::error::Error,
    >)
        ensures
            r == match located {
                Ok(app) => Ok::<WallpaperEngine, crate::error::Error>(app),
                Err(e) => Err(e.classify()),
            },
    {
        match located {
            Ok(app) => Ok(app),
            Err(e) => Err(crate::error::Error::from(e)),
        }
    }
}

impl ThemeApp for ThemeWallpaperEngine {
    type App = WallpaperEngine;

    open spec fn spec_name() -> Seq<char> {
        "Wallpaper engine"@
    }

    fn name() -> (r: &'static str) {
        "Wallpaper engine"
    }
}

} // verus!
