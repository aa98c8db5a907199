//! The settings of the system itself.

pub mod color_scheme;
pub mod wallpaper;

use crate::theme::windows::color_scheme::{ColorSchemeChange, WindowsColorScheme};
use crate::theme::windows::wallpaper::WindowsWallpaper;
use crate::theme::ThemeApp;
use vstd::prelude::*;

verus! {

/// What a theme asks of the system: a desktop background and an appearance.
#[derive(Debug)]
pub struct ThemeWindows {
    pub wallpaper: Option<WindowsWallpaper>,
    pub color_scheme: Option<WindowsColorScheme>,
}

impl ThemeWindows {
    /// What applying these settings does: the change of appearance where one
    /// is asked for. The desktop background is held in the theme and not
    /// applied.
    pub fn apply(&self) -> (r: Option<ColorSchemeChange>)
        ensures
            r is Some <==> self.color_scheme is Some,
            r matches Some(change) ==> {
                &&& change.key@ == color_scheme::personalize_key()
                &&& color_scheme::named_values(change.values@)
                    == self.color_scheme->0.spec_values()
                &&& change.notice@ == color_scheme::notice_area()
                &&& change.timeout_ms == 5000
            },
    {
        match &self.color_scheme {
            Some(scheme) => Some(scheme.apply()),
            None => None,
        }
    }

    /// The system's settings need no locating: they are always there.
    pub fn get_app() -> (r: Option<()>)
        ensures
            r is Some,
    {
        Some(())
    }

    /// The settings read back from the system: nothing of them is read.
    pub fn get_current() -> (r: ThemeWindows)
        ensures
            r.wallpaper is None,
            r.color_scheme is None,
    {
        ThemeWindows { wallpaper: None, color_scheme: None }
    }
}

impl ThemeApp for ThemeWindows {
    type App = ();

    open spec fn spec_name() -> Seq<char> {
        "Windows"@
    }

    fn name() -> (r: &'static str) {
        "Windows"
    }
}

} // verus!
