//! The system's light or dark appearance, for applications and for the system
//! itself.

use crate::color::{ColorTheme, RgbaHexColor};
use crate::theme::ThemeApp;
use vstd::prelude::*;

verus! {

/// The appearance that a theme asks of the system.
#[derive(Debug)]
pub struct WindowsColorScheme {
    pub system_color_theme: Option<ColorTheme>,
    pub app_theme: Option<ColorTheme>,
    pub accent_color: Option<RgbaHexColor>,
}

/// A number to store under a name.
#[derive(Debug)]
pub struct RegistryValue {
    pub name: String,
    pub value: u32,
}

/// What applying a colour scheme does to the system: the key of the current
/// user's settings to create or open, the values to store under it in order,
/// and the notice to broadcast afterwards to every top-level window.
#[derive(Debug)]
pub struct ColorSchemeChange {
    pub key: String,
    pub values: Vec<RegistryValue>,
    /// The area of settings that the notice names.
    pub notice: String,
    /// How long the broadcast waits for a window, in milliseconds.
    pub timeout_ms: u32,
}

/// The key that holds the appearance.
pub open spec fn personalize_key() -> Seq<char> {
    "Software\\Microsoft\\Windows\\CurrentVersion\\Themes\\Personalize"@
}

/// The name of the value that applications read.
pub open spec fn apps_value() -> Seq<char> {
    "AppsUseLightTheme"@
}

/// The name of the value that the system reads.
pub open spec fn system_value() -> Seq<char> {
    "SystemUsesLightTheme"@
}

/// The area that the notice names.
pub open spec fn notice_area() -> Seq<char> {
    "ImmersiveColorSet"@
}

/// The names and numbers of a sequence of values.
pub open spec fn named_values(values: Seq<RegistryValue>) -> Seq<(Seq<char>, u32)> {
    Seq::new(values.len(), |i: int| (values[i].name@, values[i].value))
}

impl WindowsColorScheme {
    /// The values that this scheme stores, in order: the applications'
    /// appearance where the scheme has one, then the system's where it has one.
    pub open spec fn spec_values(self) -> Seq<(Seq<char>, u32)> {
        let apps = match self.app_theme {
            Some(theme) => seq![(apps_value(), theme.spec_flag())],
            None => Seq::empty(),
        };
        let system = match self.system_color_theme {
            Some(theme) => seq![(system_value(), theme.spec_flag())],
            None => Seq::empty(),
        };
        apps + system
    }

    /// What applying this scheme does. The key is created or opened and the
    /// notice is broadcast whatever the scheme holds; the broadcast waits five
    /// seconds at most.
    pub fn apply(&self) -> (r: ColorSchemeChange)
        ensures
            r.key@ == personalize_key(),
            named_values(r.values@) == self.spec_values(),
            r.notice@ == notice_area(),
            r.timeout_ms == 5000,
    {
        let mut values: Vec<RegistryValue> = Vec::new();
        if let Some(theme) = self.app_theme {
            values.push(RegistryValue { name: "AppsUseLightTheme".to_owned(), value: theme.flag() });
        }
        if let Some(theme) = self.system_color_theme {
            values.push(
                RegistryValue { name: "SystemUsesLightTheme".to_owned(), value: theme.flag() },
            );
        }
        assert(named_values(values@) =~= self.spec_values());
        ColorSchemeChange {
            key: "Software\\Microsoft\\Windows\\CurrentVersion\\Themes\\Personalize".to_owned(),
            values,
            notice: "ImmersiveColorSet".to_owned(),
            timeout_ms: 5000,
        }
    }

    /// The appearance settings need no locating: they are always there.
    pub fn get_app() -> (r: Option<()>)
        ensures
            r is Some,
    {
        Some(())
    }

    /// The scheme read back from the system: nothing of it is read.
    pub fn get_current() -> (r: WindowsColorScheme)
        ensures
            r.system_color_theme is None,
            r.app_theme is None,
            r.accent_color is None,
    {
        WindowsColorScheme { system_color_theme: None, app_theme: None, accent_color: None }
    }
}

impl ThemeApp for WindowsColorScheme {
    type App = ();

    open spec fn spec_name() -> Seq<char> {
        "Windows color scheme"@
    }

    fn name() -> (r: &'static str) {
        "Windows color scheme"
    }
}

} // verus!
