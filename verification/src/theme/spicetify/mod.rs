//! The skinning tool of the music player: where it is installed, how it is
//! told to use a skin, and how a skin is unpacked from an archive.

pub mod archive;
pub mod error;
pub mod install;

use crate::cli::{Invocation, InvocationView};
use crate::error::{HandledError, Remedy, RemedyView};
use crate::path::{join, path_join};
use crate::text::joined;
use vstd::prelude::*;

verus! {

/// The name under which the tool is called where it is installed for the
/// whole system, and the name of its folder in a user's cache directory.
pub const APP_NAME: &'static str = "spicetify";

/// The name of the tool's executable in a user's cache directory.
pub const EXE_NAME: &'static str = "spicetify.exe";

/// The colour scheme that a skin gets where the theme names none.
pub const DEFAULT_COLOR_SCHEME: &'static str = "Spotify";

/// An installation of the skinning tool: whether it answers to its bare name,
/// and the folder that holds its skins.
#[derive(Debug)]
pub struct Spicetify {
    pub is_global: bool,
    pub path: String,
}

/// The mathematical content of a [`Spicetify`].
pub struct SpicetifyView {
    pub is_global: bool,
    pub path: Seq<char>,
}

impl View for Spicetify {
    type V = SpicetifyView;

    open spec fn view(&self) -> SpicetifyView {
        SpicetifyView { is_global: self.is_global, path: self.path@ }
    }
}

impl Clone for Spicetify {
    fn clone(&self) -> (r: Spicetify)
        ensures
            r == *self,
    {
        Spicetify { is_global: self.is_global, path: self.path.clone() }
    }
}

/// The text that an optional string holds.
pub open spec fn option_text(value: Option<String>) -> Option<Seq<char>> {
    match value {
        Some(text) => Some(text@),
        None => None,
    }
}

/// The skin that a theme asks for: its name, its colour scheme, and the
/// address of an archive to get it from.
#[derive(Debug)]
pub struct ThemeSpicetify {
    pub name: String,
    pub color_scheme: Option<String>,
    pub url: Option<String>,
}

/// The mathematical content of a [`ThemeSpicetify`].
pub struct ThemeSpicetifyView {
    pub name: Seq<char>,
    pub color_scheme: Option<Seq<char>>,
    pub url: Option<Seq<char>>,
}

impl View for ThemeSpicetify {
    type V = ThemeSpicetifyView;

    open spec fn view(&self) -> ThemeSpicetifyView {
        ThemeSpicetifyView {
            name: self.name@,
            color_scheme: option_text(self.color_scheme),
            url: option_text(self.url),
        }
    }
}

impl Clone for ThemeSpicetify {
    fn clone(&self) -> (r: ThemeSpicetify)
        ensures
            r == *self,
    {
        ThemeSpicetify {
            name: self.name.clone(),
            color_scheme: match &self.color_scheme {
                Some(scheme) => Some(scheme.clone()),
                None => None,
            },
            url: match &self.url {
                Some(url) => Some(url.clone()),
                None => None,
            },
        }
    }
}

/// The tool's own settings, as far as a theme reads them.
#[derive(Debug)]
pub struct SpicetifyConfig {
    pub setting: SpicetifyConfigSetting,
}

/// The section `Setting` of the tool's settings.
#[derive(Debug)]
pub struct SpicetifyConfigSetting {
    pub current_theme: String,
    pub color_scheme: Option<String>,
}

impl Spicetify {
    /// The program that runs the tool: its bare name where it is installed
    /// for the whole system, else the executable in its folder.
    pub open spec fn spec_program(self) -> Seq<char> {
        if self.is_global {
            APP_NAME@
        } else {
            path_join(self.path@, EXE_NAME@)
        }
    }

    /// The command that runs the tool with the arguments `args`.
    pub open spec fn spec_command(self, args: Seq<Seq<char>>) -> InvocationView {
        InvocationView { program: self.spec_program(), args }
    }

    /// The folder of the skin `name`.
    pub open spec fn spec_theme_path(self, name: Seq<char>) -> Seq<char> {
        path_join(path_join(self.path@, "Themes"@), name)
    }

    /// The file whose presence shows that the skin `name` is installed.
    pub open spec fn spec_theme_marker(self, name: Seq<char>) -> Seq<char> {
        path_join(self.spec_theme_path(name), "color.ini"@)
    }

    /// The command that runs the tool, before what it is told to do.
    pub fn invoke_command(&self) -> (r: Invocation)
        ensures
            r@ == self.spec_command(Seq::empty()),
    {
        if self.is_global {
            Invocation::new(APP_NAME.to_owned())
        } else {
            Invocation::new(join(self.path.as_str(), EXE_NAME))
        }
    }

    /// The command that changes one of the tool's settings, before the
    /// setting's name and value.
    pub fn config(&self) -> (r: Invocation)
        ensures
            r@ == self.spec_command(seq!["config"@]),
    {
        let r = self.invoke_command().arg("config");
        assert(r@.args =~= seq!["config"@]);
        r
    }

    /// The command that sets the colour scheme of the current skin.
    pub fn set_color_scheme(&self, color_scheme: &str) -> (r: Invocation)
        ensures
            r@ == self.spec_command(seq!["config"@, "color_scheme"@, color_scheme@]),
    {
        let r = self.config().arg("color_scheme").arg(color_scheme);
        assert(r@.args =~= seq!["config"@, "color_scheme"@, color_scheme@]);
        r
    }

    /// The command that makes the chosen skin take effect.
    pub fn apply(&self) -> (r: Invocation)
        ensures
            r@ == self.spec_command(seq!["apply"@]),
    {
        let r = self.invoke_command().arg("apply");
        assert(r@.args =~= seq!["apply"@]);
        r
    }

    /// The folder of the skin `name`.
    pub fn get_theme_path(&self, name: &str) -> (r: String)
        ensures
            r@ == self.spec_theme_path(name@),
    {
        let themes = join(self.path.as_str(), "Themes");
        join(themes.as_str(), name)
    }

    /// The file whose presence shows that the skin `name` is installed.
    pub fn get_theme_marker(&self, name: &str) -> (r: String)
        ensures
            r@ == self.spec_theme_marker(name@),
    {
        join(self.get_theme_path(name).as_str(), "color.ini")
    }
}

impl ThemeSpicetify {
    /// What is said once the skin is in use.
    pub fn success_message(&self) -> (r: String)
        ensures
            r@ == "Applied theme "@ + self.name@ + " to spotify"@,
    {
        let mut r = joined("Applied theme ", self.name.as_str());
        r.append(" to spotify");
        r
    }

    /// The skin that the tool's settings name as the current one. Where it
    /// came from is not in the settings.
    pub fn get_current(config: SpicetifyConfig) -> (r: ThemeSpicetify)
        ensures
            r.name == config.setting.current_theme,
            r.color_scheme == config.setting.color_scheme,
            r.url is None,
    {
        let setting = config.setting;
        ThemeSpicetify { name: setting.current_theme, color_scheme: setting.color_scheme, url: None }
    }
}

/// The skin that a theme asks for is not among the skins of an installation.
#[derive(Debug)]
pub struct SpicetifyThemeNotFoundError(pub Spicetify, pub ThemeSpicetify);

impl HandledError for SpicetifyThemeNotFoundError {
    open spec fn spec_to_string(&self) -> Seq<char> {
        self.1.name@ + " spicetify theme not installed"@
    }

    open spec fn spec_item(&self) -> Seq<char> {
        "spotify theme"@
    }

    open spec fn spec_action(&self) -> Seq<char> {
        "Install theme"@
    }

    /// The skin is fetched and unpacked into the installation.
    open spec fn spec_handle(&self) -> RemedyView {
        RemedyView::DownloadTheme {
            spicetify: self.0@,
            theme: self.1@,
            notice: "Downloading theme..."@,
            done: "Downloaded theme "@ + self.1.name@,
        }
    }

    fn to_string(&self) -> (r: String) {
        joined(self.1.name.as_str(), " spicetify theme not installed")
    }

    fn item(&self) -> (r: &'static str) {
        "spotify theme"
    }

    fn action(&self) -> (r: &'static str) {
        "Install theme"
    }

    fn handle(&self) -> (r: Remedy) {
        Remedy::DownloadTheme {
            spicetify: self.0.clone(),
            theme: self.1.clone(),
            notice: "Downloading theme...".to_owned(),
            done: joined("Downloaded theme ", self.1.name.as_str()),
        }
    }
}

} // verus!
