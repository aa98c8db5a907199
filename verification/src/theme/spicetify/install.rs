//! Locating the skinning tool and telling it to use a skin.
//!
//! The caller runs the commands and looks for the files; what to run, what to
//! look for, and what follows from the answers is decided here.

use crate::cli::{Invocation, InvocationView};
use crate::error::{Error, HandledErrorKind};
use crate::path::{join, path_join};
use crate::text::{first_line, str_first_line};
use crate::theme::spicetify::error::SpicetifyNotInstalledError;
use crate::theme::spicetify::{
    Spicetify, SpicetifyThemeNotFoundError, ThemeSpicetify, APP_NAME, DEFAULT_COLOR_SCHEME,
};
use crate::theme::ThemeApp;
use vstd::prelude::*;

verus! {

/// What came of looking for the skinning tool.
#[derive(Debug)]
pub enum SpicetifyProbe {
    /// The tool answered to its bare name, asked for its folder, with
    /// `stdout`.
    Global { stdout: String },
    /// The tool did not answer to its bare name. `cache_dir` is the user's
    /// cache directory; `launched` says whether the tool's executable in its
    /// folder there could be started.
    Local { cache_dir: String, launched: bool },
}

impl Spicetify {
    /// The command that asks the tool, by its bare name, for its folder.
    pub fn probe() -> (r: Invocation)
        ensures
            r@ == (InvocationView { program: APP_NAME@, args: seq!["path"@] }),
    {
        let r = Invocation::new(APP_NAME.to_owned()).arg("path");
        assert(r@.args =~= seq!["path"@]);
        r
    }

    /// The installation in a user's cache directory, whether or not the tool
    /// is there.
    pub fn local(cache_dir: &str) -> (r: Spicetify)
        ensures
            !r.is_global,
            r.path@ == path_join(cache_dir@, APP_NAME@),
    {
        Spicetify { is_global: false, path: join(cache_dir, APP_NAME) }
    }

    /// The installation that a probe has found. A tool that answers to its
    /// bare name is installed for the whole system, in the folder that the
    /// first line of its answer names. One that does not is looked for in the
    /// user's cache directory, and is not installed where it cannot be
    /// started from there.
    pub fn new(probe: SpicetifyProbe) -> (r: Result<Spicetify, Error>)
        requires
            probe matches SpicetifyProbe::Global { stdout } ==> stdout@.len() > 0,
        ensures
            match probe {
                SpicetifyProbe::Global { stdout } => r matches Ok(found) && found.is_global
                    && Some(found.path@) == first_line(stdout@),
                SpicetifyProbe::Local { cache_dir, launched: true } => r matches Ok(found)
                    && !found.is_global && found.path@ == path_join(cache_dir@, APP_NAME@),
                SpicetifyProbe::Local { cache_dir, launched: false } => r matches Err(
                    Error::HandledError(HandledErrorKind::SpicetifyNotInstalled(_)),
                ),
            },
    {
        match probe {
            SpicetifyProbe::Global { stdout } => {
                let path = str_first_line(stdout.as_str()).unwrap();
                Ok(Spicetify { is_global: true, path })
            },
            SpicetifyProbe::Local { cache_dir, launched } => {
                if launched {
                    Ok(Self::local(cache_dir.as_str()))
                } else {
                    Err(
                        Error::HandledError(
                            HandledErrorKind::SpicetifyNotInstalled(SpicetifyNotInstalledError {  }),
                        ),
                    )
                }
            },
        }
    }

    /// The command that asks the tool where it keeps its settings.
    pub fn config_path_query(&self) -> (r: Invocation)
        ensures
            r@ == self.spec_command(seq!["--config"@]),
    {
        let r = self.invoke_command().arg("--config");
        assert(r@.args =~= seq!["--config"@]);
        r
    }

    /// Where the tool keeps its settings: the first line of what it answered
    /// when asked.
    pub fn get_config_path(&self, stdout: &str) -> (r: String)
        requires
            stdout@.len() > 0,
        ensures
            Some(r@) == first_line(stdout@),
    {
        str_first_line(stdout).unwrap()
    }

    /// The colour scheme that `theme` gets: the one it names, or the default.
    pub open spec fn spec_color_scheme(theme: ThemeSpicetify) -> Seq<char> {
        match theme.color_scheme {
            Some(scheme) => scheme@,
            None => DEFAULT_COLOR_SCHEME@,
        }
    }

    /// The commands that put the skin of `theme` to use, in order: choose the
    /// skin, choose its colour scheme, make both take effect.
    pub open spec fn spec_set_theme(self, theme: ThemeSpicetify) -> Seq<InvocationView> {
        seq![
            self.spec_command(seq!["config"@, "current_theme"@, theme.name@]),
            self.spec_command(seq!["config"@, "color_scheme"@, Self::spec_color_scheme(theme)]),
            self.spec_command(seq!["apply"@]),
        ]
    }

    /// What putting the skin of `theme` to use takes, given whether the skin
    /// is installed: the file that `get_theme_marker` names is there. A skin
    /// that is not installed is a failure that installing it mends; for one
    /// that is, the commands to run, each one only if the one before it ran.
    pub fn set_theme(&self, theme: &ThemeSpicetify, installed: bool) -> (r: Result<
        Vec<Invocation>,
        Error,
    >)
        ensures
            match r {
                Ok(commands) => installed && commands@.len() == 3 && (forall|i: int|
                    0 <= i < 3 ==> (#[trigger] commands@[i])@ == self.spec_set_theme(*theme)[i]),
                Err(e) => !installed && e == Error::HandledError(
                    HandledErrorKind::SpicetifyThemeNotFound(
                        SpicetifyThemeNotFoundError(*self, *theme),
                    ),
                ),
            },
    {
        if !installed {
            return Err(
                Error::HandledError(
                    HandledErrorKind::SpicetifyThemeNotFound(
                        SpicetifyThemeNotFoundError(self.clone(), theme.clone()),
                    ),
                ),
            );
        }
        let choose = self.config().arg("current_theme").arg(theme.name.as_str());
        assert(choose@.args =~= seq!["config"@, "current_theme"@, theme.name@]);
        let scheme = match &theme.color_scheme {
            Some(scheme) => self.set_color_scheme(scheme.as_str()),
            None => self.set_color_scheme(DEFAULT_COLOR_SCHEME),
        };
        let mut commands: Vec<Invocation> = Vec::new();
        commands.push(choose);
        commands.push(scheme);
        commands.push(self.apply());
        Ok(commands)
    }
}

impl ThemeApp for ThemeSpicetify {
    type App = Spicetify;

    open spec fn spec_name() -> Seq<char> {
        "Spotify (Spicetify)"@
    }

    fn name() -> (r: &'static str) {
        "Spotify (Spicetify)"
    }
}

} // verus!
