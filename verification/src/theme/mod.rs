//! The theme: what to apply, one optional part for each application.

pub mod spicetify;
pub mod wallpaper_engine;
pub mod windows;

use crate::text::joined;
use crate::theme::spicetify::ThemeSpicetify;
use crate::theme::wallpaper_engine::apply::ThemeWallpaperEngine;
use crate::theme::windows::ThemeWindows;
use vstd::prelude::*;

verus! {

/// An application that a theme can hold a part for.
pub trait ThemeApp {
    /// What stands for the located application while a theme is applied.
    type App;

    /// The application's name, as the user reads it.
    spec fn spec_name() -> Seq<char>;

    /// The application's name, as the user reads it.
    fn name() -> (r: &'static str)
        ensures
            r@ == Self::spec_name(),
    ;
}

/// The question whether the current settings of the application named `name`
/// go into a new theme.
pub fn include_prompt(name: &str) -> (r: String)
    ensures
        r@ == "Include "@ + name@ + " theme ?"@,
{
    let mut r = joined("Include ", name);
    r.append(" theme ?");
    r
}

/// Who made a theme.
#[derive(Debug)]
pub struct ThemeAuthor {
    pub name: String,
    pub url: Option<String>,
}

/// A theme: who made it, its version, and what it asks of each application.
/// A part that is absent leaves its application alone.
#[derive(Debug)]
pub struct Theme {
    pub version: Option<String>,
    pub author: Option<ThemeAuthor>,
    pub wallpaper_engine: Option<ThemeWallpaperEngine>,
    pub spicetify: Option<ThemeSpicetify>,
    pub windows: Option<ThemeWindows>,
}

/// An application that a theme is applied to.
#[derive(Clone, Copy, Debug, PartialEq, Eq, Structural)]
pub enum Integration {
    WallpaperEngine,
    Spicetify,
    Windows,
}

impl Theme {
    /// The applications that the theme is applied to, in the order in which
    /// they are dealt with: those that the theme holds a part for, the
    /// wallpaper manager first, then the skinning tool, then the system.
    pub open spec fn spec_apply(self) -> Seq<Integration> {
        let wallpaper_engine = if self.wallpaper_engine is Some {
            seq![Integration::WallpaperEngine]
        } else {
            Seq::empty()
        };
        let spicetify = if self.spicetify is Some {
            seq![Integration::Spicetify]
        } else {
            Seq::empty()
        };
        let windows = if self.windows is Some {
            seq![Integration::Windows]
        } else {
            Seq::empty()
        };
        wallpaper_engine + spicetify + windows
    }

    /// Whether the theme holds no part for any application.
    pub open spec fn is_empty(self) -> bool {
        self.wallpaper_engine is None && self.spicetify is None && self.windows is None
    }

    /// The applications to deal with when the theme is applied, in order.
    /// Each is located and then applied to for itself: one that is not found,
    /// or whose step is skipped, leaves the others as they are.
    pub fn apply(&self) -> (r: Vec<Integration>)
        ensures
            r@ == self.spec_apply(),
            self.is_empty() ==> r@.len() == 0,
    {
        let mut plan: Vec<Integration> = Vec::new();
        if self.wallpaper_engine.is_some() {
            plan.push(Integration::WallpaperEngine);
        }
        if self.spicetify.is_some() {
            plan.push(Integration::Spicetify);
        }
        if self.windows.is_some() {
            plan.push(Integration::Windows);
        }
        assert(plan@ =~= self.spec_apply());
        plan
    }

    /// A theme without parts touches no application: applying it deals with
    /// none, so nothing is located, changed or asked.
    pub proof fn lemma_empty_theme_touches_nothing(theme: Theme)
        requires
            theme.is_empty(),
        ensures
            theme.spec_apply() == Seq::<Integration>::empty(),
    {
        assert(theme.spec_apply() =~= Seq::<Integration>::empty());
    }

    /// An application is dealt with exactly where the theme holds a part for
    /// it.
    pub proof fn lemma_absent_part_is_untouched(theme: Theme, integration: Integration)
        ensures
            theme.spec_apply().contains(integration) <==> match integration {
                Integration::WallpaperEngine => theme.wallpaper_engine is Some,
                Integration::Spicetify => theme.spicetify is Some,
                Integration::Windows => theme.windows is Some,
            },
    {
        let plan = theme.spec_apply();
        let a: Seq<Integration> = if theme.wallpaper_engine is Some {
            seq![Integration::WallpaperEngine]
        } else {
            Seq::empty()
        };
        let b: Seq<Integration> = if theme.spicetify is Some {
            seq![Integration::Spicetify]
        } else {
            Seq::empty()
        };
        let c: Seq<Integration> = if theme.windows is Some {
            seq![Integration::Windows]
        } else {
            Seq::empty()
        };
        assert(plan =~= a + b + c);
        if theme.wallpaper_engine is Some {
            assert(plan[0] == Integration::WallpaperEngine);
        }
        if theme.spicetify is Some {
            assert(plan[a.len() as int] == Integration::Spicetify);
        }
        if theme.windows is Some {
            assert(plan[(a.len() + b.len()) as int] == Integration::Windows);
        }
        if plan.contains(integration) {
            let i = choose|i: int| 0 <= i < plan.len() && plan[i] == integration;
            assert(plan[i] == integration);
        }
    }
}

} // verus!
