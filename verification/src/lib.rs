//! A desktop theme swapper: the decisions behind applying a theme to a
//! wallpaper manager, a music-player skinning tool and the system's
//! appearance settings, and behind recovering from the failures on the way.

pub mod cli;
pub mod color;
pub mod error;
pub mod path;
pub mod text;
pub mod theme;
pub mod vdf;
