//! The desktop background of the system itself.

use vstd::prelude::*;

verus! {

/// One image, or several shown in turn.
#[derive(Debug)]
pub enum WindowsWallpaper {
    Single { url: String },
    Diaporama { urls: Vec<String> },
}

} // verus!
