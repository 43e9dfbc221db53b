//! The two looks of the panel and the flag that selects one.

use vstd::prelude::*;

verus! {

/// One of the two looks the panel can take.
#[derive(Clone, Copy, Debug, PartialEq, Eq, Structural)]
pub enum Theme {
    Light,
    Dark,
}

impl Theme {
    /// The look that a theme flag selects: `Dark` when the flag is set,
    /// `Light` otherwise.
    pub open spec fn of(dark: bool) -> Theme {
        if dark {
            Theme::Dark
        } else {
            Theme::Light
        }
    }

    /// Resolves a theme flag to its look.
    pub fn from_flag(dark: bool) -> (theme: Theme)
        ensures
            theme == Theme::of(dark),
    {
        match dark {
            true => Theme::Dark,
            false => Theme::Light,
        }
    }
}

} // verus!
