//! The two colour themes of the reminder window.

use vstd::prelude::*;

verus! {

/// A colour theme.
#[derive(Clone, Copy, Debug, PartialEq, Eq, Structural)]
pub enum Theme {
    Light,
    Dark,
}

impl Theme {
    /// The other theme.
    pub open spec fn opposite(self) -> Theme {
        match self {
            Theme::Dark => Theme::Light,
            Theme::Light => Theme::Dark,
        }
    }

    /// Switches to the other theme.
    pub fn change_theme(&mut self)
        ensures
            *final(self) == old(self).opposite(),
    {
        *self = match *self {
            Theme::Dark => Theme::Light,
            Theme::Light => Theme::Dark,
        };
    }

    /// The name under which the theme is shown.
    pub fn label(&self) -> (name: &'static str)
        ensures
            name@ == (match *self {
                Theme::Dark => "Dark Mode"@,
                Theme::Light => "Light Mode"@,
            }),
    {
        match self {
            Theme::Dark => "Dark Mode",
            Theme::Light => "Light Mode",
        }
    }
}

/// Switching the theme twice gives back the theme one started with.
pub proof fn lemma_change_theme_twice(t: Theme)
    ensures
        t.opposite().opposite() == t,
        t.opposite() != t,
{
}

} // verus!
