use vstd::prelude::*;

use crate::text::str_eq;

verus! {

/// A user's colour scheme preference.
#[derive(Debug, Clone, Copy, PartialEq, Eq, Structural)]
pub enum Theme {
    Light,
    Dark,
    System,
}

/// The stored name of a theme.
pub open spec fn theme_name(t: Theme) -> Seq<char> {
    match t {
        Theme::Light => seq!['l', 'i', 'g', 'h', 't'],
        Theme::Dark => seq!['d', 'a', 'r', 'k'],
        Theme::System => seq!['s', 'y', 's', 't', 'e', 'm'],
    }
}

/// The theme a stored name stands for: `dark` and `system` are recognised,
/// anything else reads as the light theme.
pub open spec fn theme_of_name(s: Seq<char>) -> Theme {
    if s == theme_name(Theme::Dark) {
        Theme::Dark
    } else if s == theme_name(Theme::System) {
        Theme::System
    } else {
        Theme::Light
    }
}

impl Theme {
    /// The stored name of this theme.
    pub fn as_str(&self) -> (r: &'static str)
        ensures
            r@ == theme_name(*self),
    {
        proof {
            reveal_strlit("light");
            reveal_strlit("dark");
            reveal_strlit("system");
        }
        match self {
            Theme::Light => "light",
            Theme::Dark => "dark",
            Theme::System => "system",
        }
    }

    /// Reads a stored theme name.
    pub fn from_str(s: &str) -> (r: Theme)
        ensures
            r == theme_of_name(s@),
    {
        proof {
            reveal_strlit("dark");
            reveal_strlit("system");
            assert("dark"@ =~= theme_name(Theme::Dark));
            assert("system"@ =~= theme_name(Theme::System));
        }
        if str_eq(s, "dark") {
            Theme::Dark
        } else if str_eq(s, "system") {
            Theme::System
        } else {
            Theme::Light
        }
    }
}

impl Default for Theme {
    fn default() -> (r: Theme)
        ensures
            r == Theme::System,
    {
        Theme::System
    }
}

/// Reading the stored name of a theme gives the theme back.
pub proof fn lemma_theme_name_round_trip(t: Theme)
    ensures
        theme_of_name(theme_name(t)) == t,
{
    assert(theme_name(Theme::Light) != theme_name(Theme::Dark));
    assert(theme_name(Theme::Light) != theme_name(Theme::System));
    assert(theme_name(Theme::Dark) != theme_name(Theme::System));
}

/// The theme a toggle moves to, given whether the system prefers dark.
pub open spec fn toggled(t: Theme, system_prefers_dark: bool) -> Theme {
    match t {
        Theme::Light => if system_prefers_dark {
            Theme::System
        } else {
            Theme::Dark
        },
        Theme::Dark => if system_prefers_dark {
            Theme::Light
        } else {
            Theme::System
        },
        Theme::System => if system_prefers_dark {
            Theme::Light
        } else {
            Theme::Dark
        },
    }
}

impl Theme {
    /// The next theme in the toggle cycle.
    pub fn toggle(self, system_prefers_dark: bool) -> (r: Theme)
        ensures
            r == toggled(self, system_prefers_dark),
    {
        match self {
            Theme::Light => if system_prefers_dark {
                Theme::System
            } else {
                Theme::Dark
            },
            Theme::Dark => if system_prefers_dark {
                Theme::Light
            } else {
                Theme::System
            },
            Theme::System => if system_prefers_dark {
                Theme::Light
            } else {
                Theme::Dark
            },
        }
    }

    /// The theme actually shown: `System` follows the system preference.
    pub fn effective(self, system_prefers_dark: bool) -> (r: Theme)
        ensures
            self != Theme::System ==> r == self,
            self == Theme::System ==> r == if system_prefers_dark {
                Theme::Dark
            } else {
                Theme::Light
            },
    {
        match self {
            Theme::System => if system_prefers_dark {
                Theme::Dark
            } else {
                Theme::Light
            },
            other => other,
        }
    }
}

/// Toggling never stays put: it always changes what is shown or what is
/// stored.
pub proof fn lemma_toggle_changes(t: Theme, system_prefers_dark: bool)
    ensures
        toggled(t, system_prefers_dark) != t,
{
}

} // verus!
