//! The light and dark themes, as classes on the page's root element.

use vstd::prelude::*;

verus! {

/// The page theme.
#[derive(Clone, Copy, Debug, PartialEq, Eq)]
pub enum Theme {
    Light,
    Dark,
}

/// The other theme.
pub open spec fn spec_toggle(t: Theme) -> Theme {
    match t {
        Theme::Light => Theme::Dark,
        Theme::Dark => Theme::Light,
    }
}

/// The root element class of a theme.
pub open spec fn spec_html_class(t: Theme) -> Seq<char> {
    match t {
        Theme::Light => "light"@,
        Theme::Dark => "dark"@,
    }
}

/// The label of the toggle button: the theme it switches to.
pub open spec fn spec_next_label(t: Theme) -> Seq<char> {
    match t {
        Theme::Light => "Dark"@,
        Theme::Dark => "Light"@,
    }
}

impl Theme {
    /// `light` or `dark`.
    pub fn html_class(self) -> (r: &'static str)
        ensures
            r@ == spec_html_class(self),
    {
        match self {
            Theme::Light => "light",
            Theme::Dark => "dark",
        }
    }

    /// The other theme.
    pub fn toggle(self) -> (r: Self)
        ensures
            r == spec_toggle(self),
    {
        match self {
            Theme::Light => Theme::Dark,
            Theme::Dark => Theme::Light,
        }
    }

    /// The label of the theme the toggle switches to.
    pub fn next_label(self) -> (r: &'static str)
        ensures
            r@ == spec_next_label(self),
    {
        match self {
            Theme::Light => "Dark",
            Theme::Dark => "Light",
        }
    }
}

/// Toggling twice gives the theme back, toggling always changes it, and the toggle's
/// label names the theme it switches to (its class, capitalised).
pub proof fn law_toggle_involution(t: Theme)
    ensures
        spec_toggle(spec_toggle(t)) == t,
        spec_toggle(t) != t,
        spec_next_label(t) == match spec_toggle(t) {
            Theme::Light => "Light"@,
            Theme::Dark => "Dark"@,
        },
{
}

} // verus!
