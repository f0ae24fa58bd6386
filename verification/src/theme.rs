use vstd::prelude::*;

verus! {

/// Color scheme emulated by the browser before the page is rendered.
#[derive(Debug, Clone, Copy, PartialEq, Eq, Structural)]
pub enum Theme {
    Light,
    Dark,
}

impl Theme {
    /// The value handed to the browser's `prefers-color-scheme` media feature.
    pub fn as_str(&self) -> (r: &'static str)
        ensures
            *self is Light ==> r@ == "light"@,
            *self is Dark ==> r@ == "dark"@,
    {
        match self {
            Theme::Light => "light",
            Theme::Dark => "dark",
        }
    }
}

impl Default for Theme {
    fn default() -> (r: Self)
        ensures
            r is Light,
    {
        Theme::Light
    }
}

} // verus!
