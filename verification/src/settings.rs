//! The user's settings.

use vstd::prelude::*;

verus! {

/// The page a new tab opens when nothing else is configured.
pub open spec fn default_home_page() -> Seq<char> {
    "https://start.duckduckgo.com"@
}

/// What the user has configured.
#[derive(Debug)]
pub struct Settings {
    pub default_url: String,
}

impl Default for Settings {
    /// Settings with the home page set to DuckDuckGo's start page.
    fn default() -> (r: Self)
        ensures
            r.default_url@ == default_home_page(),
    {
        Settings { default_url: String::from_str("https://start.duckduckgo.com") }
    }
}

} // verus!
