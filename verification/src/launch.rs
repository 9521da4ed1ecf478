use vstd::prelude::*;

verus! {

/// What is handed to the opener of the system: a URL and the browser that is
/// to show it.
#[derive(Debug, Clone, PartialEq, Eq)]
pub struct Launch {
    pub url: String,
    pub browser: String,
}

/// What a launch holds, as plain sequences.
pub struct LaunchView {
    pub url: Seq<char>,
    pub browser: Seq<char>,
}

impl View for Launch {
    type V = LaunchView;

    open spec fn view(&self) -> LaunchView {
        LaunchView { url: self.url@, browser: self.browser@ }
    }
}

} // verus!
