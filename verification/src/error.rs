use vstd::prelude::*;
use vstd::string::StringExecFns;

verus! {

/// What can go wrong in the library.
#[derive(Debug, Clone, PartialEq, Eq)]
pub enum Error {
    /// No bookmark stands under the token, directly or through an alias.
    NotFound(String),
    /// The regex engine refused the pattern.
    Pattern(String),
    /// The configuration names no default browser.
    EmptyDefaultBrowser,
    /// Completions were asked for a shell other than fish.
    UnsupportedShell(String),
}

/// What an error holds, as plain sequences.
pub enum ErrorView {
    NotFound(Seq<char>),
    Pattern(Seq<char>),
    EmptyDefaultBrowser,
    UnsupportedShell(Seq<char>),
}

impl View for Error {
    type V = ErrorView;

    open spec fn view(&self) -> ErrorView {
        match self {
            Error::NotFound(token) => ErrorView::NotFound(token@),
            Error::Pattern(pattern) => ErrorView::Pattern(pattern@),
            Error::EmptyDefaultBrowser => ErrorView::EmptyDefaultBrowser,
            Error::UnsupportedShell(name) => ErrorView::UnsupportedShell(name@),
        }
    }
}

impl ErrorView {
    /// The sentence that tells the user of the error.
    pub open spec fn message(self) -> Seq<char> {
        match self {
            ErrorView::NotFound(token) => "Bookmark not found: "@ + token,
            ErrorView::Pattern(pattern) => "Invalid pattern: "@ + pattern,
            ErrorView::EmptyDefaultBrowser => "The configuration names no default browser"@,
            ErrorView::UnsupportedShell(name) => "Unsupported shell: "@ + name,
        }
    }
}

impl Error {
    /// The sentence that tells the user of the error.
    pub fn message(&self) -> (out: String)
        ensures
            out@ == self@.message(),
    {
        match self {
            Error::NotFound(token) => String::from_str("Bookmark not found: ").concat(
                token.as_str(),
            ),
            Error::Pattern(pattern) => String::from_str("Invalid pattern: ").concat(
                pattern.as_str(),
            ),
            Error::EmptyDefaultBrowser => String::from_str(
                "The configuration names no default browser",
            ),
            Error::UnsupportedShell(name) => String::from_str("Unsupported shell: ").concat(
                name.as_str(),
            ),
        }
    }
}

} // verus!
