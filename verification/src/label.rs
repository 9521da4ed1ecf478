use vstd::prelude::*;
use vstd::string::StringExecFns;
use crate::error::{Error, ErrorView};
use crate::text::{trim, trim_str};
use crate::url_config::UrlConfig;

verus! {

/// The shape of the tail that a picker label adds to a name: a colon, one
/// white space, a URL that begins with `http`, one white space and the
/// browser, a word, in brackets behind `in`, at the end of the line.
pub const LABEL_PATTERN: &'static str = r":\shttp.+\s\(in\s(\w+)\)$";

/// What `regex::Regex::new(pattern)` followed by `Regex::replace(haystack,
/// replacement)` gives: nothing where the engine refuses the pattern, else the
/// haystack with the leftmost match replaced.
pub uninterp spec fn regex_replace_first(
    pattern: Seq<char>,
    haystack: Seq<char>,
    replacement: Seq<char>,
) -> Option<Seq<char>>;

/// Compiles `pattern` with `regex::Regex::new` and, where the engine accepts
/// it, replaces the leftmost match in `haystack` with `Regex::replace`. Both
/// depend on their arguments alone; the contract gives the outcome its name
/// and claims nothing else of it.
#[verifier::external_body]
fn replace_first(pattern: &str, haystack: &str, replacement: &str) -> (out: Option<String>)
    ensures
        match out {
            Some(text) => regex_replace_first(pattern@, haystack@, replacement@) == Some(text@),
            None => regex_replace_first(pattern@, haystack@, replacement@) is None,
        },
{
    match regex::Regex::new(pattern) {
        Ok(re) => Some(re.replace(haystack, replacement).into_owned()),
        Err(_) => None,
    }
}

/// The line that the picker shows for a bookmark.
pub open spec fn label(name: Seq<char>, url: Seq<char>, browser: Seq<char>) -> Seq<char> {
    name + ": "@ + url + " (in "@ + browser + ")"@
}

/// `token` without the leftmost match of `pattern`, where it has one; nothing
/// where the regex engine refuses the pattern.
pub open spec fn without_match(pattern: Seq<char>, token: Seq<char>) -> Option<Seq<char>> {
    regex_replace_first(pattern, token, ""@)
}

/// `token` without the tail of a picker label, where it has one.
pub open spec fn stripped(token: Seq<char>) -> Option<Seq<char>> {
    without_match(LABEL_PATTERN@, token)
}

/// The name or alias that `token` asks for: the token without the tail of a
/// picker label and without white space around it.
pub open spec fn candidate(token: Seq<char>) -> Option<Seq<char>> {
    match stripped(token) {
        Some(name) => Some(trim(name)),
        None => None,
    }
}

/// The line that the picker shows for the bookmark `entry` named `name`.
pub fn label_of(name: &str, entry: &UrlConfig, default_browser: &str) -> (out: String)
    ensures
        out@ == label(name@, entry@.url, entry@.effective_browser(default_browser@)),
{
    let mut out = String::from_str(name);
    out.append(": ");
    out.append(entry.url.as_str());
    out.append(" (in ");
    out.append(entry.effective_browser(default_browser));
    out.append(")");
    out
}

/// `token` without the leftmost match of `pattern`; an error where the regex
/// engine refuses the pattern.
pub fn strip_match(pattern: &str, token: &str) -> (out: Result<String, Error>)
    ensures
        match out {
            Ok(rest) => without_match(pattern@, token@) == Some(rest@),
            Err(e) => without_match(pattern@, token@) is None && e@ == ErrorView::Pattern(
                pattern@,
            ),
        },
{
    match replace_first(pattern, token, "") {
        Some(rest) => Ok(rest),
        None => Err(Error::Pattern(String::from_str(pattern))),
    }
}

/// `token` without the tail of a picker label.
pub fn strip_label(token: &str) -> (out: Result<String, Error>)
    ensures
        match out {
            Ok(name) => stripped(token@) == Some(name@),
            Err(e) => stripped(token@) is None && e@ == ErrorView::Pattern(LABEL_PATTERN@),
        },
{
    strip_match(LABEL_PATTERN, token)
}

/// The name or alias that `token` asks for.
pub fn candidate_of(token: &str) -> (out: Result<String, Error>)
    ensures
        match out {
            Ok(name) => candidate(token@) == Some(name@),
            Err(e) => candidate(token@) is None && e@ == ErrorView::Pattern(LABEL_PATTERN@),
        },
{
    match strip_label(token) {
        Ok(name) => Ok(trim_str(name.as_str())),
        Err(e) => Err(e),
    }
}

} // verus!
