use core::ops::Deref;
use vstd::prelude::*;
use vstd::string::StringExecFns;
use crate::bookmark_manager::BookmarkManager;
use crate::config::ConfigView;
use crate::error::{Error, ErrorView};
use crate::name_map::lookup;
use crate::text::{
    chars_of, replace_all, replace_all_chars, same, string_of, strip_prefix, strip_prefix_chars,
    views,
};
use crate::url_config::UrlConfigView;

verus! {

/// The first lines of the script: completions are offered only while no
/// subcommand has been given, and the subcommand is one of them.
pub const SCRIPT_HEADER: &'static str =
    "# fish shell completions for bo command\ncomplete -c bo -f -n \"not __fish_seen_subcommand_from completion\"\ncomplete -c bo -f -n \"not __fish_seen_subcommand_from completion\" -a generate-completion -d \"command: Generate shell completion script\"\n";

/// A line of the script up to the word it offers.
pub const LINE_HEAD: &'static str =
    "complete -c bo -f -n \"not __fish_seen_subcommand_from completion\" -a \"";

/// What stands between the word and its description.
pub const LINE_MIDDLE: &'static str = "\" -d \"";

/// The end of a line of the script.
pub const LINE_TAIL: &'static str = "\"\n";

/// The parts of the warning about an alias that names no bookmark.
pub const WARNING_HEAD: &'static str = "Warning: alias '";

pub const WARNING_MIDDLE: &'static str = "' points to a non-existent bookmark: '";

pub const WARNING_TAIL: &'static str = "'. Skipping.";

/// The secure scheme at the head of a URL.
pub const SCHEME_HTTPS: &'static str = "https://";

/// The plain scheme at the head of a URL.
pub const SCHEME_HTTP: &'static str = "http://";

/// The host prefix that a description leaves out.
pub const WWW: &'static str = "www.";

/// The name of the one shell for which completions are written.
pub const FISH: &'static str = "fish";

/// A URL as a description shows it: without `https://` at its head, then
/// without `http://` at its head, then without any `www.`.
pub open spec fn simplify(url: Seq<char>) -> Seq<char> {
    replace_all(
        strip_prefix(strip_prefix(url, SCHEME_HTTPS@), SCHEME_HTTP@),
        WWW@,
        Seq::empty(),
    )
}

/// The line that offers `word` for the bookmark at `url`.
pub open spec fn line(word: Seq<char>, url: Seq<char>) -> Seq<char> {
    LINE_HEAD@ + word + LINE_MIDDLE@ + simplify(url) + LINE_TAIL@
}

/// The lines of the bookmarks, one for each in their order.
pub open spec fn bookmark_lines(bookmarks: Seq<(Seq<char>, UrlConfigView)>) -> Seq<char>
    decreases bookmarks.len(),
{
    if bookmarks.len() == 0 {
        Seq::empty()
    } else {
        bookmark_lines(bookmarks.drop_last()) + line(bookmarks.last().0, bookmarks.last().1.url)
    }
}

/// The lines of the aliases, one for each that names a bookmark, in their
/// order.
pub open spec fn alias_lines(
    aliases: Seq<(Seq<char>, Seq<char>)>,
    bookmarks: Seq<(Seq<char>, UrlConfigView)>,
) -> Seq<char>
    decreases aliases.len(),
{
    if aliases.len() == 0 {
        Seq::empty()
    } else {
        alias_lines(aliases.drop_last(), bookmarks) + match lookup(bookmarks, aliases.last().1) {
            Some(entry) => line(aliases.last().0, entry.url),
            None => Seq::empty(),
        }
    }
}

/// The warning about `alias`, which stands for `name` though no bookmark has
/// that name.
pub open spec fn warning(alias: Seq<char>, name: Seq<char>) -> Seq<char> {
    WARNING_HEAD@ + alias + WARNING_MIDDLE@ + name + WARNING_TAIL@
}

/// The warnings, one for each alias that names no bookmark, in the order of
/// the aliases.
pub open spec fn alias_warnings(
    aliases: Seq<(Seq<char>, Seq<char>)>,
    bookmarks: Seq<(Seq<char>, UrlConfigView)>,
) -> Seq<Seq<char>>
    decreases aliases.len(),
{
    if aliases.len() == 0 {
        Seq::empty()
    } else {
        alias_warnings(aliases.drop_last(), bookmarks) + match lookup(
            bookmarks,
            aliases.last().1,
        ) {
            Some(_) => Seq::empty(),
            None => seq![warning(aliases.last().0, aliases.last().1)],
        }
    }
}

/// The aliases of a configuration, none where it has no table of them.
pub open spec fn aliases_of(config: ConfigView) -> Seq<(Seq<char>, Seq<char>)> {
    match config.aliases {
        Some(aliases) => aliases,
        None => Seq::empty(),
    }
}

/// The whole script for a configuration.
pub open spec fn script(config: ConfigView) -> Seq<char> {
    SCRIPT_HEADER@ + bookmark_lines(config.bookmarks) + alias_lines(
        aliases_of(config),
        config.bookmarks,
    )
}

/// A completion script and the warnings that came up while it was written.
#[derive(Debug, Clone, PartialEq, Eq)]
pub struct Completion {
    pub script: String,
    pub warnings: Vec<String>,
}

/// A shell for which completions can be written.
#[derive(Debug, Clone, PartialEq, Eq)]
pub enum Shell {
    Fish,
}

impl Shell {
    /// The name of the shell.
    pub fn name(&self) -> (out: String)
        ensures
            out@ == FISH@,
    {
        match self {
            Shell::Fish => String::from_str(FISH),
        }
    }
}

/// The shell of a given name; only `fish` is known.
impl std::str::FromStr for Shell {
    type Err = Error;

    fn from_str(s: &str) -> (out: Result<Shell, Error>)
        ensures
            match out {
                Ok(shell) => s@ == FISH@ && shell == Shell::Fish,
                Err(e) => s@ != FISH@ && e@ == ErrorView::UnsupportedShell(s@),
            },
    {
        if same(s, FISH) {
            Ok(Shell::Fish)
        } else {
            Err(Error::UnsupportedShell(s.to_owned()))
        }
    }
}

/// A URL as a description shows it.
pub fn simplify_url(url: &str) -> (out: String)
    ensures
        out@ == simplify(url@),
{
    let chars = chars_of(url);
    let chars = strip_prefix_chars(&chars, &chars_of(SCHEME_HTTPS));
    let chars = strip_prefix_chars(&chars, &chars_of(SCHEME_HTTP));
    let nothing: Vec<char> = Vec::new();
    let chars = replace_all_chars(&chars, &chars_of(WWW), &nothing);
    string_of(&chars, 0, chars.len())
}

/// Appends to `script` the line that offers `word` for the bookmark at `url`.
fn push_line(script: &mut String, word: &str, url: &str)
    ensures
        final(script)@ == old(script)@ + line(word@, url@),
{
    let description = simplify_url(url);
    script.append(LINE_HEAD);
    script.append(word);
    script.append(LINE_MIDDLE);
    script.append(description.as_str());
    script.append(LINE_TAIL);
}

/// The warning about `alias`, which stands for `name` though no bookmark has
/// that name.
fn warning_of(alias: &str, name: &str) -> (out: String)
    ensures
        out@ == warning(alias@, name@),
{
    let mut out = String::from_str(WARNING_HEAD);
    out.append(alias);
    out.append(WARNING_MIDDLE);
    out.append(name);
    out.append(WARNING_TAIL);
    out
}

/// The completion script for fish: a line for each bookmark and for each
/// alias that names a bookmark, and a warning for each alias that names none.
pub fn generate_fish_completion(manager: &BookmarkManager) -> (out: Completion)
    ensures
        out.script@ == script(manager@),
        views(out.warnings@) == alias_warnings(aliases_of(manager@), manager@.bookmarks),
{
    let config = manager.deref();
    let bookmarks = config.bookmarks();
    let mut script = String::from_str(SCRIPT_HEADER);
    let mut warnings: Vec<String> = Vec::new();
    let mut i: usize = 0;
    while i < bookmarks.len()
        invariant
            i <= bookmarks@.len(),
            script@ == SCRIPT_HEADER@ + bookmark_lines(bookmarks@.take(i as int)),
        decreases bookmarks@.len() - i,
    {
        proof {
            assert(bookmarks@.take(i + 1).drop_last() =~= bookmarks@.take(i as int));
        }
        push_line(&mut script, bookmarks.key(i), bookmarks.value(i).url.as_str());
        i += 1;
    }
    proof {
        assert(bookmarks@.take(bookmarks@.len() as int) =~= bookmarks@);
    }
    match config.aliases() {
        Some(aliases) => {
            let mut k: usize = 0;
            let ghost head = script@;
            while k < aliases.len()
                invariant
                    k <= aliases@.len(),
                    script@ == head + alias_lines(aliases@.take(k as int), bookmarks@),
                    views(warnings@) == alias_warnings(aliases@.take(k as int), bookmarks@),
                decreases aliases@.len() - k,
            {
                proof {
                    assert(aliases@.take(k + 1).drop_last() =~= aliases@.take(k as int));
                }
                let alias = aliases.key(k);
                let name = aliases.value(k).as_str();
                match bookmarks.get(name) {
                    Some(entry) => {
                        push_line(&mut script, alias, entry.url.as_str());
                    },
                    None => {
                        warnings.push(warning_of(alias, name));
                    },
                }
                k += 1;
            }
            proof {
                assert(aliases@.take(aliases@.len() as int) =~= aliases@);
            }
        },
        None => {
        },
    }
    Completion { script, warnings }
}

} // verus!
