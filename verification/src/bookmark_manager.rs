use std::path::PathBuf;
use vstd::prelude::*;
use vstd::string::StringExecFns;
use crate::config::{Config, ConfigView};
use crate::error::{Error, ErrorView};
use crate::label::{candidate, candidate_of, label, label_of, LABEL_PATTERN};
use crate::launch::{Launch, LaunchView};
use crate::picker::{
    chosen, chosen_line, picked_view, PickerOutput, PickerOutputView, PickerRequest,
};
use crate::text::{
    contains_str, join, join_strings, replace_all, replace_all_absent, replace_all_str, views,
};
use crate::url_config::{UrlConfig, UrlConfigView};

verus! {

/// A path of the file system, carried and never read.
#[verifier::external_type_specification]
#[verifier::external_body]
pub struct ExPathBuf(PathBuf);

/// The place in a URL that the words of a query fill.
pub const QUERY_PLACEHOLDER: &'static str = "{query}";

/// What stands between the words of a query.
pub const QUERY_SEPARATOR: &'static str = " ";

/// The height of the picker's window, in lines.
pub const PICKER_HEIGHT: &'static str = "5";

/// A bookmark manager: a configuration and the path of the file it came from.
#[derive(Debug)]
pub struct BookmarkManager {
    /// Resolved path to the configuration file.
    pub path: PathBuf,
    /// The configuration.
    config: Config,
}

impl View for BookmarkManager {
    type V = ConfigView;

    closed spec fn view(&self) -> ConfigView {
        self.config@
    }
}

/// The bookmark that `token` asks for. The token may be a name, an alias or a
/// picker label; it is looked up by its candidate.
pub open spec fn resolved(config: ConfigView, token: Seq<char>) -> Result<
    UrlConfigView,
    ErrorView,
> {
    match candidate(token) {
        None => Err(ErrorView::Pattern(LABEL_PATTERN@)),
        Some(name) => match config.find(name) {
            Some(entry) => Ok(entry),
            None => Err(ErrorView::NotFound(token)),
        },
    }
}

/// The launch that opens `entry` as it stands.
pub open spec fn plain_launch(config: ConfigView, entry: UrlConfigView) -> LaunchView {
    LaunchView { url: entry.url, browser: entry.effective_browser(config.default_browser) }
}

/// The launch that opens `entry` with `words` in the place of each
/// placeholder of its URL.
pub open spec fn query_launch(
    config: ConfigView,
    entry: UrlConfigView,
    words: Seq<Seq<char>>,
) -> LaunchView {
    LaunchView {
        url: replace_all(entry.url, QUERY_PLACEHOLDER@, join(words, QUERY_SEPARATOR@)),
        browser: entry.effective_browser(config.default_browser),
    }
}

/// What opening `token` comes to.
pub open spec fn opened(config: ConfigView, token: Seq<char>) -> Result<LaunchView, ErrorView> {
    match resolved(config, token) {
        Ok(entry) => Ok(plain_launch(config, entry)),
        Err(e) => Err(e),
    }
}

/// What a search comes to: `args[0]` says which bookmark, the rest is the
/// query.
pub open spec fn searched(config: ConfigView, args: Seq<Seq<char>>) -> Result<
    LaunchView,
    ErrorView,
> {
    match resolved(config, args[0]) {
        Ok(entry) => Ok(query_launch(config, entry, args.skip(1))),
        Err(e) => Err(e),
    }
}

/// What follows a run of the picker: nothing where no line was chosen, else
/// what opening the chosen line comes to.
pub open spec fn prompted(config: ConfigView, picked: Option<PickerOutputView>) -> Result<
    Option<LaunchView>,
    ErrorView,
> {
    match chosen(picked) {
        None => Ok(None),
        Some(line) => match opened(config, line) {
            Ok(launch) => Ok(Some(launch)),
            Err(e) => Err(e),
        },
    }
}

/// The lines that the picker shows: one for each bookmark, in the order of
/// the bookmarks.
pub open spec fn labels(config: ConfigView) -> Seq<Seq<char>> {
    Seq::new(
        config.bookmarks.len(),
        |i: int|
            label(
                config.bookmarks[i].0,
                config.bookmarks[i].1.url,
                config.bookmarks[i].1.effective_browser(config.default_browser),
            ),
    )
}

/// Whether `found` is the bookmark `expected`, or none where none is expected.
pub open spec fn is_entry(found: Option<&UrlConfig>, expected: Option<UrlConfigView>) -> bool {
    match found {
        Some(entry) => expected == Some(entry@),
        None => expected is None,
    }
}

/// The view of a launch or of the error in its place.
pub open spec fn launch_view(out: Result<Launch, Error>) -> Result<LaunchView, ErrorView> {
    match out {
        Ok(launch) => Ok(launch@),
        Err(e) => Err(e@),
    }
}

/// The view of what follows a run of the picker.
pub open spec fn prompt_view(out: Result<Option<Launch>, Error>) -> Result<
    Option<LaunchView>,
    ErrorView,
> {
    match out {
        Ok(Some(launch)) => Ok(Some(launch@)),
        Ok(None) => Ok(None),
        Err(e) => Err(e@),
    }
}

/// A manager stands for its configuration wherever one is read.
impl core::ops::Deref for BookmarkManager {
    type Target = Config;

    fn deref(&self) -> (out: &Config)
        ensures
            out@ == self@,
    {
        &self.config
    }
}

impl BookmarkManager {
    /// The path of the configuration file.
    pub closed spec fn source(&self) -> PathBuf {
        self.path
    }

    /// A manager of `config`, which was read from `path`.
    pub fn new(path: PathBuf, config: Config) -> (out: Self)
        ensures
            out@ == config@,
            out.source() == path,
    {
        BookmarkManager { path, config }
    }

    /// The launch that opens the bookmark which `name` asks for.
    pub fn open(&self, name: &str) -> (out: Result<Launch, Error>)
        ensures
            launch_view(out) == opened(self@, name@),
    {
        let entry = match self.get_url_config(name) {
            Ok(entry) => entry,
            Err(e) => {
                return Err(e);
            },
        };
        let browser = entry.effective_browser(self.config.default_browser());
        Ok(Launch { url: entry.url.clone(), browser: String::from_str(browser) })
    }

    /// The launch that opens the bookmark which `args[0]` asks for, with the
    /// rest of `args` as the query.
    pub fn search(&self, args: &[String]) -> (out: Result<Launch, Error>)
        requires
            args.len() > 0,
        ensures
            launch_view(out) == searched(self@, views(args@)),
    {
        let first = args[0].as_str();
        let entry = match self.get_url_config(first) {
            Ok(entry) => entry,
            Err(e) => {
                return Err(e);
            },
        };
        let browser = entry.effective_browser(self.config.default_browser());
        if contains_str(entry.url.as_str(), QUERY_PLACEHOLDER) {
            let rest = join_strings(args, 1, QUERY_SEPARATOR);
            let url = replace_all_str(entry.url.as_str(), QUERY_PLACEHOLDER, rest.as_str());
            Ok(Launch { url, browser: String::from_str(browser) })
        } else {
            proof {
                replace_all_absent(
                    entry@.url,
                    QUERY_PLACEHOLDER@,
                    join(views(args@).skip(1), QUERY_SEPARATOR@),
                );
            }
            self.open(first)
        }
    }

    /// What the picker is asked to show: the label of each bookmark, of which
    /// one may be chosen.
    pub fn prompt(&self) -> (out: PickerRequest)
        ensures
            views(out.items@) == labels(self@),
            out.height@ == PICKER_HEIGHT@,
            !out.multi,
    {
        let bookmarks = self.config.bookmarks();
        let mut items: Vec<String> = Vec::new();
        let mut i: usize = 0;
        while i < bookmarks.len()
            invariant
                i <= bookmarks@.len(),
                bookmarks@ == self@.bookmarks,
                items@.len() == i,
                forall|j: int| 0 <= j < i ==> (#[trigger] items@[j])@ == labels(self@)[j],
            decreases bookmarks@.len() - i,
        {
            let line = label_of(
                bookmarks.key(i),
                bookmarks.value(i),
                self.config.default_browser(),
            );
            items.push(line);
            i += 1;
        }
        PickerRequest { items, height: String::from_str(PICKER_HEIGHT), multi: false }
    }

    /// What follows a run of the picker: the launch that opens the chosen
    /// line, or nothing to do where no line was chosen.
    pub fn open_prompt(&self, picked: &Option<PickerOutput>) -> (out: Result<
        Option<Launch>,
        Error,
    >)
        ensures
            prompt_view(out) == prompted(self@, picked_view(*picked)),
    {
        match chosen_line(picked) {
            Some(line) => match self.open(line) {
                Ok(launch) => Ok(Some(launch)),
                Err(e) => Err(e),
            },
            None => Ok(None),
        }
    }

    /// The bookmark that `name` asks for, be it a name, an alias or a picker
    /// label.
    pub fn get_url_config(&self, name: &str) -> (out: Result<&UrlConfig, Error>)
        ensures
            match out {
                Ok(entry) => resolved(self@, name@) == Ok::<UrlConfigView, ErrorView>(entry@),
                Err(e) => resolved(self@, name@) == Err::<UrlConfigView, ErrorView>(e@),
            },
    {
        let wanted = match candidate_of(name) {
            Ok(wanted) => wanted,
            Err(e) => {
                return Err(e);
            },
        };
        match self.find(wanted.as_str()) {
            Some(entry) => Ok(entry),
            None => Err(Error::NotFound(String::from_str(name))),
        }
    }

    /// The bookmark that `candidate` stands for: the one of that name, or else
    /// the one that it is an alias of.
    pub fn find(&self, candidate: &str) -> (out: Option<&UrlConfig>)
        ensures
            is_entry(out, self@.find(candidate@)),
    {
        match self.get_url_config_from_name(candidate) {
            Some(entry) => Some(entry),
            None => self.get_url_config_from_alias(candidate),
        }
    }

    /// The bookmark named `name`.
    pub fn get_url_config_from_name(&self, name: &str) -> (out: Option<&UrlConfig>)
        ensures
            is_entry(out, self@.from_name(name@)),
    {
        self.config.bookmarks().get(name)
    }

    /// The bookmark that `alias` stands for.
    pub fn get_url_config_from_alias(&self, alias: &str) -> (out: Option<&UrlConfig>)
        ensures
            is_entry(out, self@.from_alias(alias@)),
    {
        match self.config.aliases() {
            Some(aliases) => match aliases.get(alias) {
                Some(name) => self.config.bookmarks().get(name.as_str()),
                None => None,
            },
            None => None,
        }
    }
}

} // verus!
