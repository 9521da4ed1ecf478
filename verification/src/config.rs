use vstd::prelude::*;
use crate::error::Error;
use crate::name_map::{is_insertion, lookup, sorted, NameMap};
use crate::url_config::{UrlConfig, UrlConfigView};

verus! {

/// The bookmarks of one user: the default browser, the bookmarks by name and
/// the aliases, each alias with the name it stands for.
#[derive(Debug)]
pub struct Config {
    default_browser: String,
    aliases: Option<NameMap<String>>,
    bookmarks: NameMap<UrlConfig>,
}

/// What a configuration holds, as plain sequences. The bookmarks and the
/// aliases stand in the order in which they are walked.
pub struct ConfigView {
    pub default_browser: Seq<char>,
    pub aliases: Option<Seq<(Seq<char>, Seq<char>)>>,
    pub bookmarks: Seq<(Seq<char>, UrlConfigView)>,
}

impl ConfigView {
    /// The default browser is named, and bookmarks and aliases stand in the
    /// strict order of their names.
    pub open spec fn wf(self) -> bool {
        &&& self.default_browser.len() > 0
        &&& sorted(self.bookmarks)
        &&& match self.aliases {
            Some(aliases) => sorted(aliases),
            None => true,
        }
    }

    /// The bookmark named `name`.
    pub open spec fn from_name(self, name: Seq<char>) -> Option<UrlConfigView> {
        lookup(self.bookmarks, name)
    }

    /// The bookmark that `alias` stands for: none where there is no such
    /// alias, and none where it names no bookmark.
    pub open spec fn from_alias(self, alias: Seq<char>) -> Option<UrlConfigView> {
        match self.aliases {
            Some(aliases) => match lookup(aliases, alias) {
                Some(name) => lookup(self.bookmarks, name),
                None => None,
            },
            None => None,
        }
    }

    /// The bookmark that `candidate` stands for: the one of that name, or else
    /// the one that it is an alias of.
    pub open spec fn find(self, candidate: Seq<char>) -> Option<UrlConfigView> {
        match self.from_name(candidate) {
            Some(entry) => Some(entry),
            None => self.from_alias(candidate),
        }
    }
}

impl View for Config {
    type V = ConfigView;

    closed spec fn view(&self) -> ConfigView {
        ConfigView {
            default_browser: self.default_browser@,
            aliases: match self.aliases {
                Some(aliases) => Some(aliases@),
                None => None,
            },
            bookmarks: self.bookmarks@,
        }
    }
}

/// A copy holds what the configuration holds.
impl Clone for Config {
    fn clone(&self) -> (out: Self)
        ensures
            out@ == self@,
    {
        proof {
            use_type_invariant(self);
        }
        Config {
            default_browser: self.default_browser.clone(),
            aliases: match &self.aliases {
                Some(aliases) => Some(aliases.clone()),
                None => None,
            },
            bookmarks: self.bookmarks.clone(),
        }
    }
}

impl Config {
    /// The configuration is well formed.
    #[verifier::type_invariant]
    pub open spec fn wf(&self) -> bool {
        self@.wf()
    }

    /// A configuration with the given default browser and neither bookmarks
    /// nor aliases. A default browser without a name is refused.
    pub fn new(default_browser: String) -> (out: Result<Config, Error>)
        ensures
            match out {
                Ok(config) => {
                    &&& default_browser@.len() > 0
                    &&& config.wf()
                    &&& config@.default_browser == default_browser@
                    &&& config@.aliases is None
                    &&& config@.bookmarks.len() == 0
                },
                Err(e) => default_browser@.len() == 0 && e == Error::EmptyDefaultBrowser,
            },
    {
        if default_browser.as_str().is_empty() {
            return Err(Error::EmptyDefaultBrowser);
        }
        let bookmarks: NameMap<UrlConfig> = NameMap::new();
        Ok(Config { default_browser, aliases: None, bookmarks })
    }

    /// The browser for bookmarks that name none.
    pub fn default_browser(&self) -> (out: &str)
        ensures
            out@ == self@.default_browser,
    {
        self.default_browser.as_str()
    }

    /// The bookmarks, by name.
    pub fn bookmarks(&self) -> (out: &NameMap<UrlConfig>)
        ensures
            out@ == self@.bookmarks,
    {
        &self.bookmarks
    }

    /// The aliases, each with the name it stands for.
    pub fn aliases(&self) -> (out: Option<&NameMap<String>>)
        ensures
            match out {
                Some(aliases) => self@.aliases == Some(aliases@),
                None => self@.aliases is None,
            },
    {
        self.aliases.as_ref()
    }

    /// Puts `entry` under `name`, in the place of the bookmark of that name
    /// where there is one.
    pub fn add_bookmark(&mut self, name: String, entry: UrlConfig)
        ensures
            final(self).wf(),
            final(self)@.default_browser == old(self)@.default_browser,
            final(self)@.aliases == old(self)@.aliases,
            is_insertion(old(self)@.bookmarks, final(self)@.bookmarks, name@, entry@),
    {
        proof {
            use_type_invariant(&*self);
        }
        let mut bookmarks: NameMap<UrlConfig> = NameMap::new();
        core::mem::swap(&mut self.bookmarks, &mut bookmarks);
        bookmarks.insert(name, entry);
        self.bookmarks = bookmarks;
    }

    /// Lets `alias` stand for `name`, whether or not a bookmark has that name.
    pub fn add_alias(&mut self, alias: String, name: String)
        ensures
            final(self).wf(),
            final(self)@.default_browser == old(self)@.default_browser,
            final(self)@.bookmarks == old(self)@.bookmarks,
            final(self)@.aliases is Some,
            is_insertion(
                match old(self)@.aliases {
                    Some(aliases) => aliases,
                    None => Seq::empty(),
                },
                final(self)@.aliases->0,
                alias@,
                name@,
            ),
    {
        proof {
            use_type_invariant(&*self);
        }
        let mut held: Option<NameMap<String>> = None;
        core::mem::swap(&mut self.aliases, &mut held);
        let mut aliases: NameMap<String> = match held {
            Some(aliases) => aliases,
            None => NameMap::new(),
        };
        aliases.insert(alias, name);
        self.aliases = Some(aliases);
    }
}

} // verus!
