use vstd::prelude::*;

verus! {

/// A bookmark: a URL and, where the bookmark asks for one, the browser that
/// opens it.
#[derive(Debug, PartialEq, Eq)]
pub struct UrlConfig {
    pub url: String,
    pub browser: Option<String>,
}

/// What a bookmark holds, as plain sequences.
pub struct UrlConfigView {
    pub url: Seq<char>,
    pub browser: Option<Seq<char>>,
}

impl View for UrlConfig {
    type V = UrlConfigView;

    open spec fn view(&self) -> UrlConfigView {
        UrlConfigView {
            url: self.url@,
            browser: match self.browser {
                Some(b) => Some(b@),
                None => None,
            },
        }
    }
}

/// A copy holds what the bookmark holds.
impl Clone for UrlConfig {
    fn clone(&self) -> (out: Self)
        ensures
            out@ == self@,
    {
        UrlConfig {
            url: self.url.clone(),
            browser: match &self.browser {
                Some(browser) => Some(browser.clone()),
                None => None,
            },
        }
    }
}

impl UrlConfigView {
    /// The browser that opens this bookmark: its own where it names one, the
    /// default otherwise.
    pub open spec fn effective_browser(self, default_browser: Seq<char>) -> Seq<char> {
        match self.browser {
            Some(b) => b,
            None => default_browser,
        }
    }
}

impl UrlConfig {
    /// A bookmark for `url`, opened by `browser` where one is given.
    pub fn new(url: String, browser: Option<String>) -> (out: UrlConfig)
        ensures
            out.url == url,
            out.browser == browser,
    {
        UrlConfig { url, browser }
    }

    /// The browser that opens this bookmark.
    pub fn effective_browser<'a>(&'a self, default_browser: &'a str) -> (out: &'a str)
        ensures
            out@ == self@.effective_browser(default_browser@),
    {
        match &self.browser {
            Some(b) => b.as_str(),
            None => default_browser,
        }
    }
}

} // verus!
