use vstd::prelude::*;
use crate::bookmark_manager::{
    opened, plain_launch, prompted, query_launch, resolved, searched, QUERY_PLACEHOLDER,
    QUERY_SEPARATOR,
};
use crate::config::ConfigView;
use crate::error::ErrorView;
use crate::label::candidate;
use crate::launch::LaunchView;
use crate::name_map::{has_key, index_of, is_insertion, lookup, lookup_at, sorted};
use crate::picker::PickerOutputView;
use crate::text::{contains, join, replace_all_absent};
use crate::url_config::UrlConfigView;

verus! {

/// After `value` was put under `key`, the map holds `value` under `key` and
/// under every other key what it held before.
pub proof fn insertion_lookup<T>(
    before: Seq<(Seq<char>, T)>,
    after: Seq<(Seq<char>, T)>,
    key: Seq<char>,
    value: T,
    other: Seq<char>,
)
    requires
        sorted(before),
        sorted(after),
        is_insertion(before, after, key, value),
    ensures
        lookup(after, key) == Some(value),
        other != key ==> lookup(after, other) == lookup(before, other),
{
    if has_key(before, key) {
        lookup_at(after, index_of(before, key));
        if other != key && has_key(before, other) {
            lookup_at(after, index_of(before, other));
        }
    } else {
        let p = choose|p: int|
            0 <= p <= before.len() && after == #[trigger] before.insert(p, (key, value));
        lookup_at(after, p);
        if other != key && has_key(before, other) {
            let j = index_of(before, other);
            lookup_at(
                after,
                if j < p {
                    j
                } else {
                    j + 1
                },
            );
        }
    }
}

/// The name of a bookmark stands for that bookmark.
pub proof fn name_finds_bookmark(config: ConfigView, i: int)
    requires
        config.wf(),
        0 <= i < config.bookmarks.len(),
    ensures
        config.find(config.bookmarks[i].0) == Some(config.bookmarks[i].1),
{
    lookup_at(config.bookmarks, i);
}

/// An alias that is not itself the name of a bookmark stands for the bookmark
/// that it names, and for none where it names none.
pub proof fn alias_finds_what_it_names(config: ConfigView, k: int)
    requires
        config.wf(),
        config.aliases is Some,
        0 <= k < config.aliases->0.len(),
        config.from_name(config.aliases->0[k].0) is None,
    ensures
        config.find(config.aliases->0[k].0) == config.from_name(config.aliases->0[k].1),
{
    lookup_at(config.aliases->0, k);
}

/// A token that is the name of a bookmark resolves to that bookmark, where
/// the token is its own candidate: it ends in no label tail and has no white
/// space around it.
pub proof fn name_resolves(config: ConfigView, i: int)
    requires
        config.wf(),
        0 <= i < config.bookmarks.len(),
        candidate(config.bookmarks[i].0) == Some(config.bookmarks[i].0),
    ensures
        resolved(config, config.bookmarks[i].0) == Ok::<UrlConfigView, ErrorView>(
            config.bookmarks[i].1,
        ),
{
    name_finds_bookmark(config, i);
}

/// A token that is an alias of a bookmark resolves to that bookmark, where
/// the token is its own candidate and no bookmark is named like it.
pub proof fn alias_resolves(config: ConfigView, k: int)
    requires
        config.wf(),
        config.aliases is Some,
        0 <= k < config.aliases->0.len(),
        config.from_name(config.aliases->0[k].0) is None,
        config.from_name(config.aliases->0[k].1) is Some,
        candidate(config.aliases->0[k].0) == Some(config.aliases->0[k].0),
    ensures
        resolved(config, config.aliases->0[k].0) == Ok::<UrlConfigView, ErrorView>(
            config.from_name(config.aliases->0[k].1)->0,
        ),
{
    alias_finds_what_it_names(config, k);
}

/// A token that is an alias of a name without a bookmark is not found, where
/// the token is its own candidate and no bookmark is named like it.
pub proof fn dangling_alias_is_not_found(config: ConfigView, k: int)
    requires
        config.wf(),
        config.aliases is Some,
        0 <= k < config.aliases->0.len(),
        config.from_name(config.aliases->0[k].0) is None,
        config.from_name(config.aliases->0[k].1) is None,
        candidate(config.aliases->0[k].0) == Some(config.aliases->0[k].0),
    ensures
        resolved(config, config.aliases->0[k].0) == Err::<UrlConfigView, ErrorView>(
            ErrorView::NotFound(config.aliases->0[k].0),
        ),
{
    alias_finds_what_it_names(config, k);
}

/// Two tokens with one candidate resolve alike: to the same bookmark, or each
/// to the error that names it.
pub proof fn same_candidate_resolves_alike(config: ConfigView, one: Seq<char>, other: Seq<char>)
    requires
        candidate(one) == candidate(other),
    ensures
        match resolved(config, one) {
            Ok(entry) => resolved(config, other) == Ok::<UrlConfigView, ErrorView>(entry),
            Err(ErrorView::NotFound(_)) => resolved(config, other) == Err::<
                UrlConfigView,
                ErrorView,
            >(ErrorView::NotFound(other)),
            Err(e) => resolved(config, other) == Err::<UrlConfigView, ErrorView>(e),
        },
{
}

/// For a bookmark whose URL holds no placeholder, a search is a plain
/// opening, whatever the words.
pub proof fn query_launch_without_placeholder(
    config: ConfigView,
    entry: UrlConfigView,
    words: Seq<Seq<char>>,
)
    requires
        !contains(entry.url, QUERY_PLACEHOLDER@),
    ensures
        query_launch(config, entry, words) == plain_launch(config, entry),
{
    replace_all_absent(
        entry.url,
        QUERY_PLACEHOLDER@,
        join(words, QUERY_SEPARATOR@),
    );
}

/// A search comes to what opening its first word comes to, where the
/// bookmark that this word asks for holds no placeholder in its URL.
pub proof fn search_without_placeholder(config: ConfigView, args: Seq<Seq<char>>)
    requires
        args.len() > 0,
        match resolved(config, args[0]) {
            Ok(entry) => !contains(entry.url, QUERY_PLACEHOLDER@),
            Err(_) => true,
        },
    ensures
        searched(config, args) == opened(config, args[0]),
{
    match resolved(config, args[0]) {
        Ok(entry) => {
            query_launch_without_placeholder(config, entry, args.skip(1));
        },
        Err(_) => {},
    }
}

/// After the user has left the picker, nothing is opened and nothing fails.
pub proof fn abort_opens_nothing(config: ConfigView, output: PickerOutputView)
    requires
        output.is_abort,
    ensures
        prompted(config, Some(output)) == Ok::<Option<LaunchView>, ErrorView>(None),
{
}

} // verus!
