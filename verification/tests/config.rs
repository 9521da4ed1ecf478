use bo::label::{strip_label, strip_match};
use bo::{Action, Args, Command, Config, Error, NameMap, Shell, UrlConfig};
use std::path::PathBuf;

fn names(map: &NameMap<String>) -> Vec<String> {
    (0..map.len()).map(|i| map.key(i).to_string()).collect()
}

#[test]
fn a_configuration_needs_a_default_browser() {
    assert_eq!(Config::new(String::new()).unwrap_err(), Error::EmptyDefaultBrowser);
    assert_eq!(
        Error::EmptyDefaultBrowser.message(),
        "The configuration names no default browser"
    );
}

#[test]
fn a_new_configuration_is_empty() {
    let config = Config::new("firefox".to_string()).unwrap();
    assert_eq!(config.default_browser(), "firefox");
    assert_eq!(config.bookmarks().len(), 0);
    assert!(config.aliases().is_none());
}

#[test]
fn a_map_keeps_its_names_in_order() {
    let mut map: NameMap<String> = NameMap::new();
    for name in ["m", "b", "z", "a", "ma", "B", ""] {
        map.insert(name.to_string(), name.to_uppercase());
    }
    assert_eq!(names(&map), vec!["", "B", "a", "b", "m", "ma", "z"]);
    assert_eq!(map.value(3), "B");
    assert_eq!(map.get("ma"), Some(&"MA".to_string()));
    assert_eq!(map.get("mb"), None);
    assert_eq!(map.position("m"), Some(4));
    assert_eq!(map.position("n"), None);
}

#[test]
fn a_map_orders_names_as_strings_are_ordered() {
    let mut map: NameMap<String> = NameMap::new();
    let mut expected = vec!["é", "z", "a\u{10000}", "a\u{ffff}", "ab", "a", "Z"];
    for name in &expected {
        map.insert(name.to_string(), String::new());
    }
    expected.sort();
    assert_eq!(names(&map), expected);
}

#[test]
fn a_second_value_under_a_name_takes_the_place_of_the_first() {
    let mut map: NameMap<String> = NameMap::new();
    map.insert("a".to_string(), "1".to_string());
    map.insert("b".to_string(), "2".to_string());
    map.insert("a".to_string(), "3".to_string());
    assert_eq!(map.len(), 2);
    assert_eq!(map.get("a"), Some(&"3".to_string()));
    assert_eq!(map.get("b"), Some(&"2".to_string()));
}

#[test]
fn bookmarks_and_aliases_are_kept_apart() {
    let mut config = Config::new("firefox".to_string()).unwrap();
    config.add_bookmark("x".to_string(), UrlConfig::new("https://x.example.com".to_string(), None));
    config.add_alias("y".to_string(), "x".to_string());
    config.add_bookmark("x".to_string(), UrlConfig::new("https://x.example.org".to_string(), None));
    assert_eq!(config.bookmarks().len(), 1);
    assert_eq!(config.bookmarks().get("x").unwrap().url, "https://x.example.org");
    assert!(config.bookmarks().get("y").is_none());
    let aliases = config.aliases().unwrap();
    assert_eq!(aliases.len(), 1);
    assert_eq!(aliases.get("y"), Some(&"x".to_string()));
}

#[test]
fn the_browser_of_a_bookmark_goes_before_the_default() {
    let plain = UrlConfig::new("https://a".to_string(), None);
    let own = UrlConfig::new("https://a".to_string(), Some("chromium".to_string()));
    assert_eq!(plain.effective_browser("firefox"), "firefox");
    assert_eq!(own.effective_browser("firefox"), "chromium");
}

#[test]
fn the_tail_of_a_label_is_taken_off() {
    assert_eq!(strip_label("gh: https://github.com (in firefox)"), Ok("gh".to_string()));
    assert_eq!(strip_label(" gh : http://x (in w_1)"), Ok(" gh ".to_string()));
    assert_eq!(strip_label("gh"), Ok("gh".to_string()));
    assert_eq!(strip_label("gh: https://github.com (in firefox) "), Ok("gh: https://github.com (in firefox) ".to_string()));
    assert_eq!(strip_label("gh: http (in firefox)"), Ok("gh: http (in firefox)".to_string()));
}

#[test]
fn a_match_of_any_pattern_is_taken_off_once() {
    assert_eq!(strip_match("b+", "abbabb"), Ok("aabb".to_string()));
    assert_eq!(strip_match("x", "abc"), Ok("abc".to_string()));
}

#[test]
fn a_pattern_that_is_no_regular_expression_is_an_error() {
    assert_eq!(strip_match("(", "abc"), Err(Error::Pattern("(".to_string())));
    assert_eq!(Error::Pattern("(".to_string()).message(), "Invalid pattern: (");
}

fn words(list: &[&str]) -> Option<Vec<String>> {
    Some(list.iter().map(|w| w.to_string()).collect())
}

fn action(args: Option<Vec<String>>, command: Option<Command>) -> Action {
    Args { args, config: None, command }.plan().1
}

#[test]
fn a_run_without_words_asks_the_picker() {
    assert!(matches!(action(None, None), Action::Prompt));
    assert!(matches!(action(words(&[]), None), Action::Prompt));
}

#[test]
fn a_run_with_one_word_opens_it() {
    match action(words(&["gh"]), None) {
        Action::Open(name) => assert_eq!(name, "gh"),
        other => panic!("{:?}", other),
    }
}

#[test]
fn a_run_with_more_words_searches() {
    match action(words(&["s", "a", "b"]), None) {
        Action::Search(args) => assert_eq!(args, vec!["s", "a", "b"]),
        other => panic!("{:?}", other),
    }
}

#[test]
fn a_subcommand_goes_before_the_words() {
    let command = Command::GenerateCompletion { shell: Shell::Fish, path: "~/bo.fish".to_string() };
    match action(words(&["gh"]), Some(command)) {
        Action::GenerateCompletion { path } => assert_eq!(path, "~/bo.fish"),
        other => panic!("{:?}", other),
    }
}

#[test]
fn the_plan_hands_the_path_of_the_configuration_on() {
    let args = Args { args: None, config: Some(PathBuf::from("/etc/bo.toml")), command: None };
    assert_eq!(args.plan().0, Some(PathBuf::from("/etc/bo.toml")));
    assert_eq!(bo::cli::DEFAULT_COMPLETION_PATH, "~/.config/fish/completions/bo.fish");
}
