use bo::{BookmarkManager, Config, Error, UrlConfig};
use std::path::PathBuf;

fn entry(url: &str, browser: Option<&str>) -> UrlConfig {
    UrlConfig::new(url.to_string(), browser.map(|b| b.to_string()))
}

fn manager() -> BookmarkManager {
    let mut config = Config::new("firefox".to_string()).unwrap();
    config.add_bookmark("gh".to_string(), entry("https://github.com", None));
    config.add_bookmark("docs".to_string(), entry("https://docs.rs", Some("chromium")));
    config.add_bookmark("files".to_string(), entry("ftp://files.example.com", None));
    config.add_bookmark("mail".to_string(), entry("https://mail.example.com", Some("google-chrome")));
    config.add_alias("g".to_string(), "gh".to_string());
    config.add_alias("lost".to_string(), "nowhere".to_string());
    config.add_alias("docs".to_string(), "gh".to_string());
    BookmarkManager::new(PathBuf::from("/tmp/bo/config.toml"), config)
}

#[test]
fn a_name_resolves_to_its_bookmark() {
    let m = manager();
    let found = m.get_url_config("gh").unwrap();
    assert_eq!(found.url, "https://github.com");
    assert_eq!(found.browser, None);
    let found = m.get_url_config("docs").unwrap();
    assert_eq!(found.url, "https://docs.rs");
    assert_eq!(found.browser, Some("chromium".to_string()));
}

#[test]
fn an_alias_resolves_to_the_bookmark_it_names() {
    let m = manager();
    let found = m.get_url_config("g").unwrap();
    assert_eq!(found.url, "https://github.com");
    assert_eq!(m.get_url_config_from_alias("g").unwrap().url, "https://github.com");
    assert!(m.get_url_config_from_name("g").is_none());
}

#[test]
fn a_name_goes_before_an_alias_spelled_alike() {
    let m = manager();
    assert_eq!(m.get_url_config("docs").unwrap().url, "https://docs.rs");
    assert_eq!(m.get_url_config_from_alias("docs").unwrap().url, "https://github.com");
}

#[test]
fn a_dangling_alias_is_not_found() {
    let m = manager();
    assert_eq!(m.get_url_config("lost").unwrap_err(), Error::NotFound("lost".to_string()));
    assert!(m.get_url_config_from_alias("lost").is_none());
    assert!(m.find("lost").is_none());
}

#[test]
fn an_unknown_token_is_not_found_and_named_as_given() {
    let m = manager();
    assert_eq!(m.get_url_config(" nope ").unwrap_err(), Error::NotFound(" nope ".to_string()));
    assert_eq!(m.open("nope").unwrap_err().message(), "Bookmark not found: nope");
}

#[test]
fn names_are_case_sensitive() {
    let m = manager();
    assert!(m.get_url_config("GH").is_err());
    assert!(m.get_url_config_from_name("Gh").is_none());
}

#[test]
fn white_space_around_a_token_is_dropped() {
    let m = manager();
    assert_eq!(m.get_url_config("  gh\t").unwrap().url, "https://github.com");
    assert_eq!(m.get_url_config("\n g ").unwrap().url, "https://github.com");
    assert!(m.find(" gh").is_none());
}

#[test]
fn a_picker_label_resolves_as_its_name() {
    let m = manager();
    let by_label = m.get_url_config("gh: https://github.com (in firefox)").unwrap();
    let by_name = m.get_url_config("gh").unwrap();
    assert_eq!(by_label.url, by_name.url);
    assert_eq!(by_label.browser, by_name.browser);
    let by_label = m.get_url_config("docs: https://docs.rs (in chromium)").unwrap();
    assert_eq!(by_label.url, "https://docs.rs");
}

#[test]
fn every_label_of_the_picker_with_a_plain_browser_resolves() {
    let m = manager();
    let request = m.prompt();
    let by_label = m.get_url_config(&request.items[0]).unwrap();
    assert_eq!(by_label.url, "https://docs.rs");
    let by_label = m.get_url_config(&request.items[2]).unwrap();
    assert_eq!(by_label.url, "https://github.com");
}

#[test]
fn a_label_keeps_its_tail_where_the_browser_is_no_word_or_the_url_no_http() {
    let m = manager();
    let token = "mail: https://mail.example.com (in google-chrome)";
    assert_eq!(m.get_url_config(token).unwrap_err(), Error::NotFound(token.to_string()));
    let token = "files: ftp://files.example.com (in firefox)";
    assert_eq!(m.get_url_config(token).unwrap_err(), Error::NotFound(token.to_string()));
}

#[test]
fn a_token_with_a_colon_and_http_that_is_no_label_is_left_alone() {
    let mut config = Config::new("firefox".to_string()).unwrap();
    config.add_bookmark("a: http".to_string(), entry("https://a.example.com", None));
    config.add_bookmark("b: https://x (in firefox) c".to_string(), entry("https://b.example.com", None));
    let m = BookmarkManager::new(PathBuf::from("config.toml"), config);
    assert_eq!(m.get_url_config("a: http").unwrap().url, "https://a.example.com");
    assert_eq!(
        m.get_url_config("b: https://x (in firefox) c").unwrap().url,
        "https://b.example.com"
    );
}

#[test]
fn the_label_tail_is_cut_at_its_leftmost_start() {
    let mut config = Config::new("firefox".to_string()).unwrap();
    config.add_bookmark("n".to_string(), entry("https://n.example.com", None));
    let m = BookmarkManager::new(PathBuf::from("config.toml"), config);
    assert_eq!(
        m.get_url_config("n: https://a: https://b (in w) (in firefox)").unwrap().url,
        "https://n.example.com"
    );
}

#[test]
fn the_manager_keeps_path_and_configuration() {
    let m = manager();
    assert_eq!(m.path, PathBuf::from("/tmp/bo/config.toml"));
    assert_eq!(m.default_browser(), "firefox");
    assert_eq!(m.bookmarks().len(), 4);
    assert_eq!(m.aliases().unwrap().len(), 3);
}
