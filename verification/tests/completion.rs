use bo::{generate_fish_completion, simplify_url, BookmarkManager, Config, Error, Shell, UrlConfig};
use std::path::PathBuf;
use std::str::FromStr;

const HEAD: &str = "# fish shell completions for bo command\n\
complete -c bo -f -n \"not __fish_seen_subcommand_from completion\"\n\
complete -c bo -f -n \"not __fish_seen_subcommand_from completion\" -a generate-completion -d \"command: Generate shell completion script\"\n";

fn line(word: &str, description: &str) -> String {
    format!(
        "complete -c bo -f -n \"not __fish_seen_subcommand_from completion\" -a \"{}\" -d \"{}\"\n",
        word, description
    )
}

fn manager(config: Config) -> BookmarkManager {
    BookmarkManager::new(PathBuf::from("config.toml"), config)
}

#[test]
fn simplify_drops_scheme_and_www() {
    assert_eq!(simplify_url("https://www.example.com/x"), "example.com/x");
    assert_eq!(simplify_url("http://example.com"), "example.com");
}

#[test]
fn simplify_leaves_a_bare_host_alone() {
    assert_eq!(simplify_url("example.com/path?q=1"), "example.com/path?q=1");
    assert_eq!(simplify_url(""), "");
}

#[test]
fn simplify_drops_every_www() {
    assert_eq!(simplify_url("https://www.a.com/?next=www.b.com"), "a.com/?next=b.com");
    assert_eq!(simplify_url("wwww.www.x"), "wx");
}

#[test]
fn simplify_drops_a_scheme_only_at_the_head() {
    assert_eq!(
        simplify_url("https://a.com/?next=https://b.com"),
        "a.com/?next=https://b.com"
    );
    assert_eq!(simplify_url("ftp://http://a.com"), "ftp://http://a.com");
}

#[test]
fn simplify_looks_for_the_secure_scheme_first() {
    assert_eq!(simplify_url("https://http://a.com"), "a.com");
    assert_eq!(simplify_url("http://https://a.com"), "https://a.com");
}

#[test]
fn simplify_finds_www_that_the_scheme_hid() {
    assert_eq!(simplify_url("http://www.www.a"), "a");
    assert_eq!(simplify_url("wwhttps://w.x"), "wwhttps://w.x");
}

#[test]
fn an_empty_configuration_gives_the_header_alone() {
    let got = generate_fish_completion(&manager(Config::new("firefox".to_string()).unwrap()));
    assert_eq!(got.script, HEAD);
    assert!(got.warnings.is_empty());
}

#[test]
fn bookmarks_and_aliases_are_offered_in_the_order_of_their_names() {
    let mut config = Config::new("firefox".to_string()).unwrap();
    config.add_bookmark("web".to_string(), UrlConfig::new("http://www.example.org/a".to_string(), None));
    config.add_bookmark(
        "gh".to_string(),
        UrlConfig::new("https://github.com".to_string(), Some("chromium".to_string())),
    );
    config.add_alias("w".to_string(), "web".to_string());
    config.add_alias("g".to_string(), "gh".to_string());
    let got = generate_fish_completion(&manager(config));
    let expected = format!(
        "{}{}{}{}{}",
        HEAD,
        line("gh", "github.com"),
        line("web", "example.org/a"),
        line("g", "github.com"),
        line("w", "example.org/a")
    );
    assert_eq!(got.script, expected);
    assert!(got.warnings.is_empty());
}

#[test]
fn a_dangling_alias_is_warned_of_and_left_out() {
    let mut config = Config::new("firefox".to_string()).unwrap();
    config.add_bookmark("gh".to_string(), UrlConfig::new("https://github.com".to_string(), None));
    config.add_bookmark("docs".to_string(), UrlConfig::new("https://www.docs.rs".to_string(), None));
    config.add_alias("g".to_string(), "gh".to_string());
    config.add_alias("old".to_string(), "gone".to_string());
    config.add_alias("d".to_string(), "docs".to_string());
    let got = generate_fish_completion(&manager(config));
    let expected = format!(
        "{}{}{}{}{}",
        HEAD,
        line("docs", "docs.rs"),
        line("gh", "github.com"),
        line("d", "docs.rs"),
        line("g", "github.com")
    );
    assert_eq!(got.script, expected);
    assert_eq!(
        got.warnings,
        vec!["Warning: alias 'old' points to a non-existent bookmark: 'gone'. Skipping.".to_string()]
    );
}

#[test]
fn every_dangling_alias_gets_its_own_warning() {
    let mut config = Config::new("firefox".to_string()).unwrap();
    config.add_alias("b".to_string(), "x".to_string());
    config.add_alias("a".to_string(), "y".to_string());
    let got = generate_fish_completion(&manager(config));
    assert_eq!(got.script, HEAD);
    assert_eq!(
        got.warnings,
        vec![
            "Warning: alias 'a' points to a non-existent bookmark: 'y'. Skipping.".to_string(),
            "Warning: alias 'b' points to a non-existent bookmark: 'x'. Skipping.".to_string(),
        ]
    );
}

#[test]
fn fish_is_the_one_shell() {
    assert_eq!(Shell::from_str("fish"), Ok(Shell::Fish));
    assert_eq!("fish".parse::<Shell>(), Ok(Shell::Fish));
    assert_eq!(Shell::Fish.name(), "fish");
}

#[test]
fn another_shell_is_refused_by_name() {
    assert_eq!(Shell::from_str("bash"), Err(Error::UnsupportedShell("bash".to_string())));
    assert_eq!(Shell::from_str("Fish"), Err(Error::UnsupportedShell("Fish".to_string())));
    assert_eq!("zsh".parse::<Shell>().unwrap_err().message(), "Unsupported shell: zsh");
}
