use daemon_config::paths::{choose_config_dir, join, CONFIG_HOME_VARIABLE, PRODUCT_NAME};
use daemon_config::urls::canonical_url;
use daemon_config::{resolve_config_dir, SessionSettings};

fn some(text: &str) -> Option<String> {
    Some(text.to_string())
}

#[test]
fn joining_paths() {
    assert_eq!(join("/home/anna", ".config"), "/home/anna/.config");
    assert_eq!(join("/home/anna/", ".config"), "/home/anna/.config");
    assert_eq!(join("", "name"), "name");
    assert_eq!(join("/", "name"), "/name");
    assert_eq!(join("rel", ""), "rel/");
}

#[test]
fn the_config_dir_follows_the_chain() {
    assert_eq!(PRODUCT_NAME, "transmission-daemon");
    assert_eq!(CONFIG_HOME_VARIABLE, "TRANSMISSION_HOME");
    assert_eq!(choose_config_dir(some("/custom"), some("/etc/xdg"), some("/home/anna")), some("/custom"));
    assert_eq!(choose_config_dir(some(""), some("/etc/xdg"), None), some(""));
    assert_eq!(
        choose_config_dir(None, some("/home/anna/.config"), some("/home/anna")),
        some("/home/anna/.config/transmission-daemon")
    );
    assert_eq!(
        choose_config_dir(None, None, some("/home/anna")),
        some("/home/anna/.config/transmission-daemon")
    );
    assert_eq!(choose_config_dir(None, None, some("/")), some("/.config/transmission-daemon"));
    assert_eq!(choose_config_dir(None, None, None), None);
}

#[test]
fn the_environment_names_the_config_dir_as_it_stands() {
    assert_eq!(resolve_config_dir(some("/does/not/exist")), some("/does/not/exist"));
    assert_eq!(resolve_config_dir(some("relative dir/")), some("relative dir/"));
}

#[test]
fn the_platform_is_asked_without_failing() {
    if let Some(dir) = resolve_config_dir(None) {
        assert!(dir.ends_with(PRODUCT_NAME));
    }
}

#[test]
fn urls_come_in_canonical_form() {
    assert_eq!(canonical_url("HTTP://Example.COM"), some("http://example.com/"));
    assert_eq!(canonical_url("http://example.com:80/a/../b"), some("http://example.com/b"));
    assert_eq!(
        canonical_url("http://www.example.com/blocklist"),
        some("http://www.example.com/blocklist")
    );
    assert_eq!(canonical_url("not a url"), None);
    assert_eq!(canonical_url("/relative/path"), None);
    assert_eq!(canonical_url(""), None);
}

#[test]
fn fresh_settings_hold_the_defaults() {
    let settings = SessionSettings::default(some("/custom"), some("/home/anna/Downloads"));
    assert_eq!(settings.download_dir, some("/custom"));
    assert_eq!(settings.incomplete_dir, some("/home/anna/Downloads"));
    assert_eq!(settings.blocklist_url, "http://www.example.com/blocklist");
    let expected = SessionSettings::with_platform(
        some("/custom"),
        some("/home/anna/Downloads"),
        "http://www.example.com/blocklist".to_string(),
    );
    assert_eq!(settings, expected);
    assert_eq!(settings.first_violation(), None);
    assert!(settings.is_valid());
    let plain = SessionSettings::default(None, None);
    assert_eq!(plain.download_dir, resolve_config_dir(None));
    assert_eq!(plain.incomplete_dir, None);
    assert_eq!(plain.first_violation(), None);
    assert!(plain.is_valid());
}

#[test]
fn settings_are_valid_within_bounds_and_with_a_canonical_url() {
    let fresh = || SessionSettings::default(None, None);
    let mut settings = fresh();
    settings.alt_speed_time_end = 1440;
    assert!(!settings.is_valid());
    let mut settings = fresh();
    settings.blocklist_url = "HTTP://Example.COM".to_string();
    assert!(!settings.is_valid());
    settings.blocklist_url = "http://example.com/".to_string();
    assert!(settings.is_valid());
    settings.blocklist_url = "no url".to_string();
    assert!(!settings.is_valid());
}
