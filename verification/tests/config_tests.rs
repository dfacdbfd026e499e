use ollama_cli::config::{default_url, normalize_base_url, Config};
use ollama_cli::config_cmd::{execute, is_valid_url, ConfigAction, ConfigError, ConfigOutcome};
use ollama_cli::profiles::ProfileMap;

fn config_with(profiles: &[(&str, &str)], active: Option<&str>) -> Config {
    let mut urls = ProfileMap::new();
    for (n, u) in profiles {
        urls.insert(n.to_string(), u.to_string());
    }
    Config {
        default_url: "http://localhost:11434".to_string(),
        active_profile: active.map(|s| s.to_string()),
        urls,
    }
}

fn names(m: &ProfileMap) -> Vec<String> {
    (0..m.len()).map(|i| m.name_at(i).clone()).collect()
}

#[test]
fn default_config_uses_default_url() {
    let c = Config::default();
    assert_eq!(c.default_url, default_url());
    assert_eq!(default_url(), "https://ollama.local.skint007.dev");
    assert!(c.active_profile.is_none());
    assert!(c.urls.is_empty());
    assert_eq!(c.resolve_url(None), default_url());
}

#[test]
fn resolve_url_precedence() {
    let c = config_with(&[("local", "http://localhost:11434"), ("prod", "https://prod.example")], Some("prod"));
    assert_eq!(c.resolve_url(Some("http://override:1")), "http://override:1");
    assert_eq!(c.resolve_url(None), "https://prod.example");
    let missing = config_with(&[("local", "http://localhost:11434")], Some("gone"));
    assert_eq!(missing.resolve_url(None), "http://localhost:11434");
    let none = config_with(&[("local", "http://a")], None);
    assert_eq!(none.resolve_url(None), "http://localhost:11434");
}

#[test]
fn resolve_url_missing_active_profile_falls_back() {
    let c = Config {
        default_url: "http://default:1".to_string(),
        active_profile: Some("gone".to_string()),
        urls: ProfileMap::new(),
    };
    assert_eq!(c.resolve_url(None), "http://default:1");
}

#[test]
fn profile_map_keeps_names_sorted_and_unique() {
    let mut m = ProfileMap::new();
    m.insert("zeta".to_string(), "http://z".to_string());
    m.insert("alpha".to_string(), "http://a".to_string());
    m.insert("mid".to_string(), "http://m".to_string());
    m.insert("alpha".to_string(), "http://a2".to_string());
    assert_eq!(names(&m), vec!["alpha", "mid", "zeta"]);
    assert_eq!(m.get("alpha").map(|s| s.as_str()), Some("http://a2"));
    assert!(m.contains_key("mid"));
    m.remove("mid");
    assert!(!m.contains_key("mid"));
    assert_eq!(m.get("mid"), None);
    assert_eq!(names(&m), vec!["alpha", "zeta"]);
    m.remove("absent");
    assert_eq!(m.len(), 2);
}

#[test]
fn valid_urls() {
    assert!(is_valid_url("http://x"));
    assert!(is_valid_url("https://x"));
    assert!(!is_valid_url("ftp://x"));
    assert!(!is_valid_url("localhost:11434"));
}

#[test]
fn add_first_profile_becomes_active() {
    let mut c = config_with(&[], None);
    let r = execute(
        Some(ConfigAction::Add { name: "prod".to_string(), url: "https://prod.example".to_string() }),
        &mut c,
    );
    match r {
        Ok(ConfigOutcome::Added { name, replaced, activated }) => {
            assert_eq!(name, "prod");
            assert!(!replaced);
            assert!(activated);
        }
        _ => panic!("expected Added"),
    }
    assert_eq!(c.active_profile.as_deref(), Some("prod"));
    assert_eq!(c.default_url, "https://prod.example");
    assert_eq!(c.resolve_url(None), "https://prod.example");
}

#[test]
fn add_second_profile_keeps_active() {
    let mut c = config_with(&[("a", "http://a")], Some("a"));
    let r = execute(Some(ConfigAction::Add { name: "a".to_string(), url: "http://a2".to_string() }), &mut c);
    match r {
        Ok(ConfigOutcome::Added { replaced, activated, .. }) => {
            assert!(replaced);
            assert!(!activated);
        }
        _ => panic!("expected Added"),
    }
    assert_eq!(c.urls.get("a").map(|s| s.as_str()), Some("http://a2"));
    assert_eq!(c.active_profile.as_deref(), Some("a"));
}

#[test]
fn add_rejects_invalid_url() {
    let mut c = config_with(&[], None);
    let r = execute(Some(ConfigAction::Add { name: "x".to_string(), url: "example.com".to_string() }), &mut c);
    assert!(matches!(r, Err(ConfigError::InvalidUrl)));
    assert!(c.urls.is_empty());
}

#[test]
fn use_profile_switches_url() {
    let mut c = config_with(&[("a", "http://a"), ("b", "http://b")], Some("a"));
    let r = execute(Some(ConfigAction::Use { name: "b".to_string() }), &mut c);
    match r {
        Ok(ConfigOutcome::Switched { name, url }) => {
            assert_eq!(name, "b");
            assert_eq!(url, "http://b");
        }
        _ => panic!("expected Switched"),
    }
    assert_eq!(c.active_profile.as_deref(), Some("b"));
    assert_eq!(c.default_url, "http://b");
    assert_eq!(c.resolve_url(None), "http://b");
}

#[test]
fn use_unknown_profile_lists_available() {
    let mut c = config_with(&[("b", "http://b"), ("a", "http://a")], None);
    let r = execute(Some(ConfigAction::Use { name: "zz".to_string() }), &mut c);
    match r {
        Err(ConfigError::ProfileNotFound { name, available }) => {
            assert_eq!(name, "zz");
            assert_eq!(available, vec!["a".to_string(), "b".to_string()]);
        }
        _ => panic!("expected ProfileNotFound"),
    }
}

#[test]
fn remove_profile_rules() {
    let mut c = config_with(&[("a", "http://a"), ("b", "http://b")], Some("a"));
    assert!(matches!(
        execute(Some(ConfigAction::Remove { name: "a".to_string() }), &mut c),
        Err(ConfigError::ActiveProfile { .. })
    ));
    assert!(matches!(
        execute(Some(ConfigAction::Remove { name: "zz".to_string() }), &mut c),
        Err(ConfigError::UnknownProfile { .. })
    ));
    let before = c.resolve_url(None);
    match execute(Some(ConfigAction::Remove { name: "b".to_string() }), &mut c) {
        Ok(ConfigOutcome::Removed { name }) => assert_eq!(name, "b"),
        _ => panic!("expected Removed"),
    }
    assert!(!c.urls.contains_key("b"));
    assert_eq!(c.resolve_url(None), before);
}

#[test]
fn set_value_sets_default_url() {
    let mut c = config_with(&[], None);
    match execute(Some(ConfigAction::SetValue { key: "url".to_string(), value: "http://x:1".to_string() }), &mut c) {
        Ok(ConfigOutcome::UrlSet { url }) => assert_eq!(url, "http://x:1"),
        _ => panic!("expected UrlSet"),
    }
    assert_eq!(c.default_url, "http://x:1");
    match execute(Some(ConfigAction::SetValue { key: "OLLAMA_URL".to_string(), value: "http://y".to_string() }), &mut c) {
        Ok(ConfigOutcome::UrlSet { .. }) => {}
        _ => panic!("expected UrlSet"),
    }
    assert_eq!(c.default_url, "http://y");
    assert!(matches!(
        execute(Some(ConfigAction::SetValue { key: "color".to_string(), value: "red".to_string() }), &mut c),
        Err(ConfigError::UnknownKey { .. })
    ));
}

#[test]
fn show_and_list() {
    let mut c = config_with(&[("b", "http://b"), ("a", "http://a")], Some("b"));
    match execute(None, &mut c) {
        Ok(ConfigOutcome::Show { active_profile, active_url, profiles }) => {
            assert_eq!(active_profile, "b");
            assert_eq!(active_url, "http://b");
            assert_eq!(profiles.len(), 2);
            assert_eq!(profiles[0].name, "a");
            assert!(!profiles[0].active);
            assert_eq!(profiles[1].name, "b");
            assert!(profiles[1].active);
        }
        _ => panic!("expected Show"),
    }
    let mut d = config_with(&[], None);
    match execute(Some(ConfigAction::Show), &mut d) {
        Ok(ConfigOutcome::Show { active_profile, .. }) => assert_eq!(active_profile, "default"),
        _ => panic!("expected Show"),
    }
    match execute(Some(ConfigAction::List), &mut c) {
        Ok(ConfigOutcome::List { profiles }) => assert_eq!(profiles.len(), 2),
        _ => panic!("expected List"),
    }
    assert!(matches!(execute(Some(ConfigAction::Reset), &mut c), Ok(ConfigOutcome::Reset)));
}

#[test]
fn legacy_configuration_is_migrated() {
    let text = "# comment\nOLLAMA_URL=\"http://legacy:11434\"\nOLLAMA_URL_home=\"http://home:11434\"\n\nOLLAMA_URL_work=http://work:1\nOLLAMA_CURRENT=\"work\"\nOTHER=1\n";
    let c = Config::parse_legacy(text);
    assert_eq!(c.default_url, "http://legacy:11434");
    assert_eq!(c.active_profile.as_deref(), Some("work"));
    assert_eq!(c.urls.get("home").map(|s| s.as_str()), Some("http://home:11434"));
    assert_eq!(c.urls.get("work").map(|s| s.as_str()), Some("http://work:1"));
    assert_eq!(c.resolve_url(None), "http://work:1");
}

#[test]
fn legacy_empty_file_gives_defaults() {
    let c = Config::parse_legacy("");
    assert_eq!(c.default_url, default_url());
    assert!(c.urls.is_empty());
}

#[test]
fn base_url_loses_trailing_slashes() {
    assert_eq!(normalize_base_url("http://x:1/"), "http://x:1");
    assert_eq!(normalize_base_url("http://x:1///"), "http://x:1");
    assert_eq!(normalize_base_url("http://x:1"), "http://x:1");
}

#[test]
fn config_error_messages() {
    assert_eq!(ConfigError::InvalidUrl.message(), "URL must start with http:// or https://");
    assert_eq!(ConfigError::UnknownProfile { name: "x".to_string() }.message(), "URL 'x' not found");
    assert_eq!(
        ConfigError::ProfileNotFound { name: "y".to_string(), available: vec![] }.message(),
        "URL 'y' not found"
    );
    assert_eq!(
        ConfigError::ActiveProfile { name: "p".to_string() }.message(),
        "Cannot remove active URL 'p'\nSwitch to another URL first with: ollama-cli config use <name>"
    );
    assert_eq!(
        ConfigError::UnknownKey { key: "k".to_string() }.message(),
        "Unknown configuration key 'k'\nAvailable keys: OLLAMA_URL, url"
    );
}

#[test]
fn add_then_use_connects_to_the_new_profile() {
    let mut c = config_with(&[("a", "http://a")], Some("a"));
    execute(Some(ConfigAction::Add { name: "b".to_string(), url: "http://b:2".to_string() }), &mut c).ok();
    assert_eq!(c.resolve_url(None), "http://a");
    assert_eq!(c.urls.get("a").map(|s| s.as_str()), Some("http://a"));
    execute(Some(ConfigAction::Use { name: "b".to_string() }), &mut c).ok();
    assert_eq!(c.resolve_url(None), "http://b:2");
}
