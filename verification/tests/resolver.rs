//! The URL resolution rules: singular versus plural representation, the
//! primary document, and the labels of the selector list.

use swagger_ui::Config;
use swagger_ui::Url;

#[test]
fn single_unnamed_url_becomes_the_single_document() {
    let mut config = Config::new();
    config.urls(vec![Url::from_path("/a.json")]);
    assert_eq!(config.url, Some("/a.json".to_string()));
    assert!(config.urls.is_empty());
    assert_eq!(config.urls_primary_name, None);
}

#[test]
fn single_named_url_becomes_a_one_element_selector() {
    let mut config = Config::new();
    config.urls(vec![Url::new("A", "/a.json")]);
    assert_eq!(config.url, None);
    assert_eq!(config.urls.len(), 1);
    assert_eq!(config.urls[0].name, "A".to_string());
    assert_eq!(config.urls[0].url, "/a.json".to_string());
    assert_eq!(config.urls_primary_name, None);
}

#[test]
fn single_named_primary_url_sets_the_primary_name() {
    let mut config = Config::new();
    config.urls(vec![Url::with_primary("A", "/a.json", true)]);
    assert_eq!(config.url, None);
    assert_eq!(config.urls.len(), 1);
    assert_eq!(config.urls[0].name, "A".to_string());
    assert_eq!(config.urls[0].url, "/a.json".to_string());
    assert_eq!(config.urls_primary_name, Some("A".to_string()));
}

#[test]
fn single_unnamed_primary_url_keeps_the_empty_primary_name() {
    // The primary name is computed from the name before the name is tested
    // for emptiness, so a primary flag on an unnamed single URL pins the
    // empty string as the primary name.
    let mut config = Config::new();
    config.urls(vec![Url::with_primary("", "/a.json", true)]);
    assert_eq!(config.url, Some("/a.json".to_string()));
    assert!(config.urls.is_empty());
    assert_eq!(config.urls_primary_name, Some(String::new()));
}

#[test]
fn first_primary_flag_wins() {
    let mut config = Config::new();
    config.urls(vec![
        Url::with_primary("A", "/a.json", true),
        Url::with_primary("B", "/b.json", true),
    ]);
    assert_eq!(config.urls_primary_name, Some("A".to_string()));
}

#[test]
fn no_primary_flag_leaves_no_primary_name() {
    let mut config = Config::new();
    config.urls(vec![Url::new("A", "/a.json"), Url::new("B", "/b.json")]);
    assert_eq!(config.urls_primary_name, None);
}

#[test]
fn unnamed_urls_are_labelled_by_their_own_url() {
    let mut config = Config::new();
    config.urls(vec![Url::from_path("/a.json"), Url::from_path("/b.json")]);
    assert_eq!(config.url, None);
    assert_eq!(config.urls.len(), 2);
    assert_eq!(config.urls[0].name, "/a.json".to_string());
    assert_eq!(config.urls[0].url, "/a.json".to_string());
    assert_eq!(config.urls[1].name, "/b.json".to_string());
    assert_eq!(config.urls[1].url, "/b.json".to_string());
}

#[test]
fn resolving_preserves_order_and_length() {
    let mut config = Config::new();
    config.urls(vec![
        Url::new("C", "/c.json"),
        Url::from_path("/a.json"),
        Url::with_primary("B", "/b.json", true),
    ]);
    assert_eq!(config.urls.len(), 3);
    assert_eq!(config.urls[0].url, "/c.json".to_string());
    assert_eq!(config.urls[1].url, "/a.json".to_string());
    assert_eq!(config.urls[2].url, "/b.json".to_string());
    assert_eq!(config.urls_primary_name, Some("B".to_string()));
}

#[test]
fn zero_urls_leave_the_url_state_untouched() {
    let mut config = Config::new();
    config.urls(vec![Url::with_primary("A", "/a.json", true)]);
    config.urls(Vec::new());
    assert_eq!(config.url, None);
    assert_eq!(config.urls.len(), 1);
    assert_eq!(config.urls[0].name, "A".to_string());
    assert_eq!(config.urls_primary_name, Some("A".to_string()));
}

#[test]
fn resolving_again_overwrites_the_previous_url_state() {
    let mut config = Config::new();
    config.urls(vec![Url::from_path("/a.json")]);
    assert_eq!(config.url, Some("/a.json".to_string()));
    config.urls(vec![Url::from_path("/b.json"), Url::from_path("/c.json")]);
    assert_eq!(config.url, None);
    assert_eq!(config.urls.len(), 2);
    config.urls(vec![Url::from_path("/d.json")]);
    assert_eq!(config.url, Some("/d.json".to_string()));
    assert!(config.urls.is_empty());
    assert_eq!(config.urls_primary_name, None);
}

#[test]
fn resolving_touches_no_other_field() {
    let mut config = Config::new();
    config.config_url("http://config.example");
    config.filter(true);
    config.urls(vec![Url::from_path("/a.json"), Url::from_path("/b.json")]);
    assert_eq!(config.config_url, Some("http://config.example".to_string()));
    assert_eq!(config.filter, Some(true));
    assert_eq!(config.dom_id, Some("#swagger-ui".to_string()));
}
