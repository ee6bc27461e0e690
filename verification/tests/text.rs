//! Field presence, escaping, numbers, and the textual splice itself.

use swagger_ui::oauth;
use swagger_ui::serialize::format_config;
use swagger_ui::Config;
use swagger_ui::Url;

const PLACEHOLDER: &str = "{{config}}";

#[test]
fn unset_optional_fields_are_omitted() {
    let body = format_config(&Config::new(), PLACEHOLDER);
    let expected = "  \"dom_id\": \"#swagger-ui\",\n  \"deepLinking\": true,\n  \"layout\": \"StandaloneLayout\"";
    assert_eq!(expected, &body);
}

#[test]
fn oauth_configuration_is_never_emitted() {
    let mut plain = Config::new();
    plain.urls(vec![Url::from_path("/a.json")]);
    let mut with_oauth = Config::new();
    with_oauth.urls(vec![Url::from_path("/a.json")]);
    with_oauth.oauth_config(oauth::Config::new());
    assert_eq!(
        format_config(&plain, PLACEHOLDER),
        format_config(&with_oauth, PLACEHOLDER)
    );
    assert!(!format_config(&with_oauth, PLACEHOLDER).contains("oauth"));
}

#[test]
fn strings_are_escaped_as_json_requires() {
    let mut config = Config::new();
    config.config_url("a\"b\\c\nd\te\rf\u{8}g\u{c}h");
    let body = format_config(&config, PLACEHOLDER);
    assert!(body.contains("  \"configUrl\": \"a\\\"b\\\\c\\nd\\te\\rf\\bg\\fh\","));
}

#[test]
fn control_characters_get_unicode_escapes() {
    let mut config = Config::new();
    config.config_url("\u{1}\u{1f}");
    let body = format_config(&config, PLACEHOLDER);
    assert!(body.contains("  \"configUrl\": \"\\u0001\\u001f\","));
}

#[test]
fn depths_render_as_signed_decimals() {
    let mut config = Config::new();
    config.default_models_expand_depth(isize::MIN);
    config.default_model_expand_depth(0);
    config.max_displayed_tags(4294967295);
    let body = format_config(&config, PLACEHOLDER);
    let expected_min = format!("  \"defaultModelsExpandDepth\": {},", isize::MIN);
    assert!(body.contains(&expected_min));
    assert!(body.contains("  \"defaultModelExpandDepth\": 0,"));
    assert!(body.contains("  \"maxDisplayedTags\": 4294967295,"));
}

#[test]
fn empty_submit_methods_render_as_an_empty_array() {
    let mut config = Config::new();
    config.supported_submit_methods(Vec::new());
    let body = format_config(&config, PLACEHOLDER);
    assert!(body.contains("  \"supportedSubmitMethods\": [],"));
}

#[test]
fn every_placeholder_occurrence_is_replaced() {
    let config = Config::new();
    let body = format_config(&config, PLACEHOLDER);
    let twice = format_config(&config, "A{{config}}B{{config}}C");
    assert_eq!(twice, format!("A{}B{}C", body, body));
}

#[test]
fn basic_auth_serializes_username_then_password() {
    let mut config = Config::new();
    config.basic_auth(swagger_ui::BasicAuth {
        username: "admin".to_string(),
        password: "secret".to_string(),
    });
    let body = format_config(&config, PLACEHOLDER);
    assert!(body.contains(
        "  \"basicAuth\": {\n    \"username\": \"admin\",\n    \"password\": \"secret\"\n  }"
    ));
}
