//! The serialized configuration, spliced into the bootstrap template, must
//! match the text the viewer's bundled script expects character for
//! character.

use swagger_ui::serialize::format_config;
use swagger_ui::Config;
use swagger_ui::SyntaxHighlight;
use swagger_ui::Url;

const TEST_INITIAL_CONFIG: &str = r"
window.ui = SwaggerUIBundle({
  {{config}},
  presets: [
    SwaggerUIBundle.presets.apis,
    SwaggerUIStandalonePreset
  ],
  plugins: [
    SwaggerUIBundle.plugins.DownloadUrl
  ],
});";

#[test]
fn format_swagger_config_json_single_url() {
    let expected = r##"
window.ui = SwaggerUIBundle({
    "dom_id": "#swagger-ui",
  "url": "/api-docs/openapi1.json",
  "deepLinking": true,
  "layout": "StandaloneLayout",
  presets: [
    SwaggerUIBundle.presets.apis,
    SwaggerUIStandalonePreset
  ],
  plugins: [
    SwaggerUIBundle.plugins.DownloadUrl
  ],
});"##;

    let formatted_config = format_config(
        Config::new().urls(vec![Url::from_path("/api-docs/openapi1.json")]),
        TEST_INITIAL_CONFIG,
    );

    assert_eq!(expected, &formatted_config);
}

#[test]
fn format_swagger_config_json_single_url_with_name() {
    let expected = r##"
window.ui = SwaggerUIBundle({
    "dom_id": "#swagger-ui",
  "urls": [
    {
      "name": "api-doc1",
      "url": "/api-docs/openapi1.json"
    }
  ],
  "deepLinking": true,
  "layout": "StandaloneLayout",
  presets: [
    SwaggerUIBundle.presets.apis,
    SwaggerUIStandalonePreset
  ],
  plugins: [
    SwaggerUIBundle.plugins.DownloadUrl
  ],
});"##;

    let formatted_config = format_config(
        Config::new().urls(vec![Url::new("api-doc1", "/api-docs/openapi1.json")]),
        TEST_INITIAL_CONFIG,
    );

    assert_eq!(expected, &formatted_config);
}

#[test]
fn format_swagger_config_json_single_url_primary() {
    let expected = r##"
window.ui = SwaggerUIBundle({
    "dom_id": "#swagger-ui",
  "urls.primaryName": "api-doc1",
  "urls": [
    {
      "name": "api-doc1",
      "url": "/api-docs/openapi1.json"
    }
  ],
  "deepLinking": true,
  "layout": "StandaloneLayout",
  presets: [
    SwaggerUIBundle.presets.apis,
    SwaggerUIStandalonePreset
  ],
  plugins: [
    SwaggerUIBundle.plugins.DownloadUrl
  ],
});"##;

    let formatted_config = format_config(
        Config::new().urls(vec![Url::with_primary(
            "api-doc1",
            "/api-docs/openapi1.json",
            true,
        )]),
        TEST_INITIAL_CONFIG,
    );

    assert_eq!(expected, &formatted_config);
}

#[test]
fn format_swagger_config_multiple_urls_with_primary() {
    let expected = r##"
window.ui = SwaggerUIBundle({
    "dom_id": "#swagger-ui",
  "urls.primaryName": "api-doc1",
  "urls": [
    {
      "name": "api-doc1",
      "url": "/api-docs/openapi1.json"
    },
    {
      "name": "api-doc2",
      "url": "/api-docs/openapi2.json"
    }
  ],
  "deepLinking": true,
  "layout": "StandaloneLayout",
  presets: [
    SwaggerUIBundle.presets.apis,
    SwaggerUIStandalonePreset
  ],
  plugins: [
    SwaggerUIBundle.plugins.DownloadUrl
  ],
});"##;

    let formatted_config = format_config(
        Config::new().urls(vec![
            Url::with_primary("api-doc1", "/api-docs/openapi1.json", true),
            Url::new("api-doc2", "/api-docs/openapi2.json"),
        ]),
        TEST_INITIAL_CONFIG,
    );

    assert_eq!(expected, &formatted_config);
}

#[test]
fn format_swagger_config_multiple_urls() {
    let expected = r##"
window.ui = SwaggerUIBundle({
    "dom_id": "#swagger-ui",
  "urls": [
    {
      "name": "/api-docs/openapi1.json",
      "url": "/api-docs/openapi1.json"
    },
    {
      "name": "/api-docs/openapi2.json",
      "url": "/api-docs/openapi2.json"
    }
  ],
  "deepLinking": true,
  "layout": "StandaloneLayout",
  presets: [
    SwaggerUIBundle.presets.apis,
    SwaggerUIStandalonePreset
  ],
  plugins: [
    SwaggerUIBundle.plugins.DownloadUrl
  ],
});"##;

    let formatted_config = format_config(
        Config::new().urls(vec![
            Url::from_path("/api-docs/openapi1.json"),
            Url::from_path("/api-docs/openapi2.json"),
        ]),
        TEST_INITIAL_CONFIG,
    );

    assert_eq!(expected, &formatted_config);
}

#[test]
fn format_swagger_config_with_multiple_fields() {
    let expected = r##"
window.ui = SwaggerUIBundle({
    "dom_id": "#another-el",
  "url": "/api-docs/openapi1.json",
  "queryConfigEnabled": true,
  "deepLinking": false,
  "displayOperationId": true,
  "defaultModelsExpandDepth": 1,
  "defaultModelExpandDepth": -1,
  "defaultModelRendering": "[\"example\"*]",
  "displayRequestDuration": true,
  "docExpansion": "[\"list\"*]",
  "filter": true,
  "maxDisplayedTags": 1,
  "showExtensions": true,
  "showCommonExtensions": true,
  "tryItOutEnabled": true,
  "requestSnippetsEnabled": true,
  "oauth2RedirectUrl": "http://auth",
  "showMutatedRequest": true,
  "supportedSubmitMethods": [
    "get"
  ],
  "validatorUrl": "none",
  "withCredentials": true,
  "persistAuthorization": true,
  "layout": "BaseLayout",
  presets: [
    SwaggerUIBundle.presets.apis,
    SwaggerUIStandalonePreset
  ],
  plugins: [
    SwaggerUIBundle.plugins.DownloadUrl
  ],
});"##;

    let formatted_config = format_config(
        Config::new()
            .urls(vec![Url::from_path("/api-docs/openapi1.json")])
            .deep_linking(false)
            .dom_id("#another-el")
            .default_model_expand_depth(-1)
            .default_model_rendering(r#"["example"*]"#)
            .default_models_expand_depth(1)
            .display_operation_id(true)
            .display_request_duration(true)
            .filter(true)
            .use_base_layout()
            .doc_expansion(r#"["list"*]"#)
            .max_displayed_tags(1)
            .oauth2_redirect_url("http://auth")
            .persist_authorization(true)
            .query_config_enabled(true)
            .request_snippets_enabled(true)
            .show_common_extensions(true)
            .show_extensions(true)
            .show_mutated_request(true)
            .supported_submit_methods(vec!["get".to_string()])
            .try_it_out_enabled(true)
            .validator_url("none")
            .with_credentials(true),
        TEST_INITIAL_CONFIG,
    );

    assert_eq!(expected, &formatted_config);
}

#[test]
fn format_swagger_config_with_syntax_highlight_default() {
    let expected = r##"
window.ui = SwaggerUIBundle({
    "dom_id": "#swagger-ui",
  "url": "/api-docs/openapi1.json",
  "deepLinking": true,
  "syntaxHighlight": {
    "activated": true
  },
  "layout": "StandaloneLayout",
  presets: [
    SwaggerUIBundle.presets.apis,
    SwaggerUIStandalonePreset
  ],
  plugins: [
    SwaggerUIBundle.plugins.DownloadUrl
  ],
});"##;

    let formatted_config = format_config(
        Config::new()
            .urls(vec![Url::from_path("/api-docs/openapi1.json")])
            .with_syntax_highlight(SyntaxHighlight::default()),
        TEST_INITIAL_CONFIG,
    );

    assert_eq!(expected, &formatted_config);
}

#[test]
fn format_swagger_config_with_syntax_highlight_on() {
    let expected = r##"
window.ui = SwaggerUIBundle({
    "dom_id": "#swagger-ui",
  "url": "/api-docs/openapi1.json",
  "deepLinking": true,
  "syntaxHighlight": {
    "activated": true
  },
  "layout": "StandaloneLayout",
  presets: [
    SwaggerUIBundle.presets.apis,
    SwaggerUIStandalonePreset
  ],
  plugins: [
    SwaggerUIBundle.plugins.DownloadUrl
  ],
});"##;

    let formatted_config = format_config(
        Config::new()
            .urls(vec![Url::from_path("/api-docs/openapi1.json")])
            .with_syntax_highlight(SyntaxHighlight::from_activated(true)),
        TEST_INITIAL_CONFIG,
    );

    assert_eq!(expected, &formatted_config);
}

#[test]
fn format_swagger_config_with_syntax_highlight_off() {
    let expected = r##"
window.ui = SwaggerUIBundle({
    "dom_id": "#swagger-ui",
  "url": "/api-docs/openapi1.json",
  "deepLinking": true,
  "syntaxHighlight": {
    "activated": false
  },
  "layout": "StandaloneLayout",
  presets: [
    SwaggerUIBundle.presets.apis,
    SwaggerUIStandalonePreset
  ],
  plugins: [
    SwaggerUIBundle.plugins.DownloadUrl
  ],
});"##;

    let formatted_config = format_config(
        Config::new()
            .urls(vec![Url::from_path("/api-docs/openapi1.json")])
            .with_syntax_highlight(SyntaxHighlight::from_activated(false)),
        TEST_INITIAL_CONFIG,
    );

    assert_eq!(expected, &formatted_config);
}

#[test]
fn format_swagger_config_with_syntax_highlight_default_with_theme() {
    let expected = r##"
window.ui = SwaggerUIBundle({
    "dom_id": "#swagger-ui",
  "url": "/api-docs/openapi1.json",
  "deepLinking": true,
  "syntaxHighlight": {
    "activated": true,
    "theme": "monokai"
  },
  "layout": "StandaloneLayout",
  presets: [
    SwaggerUIBundle.presets.apis,
    SwaggerUIStandalonePreset
  ],
  plugins: [
    SwaggerUIBundle.plugins.DownloadUrl
  ],
});"##;

    let formatted_config = format_config(
        Config::new()
            .urls(vec![Url::from_path("/api-docs/openapi1.json")])
            .with_syntax_highlight(SyntaxHighlight::default().theme("monokai")),
        TEST_INITIAL_CONFIG,
    );

    assert_eq!(expected, &formatted_config);
}
