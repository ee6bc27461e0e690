//! The rendered page: document structure, asset paths, and the spliced
//! configuration.

use swagger_ui::SwaggerUi;
use swagger_ui::SwaggerUiStaticFile;
use swagger_ui::Url;

#[test]
fn serve_renders_the_expected_page() {
    let mut ui = SwaggerUi::new();
    ui.config().urls(vec![Url::from_path("/api.json")]);
    let html = ui.serve();

    let expected = String::new() + r##"<!DOCTYPE html>
<html lang="en">
<head>
    <meta charset="UTF-8">
    <title>Swagger UI</title>
    <link rel="stylesheet" type="text/css" href="./swagger-ui.css" />
    <link rel="stylesheet" type="text/css" href="./index.css" />
</head>
<body>
<div id="swagger-ui"></div>
<script src="./swagger-ui-bundle.js" charset="UTF-8"></script>
<script src="./swagger-ui-standalone-preset.js" charset="UTF-8"></script>
<script>
    window.onload = () => {
"## + "        " + r##"
window.ui = SwaggerUIBundle({
    "dom_id": "#swagger-ui",
  "url": "/api.json",
  "deepLinking": true,
  "layout": "StandaloneLayout",
  presets: [
    SwaggerUIBundle.presets.apis,
    SwaggerUIStandalonePreset
  ],
  plugins: [
    SwaggerUIBundle.plugins.DownloadUrl
  ],
});
    };
</script>
</body>
</html>
"##;

    assert_eq!(expected, html);

    // One anchor div; the bundle script loads before the standalone preset;
    // the spliced url is a sibling of presets and plugins at the same depth.
    assert_eq!(html.matches("<div id=\"swagger-ui\">").count(), 1);
    let bundle = html.find("<script src=\"./swagger-ui-bundle.js\"").unwrap();
    let preset = html
        .find("<script src=\"./swagger-ui-standalone-preset.js\"")
        .unwrap();
    assert!(bundle < preset);
    assert!(html.contains("\n  \"url\": \"/api.json\","));
    assert!(html.contains("\n  presets: ["));
    assert!(html.contains("\n  plugins: ["));
}

#[test]
fn title_is_shown_in_the_rendered_page() {
    let mut ui = SwaggerUi::new();
    ui.title("My API Documentation");
    ui.config().urls(vec![Url::from_path("/api.json")]);
    let html = ui.serve();
    assert!(html.contains("<title>My API Documentation</title>"));
}

#[test]
fn overriding_one_path_leaves_the_other_five() {
    let before = SwaggerUi::static_files();
    let mut ui = SwaggerUi::new();
    ui.override_file_path(SwaggerUiStaticFile::Css, "/assets/swagger-ui.css".to_string());
    assert_eq!(ui.file_paths.css, "/assets/swagger-ui.css".to_string());
    assert_eq!(ui.file_paths.index_css, "./index.css".to_string());
    assert_eq!(ui.file_paths.js, "./swagger-ui-bundle.js".to_string());
    assert_eq!(
        ui.file_paths.standalone_preset_js,
        "./swagger-ui-standalone-preset.js".to_string()
    );
    assert_eq!(ui.file_paths.favicon16, "./favicon-16x16.png".to_string());
    assert_eq!(ui.file_paths.favicon32, "./favicon-32x32.png".to_string());
    let after = SwaggerUi::static_files();
    assert_eq!(before, after);

    let html = ui.serve();
    assert!(html.contains("href=\"/assets/swagger-ui.css\""));
    assert!(html.contains("href=\"./index.css\""));
}

#[test]
fn static_files_cover_all_six_assets_in_order() {
    let files = SwaggerUi::static_files();
    let ids: Vec<SwaggerUiStaticFile> = files.iter().map(|p| p.0).collect();
    assert_eq!(ids, SwaggerUiStaticFile::all());
}

#[test]
fn file_names_are_canonical() {
    assert_eq!(SwaggerUiStaticFile::Css.file_name(), "swagger-ui.css");
    assert_eq!(SwaggerUiStaticFile::IndexCss.file_name(), "index.css");
    assert_eq!(SwaggerUiStaticFile::Js.file_name(), "swagger-ui-bundle.js");
    assert_eq!(
        SwaggerUiStaticFile::StandalonePresetJs.file_name(),
        "swagger-ui-standalone-preset.js"
    );
    assert_eq!(SwaggerUiStaticFile::Favicon16.file_name(), "favicon-16x16.png");
    assert_eq!(SwaggerUiStaticFile::Favicon32.file_name(), "favicon-32x32.png");
}

#[test]
fn default_paths_point_beside_the_page() {
    assert_eq!(SwaggerUiStaticFile::Css.default_path(), "./swagger-ui.css".to_string());
    assert_eq!(
        SwaggerUiStaticFile::Favicon32.default_path(),
        "./favicon-32x32.png".to_string()
    );
}
