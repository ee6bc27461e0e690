//! Boilerplate for serving the Swagger UI documentation viewer from any web
//! framework: a registry of the viewer's static assets and the paths they are
//! served at, a typed model of the viewer's runtime configuration, and a
//! renderer that splices the configuration, serialized as JSON, into the HTML
//! page the viewer's bootstrap script expects.
//!
//! The serialized JSON and the rendered page must match the text the viewer's
//! bundled script was written against character for character, so the
//! serializer and the renderer carry exact contracts over the produced text.

pub mod assets;
pub mod config;
pub mod oauth;
pub mod serialize;
pub mod strutil;
pub mod url;

pub use assets::SwaggerUiStaticFile;
pub use config::{BasicAuth, Config, SyntaxHighlight};
pub use url::Url;

use vstd::prelude::*;

use crate::assets::{all_static_files, path_of, spec_default_path, FilePaths, FilePathsView};
use crate::config::{default_config, ConfigView};
use crate::serialize::{config_json_body, format_config};
use crate::strutil::replace_all;

verus! {

/// A servable file of the viewer: its content bytes and the content type a
/// host should serve them with.
#[non_exhaustive]
#[derive(Debug)]
pub struct SwaggerFile {
    /// Content of the file as bytes.
    pub bytes: Vec<u8>,
    /// Content type of the file, e.g. `"text/css"`.
    pub content_type: String,
}

/// Entry point for serving the viewer and its api docs: a page title, the
/// runtime configuration, and the paths the static files are served at.
#[non_exhaustive]
#[derive(Debug)]
pub struct SwaggerUi {
    /// The title of the rendered page, shown in the browser tab.
    pub title: String,
    /// The viewer's runtime configuration.
    pub config: Config,
    /// The paths the six static files are served at.
    pub file_paths: FilePaths,
}

/// The mathematical value of a [`SwaggerUi`].
pub struct SwaggerUiView {
    pub title: Seq<char>,
    pub config: ConfigView,
    pub file_paths: FilePathsView,
}

impl View for SwaggerUi {
    type V = SwaggerUiView;

    open spec fn view(&self) -> SwaggerUiView {
        SwaggerUiView { title: self.title@, config: self.config@, file_paths: self.file_paths@ }
    }
}

/// The template of the bootstrap script: the serialized configuration
/// replaces the placeholder, as a sibling of the fixed `presets` and
/// `plugins` entries of the object handed to the viewer's runtime.
pub open spec fn spec_config_template() -> Seq<char> {
    "\nwindow.ui = SwaggerUIBundle({\n  {{config}},\n  presets: [\n    SwaggerUIBundle.presets.apis,\n    SwaggerUIStandalonePreset\n  ],\n  plugins: [\n    SwaggerUIBundle.plugins.DownloadUrl\n  ],\n});"@
}

/// The template of the bootstrap script, as [`spec_config_template`] gives
/// it.
pub fn config_template() -> (r: &'static str)
    ensures
        r@ == spec_config_template(),
{
    "\nwindow.ui = SwaggerUIBundle({\n  {{config}},\n  presets: [\n    SwaggerUIBundle.presets.apis,\n    SwaggerUIStandalonePreset\n  ],\n  plugins: [\n    SwaggerUIBundle.plugins.DownloadUrl\n  ],\n});"
}

/// The complete HTML page for `v`: the title and the two stylesheet links in
/// the head; the viewer's anchor `div`, the bundle script, the standalone
/// preset script (in that order, the preset needs globals the bundle
/// defines), and the bootstrap script with the spliced configuration in the
/// body.
pub open spec fn page_html(v: SwaggerUiView) -> Seq<char> {
    "<!DOCTYPE html>\n<html lang=\"en\">\n<head>\n    <meta charset=\"UTF-8\">\n    <title>"@
        + v.title + "</title>\n    <link rel=\"stylesheet\" type=\"text/css\" href=\""@
        + v.file_paths.css + "\" />\n    <link rel=\"stylesheet\" type=\"text/css\" href=\""@
        + v.file_paths.index_css
        + "\" />\n</head>\n<body>\n<div id=\"swagger-ui\"></div>\n<script src=\""@
        + v.file_paths.js + "\" charset=\"UTF-8\"></script>\n<script src=\""@
        + v.file_paths.standalone_preset_js
        + "\" charset=\"UTF-8\"></script>\n<script>\n    window.onload = () => {\n        "@
        + replace_all(spec_config_template(), "{{config}}"@, config_json_body(v.config))
        + "\n    };\n</script>\n</body>\n</html>\n"@
}

impl Default for SwaggerUi {
    /// The same starting point as [`SwaggerUi::new`].
    fn default() -> (r: Self)
        ensures
            r@.title == "Swagger UI"@,
            r@.config == default_config(),
            forall|f: assets::SwaggerUiStaticFile|
                path_of(r@.file_paths, f) == spec_default_path(f),
    {
        SwaggerUi::new()
    }
}

impl SwaggerUi {
    /// A new viewer page: titled "Swagger UI", the default configuration,
    /// and every static file at its default path.
    pub fn new() -> (r: Self)
        ensures
            r@.title == "Swagger UI"@,
            r@.config == default_config(),
            forall|f: assets::SwaggerUiStaticFile|
                path_of(r@.file_paths, f) == spec_default_path(f),
    {
        SwaggerUi {
            title: "Swagger UI".to_owned(),
            config: Config::new(),
            file_paths: FilePaths::new(),
        }
    }

    /// The configuration, mutably, for setting URLs and display options.
    pub fn config(&mut self) -> (r: &mut Config)
        ensures
            *r == old(self).config,
            final(self).config == *final(r),
            final(self).title == old(self).title,
            final(self).file_paths == old(self).file_paths,
    {
        &mut self.config
    }

    /// Sets the title of the rendered page.
    pub fn title(&mut self, title: &str) -> (r: &mut Self)
        ensures
            (*r)@ == (SwaggerUiView { title: title@, ..old(self)@ }),
            *final(self) == *final(r),
    {
        self.title = title.to_owned();
        self
    }

    /// The six static files the viewer needs, in canonical order, each
    /// paired with its content. The viewer's bundles are distributed
    /// separately from this crate, so each content here is an empty
    /// placeholder: the host serves the real bytes at the registered paths.
    pub fn static_files() -> (r: Vec<(assets::SwaggerUiStaticFile, Vec<u8>)>)
        ensures
            r@.len() == all_static_files().len(),
            forall|i: int|
                0 <= i < r@.len() ==> (#[trigger] r@[i]).0 == all_static_files()[i] && r@[i].1@
                    == Seq::<u8>::empty(),
    {
        let mut v: Vec<(assets::SwaggerUiStaticFile, Vec<u8>)> = Vec::new();
        v.push((assets::SwaggerUiStaticFile::Css, Vec::new()));
        v.push((assets::SwaggerUiStaticFile::IndexCss, Vec::new()));
        v.push((assets::SwaggerUiStaticFile::Js, Vec::new()));
        v.push((assets::SwaggerUiStaticFile::StandalonePresetJs, Vec::new()));
        v.push((assets::SwaggerUiStaticFile::Favicon16, Vec::new()));
        v.push((assets::SwaggerUiStaticFile::Favicon32, Vec::new()));
        v
    }

    /// Replaces the path one static file is served at; the other five paths,
    /// the title, and the configuration are untouched.
    pub fn override_file_path(
        &mut self,
        static_file: assets::SwaggerUiStaticFile,
        path: String,
    )
        ensures
            forall|g: assets::SwaggerUiStaticFile|
                path_of(final(self)@.file_paths, g) == if g == static_file {
                    path@
                } else {
                    path_of(old(self)@.file_paths, g)
                },
            final(self).title == old(self).title,
            final(self).config == old(self).config,
    {
        self.file_paths.set(static_file, path);
    }

    /// The HTML page for this viewer, as [`page_html`] lays it out: the
    /// stylesheet and script paths come from the registered file paths, and
    /// the serialized configuration is spliced into the bootstrap script.
    /// Serializing the closed configuration model cannot fail, so the page
    /// is returned directly.
    pub fn serve(&self) -> (r: String)
        ensures
            r@ == page_html(self@),
    {
        let mut out = String::new();
        out.append(
            "<!DOCTYPE html>\n<html lang=\"en\">\n<head>\n    <meta charset=\"UTF-8\">\n    <title>",
        );
        out.append(self.title.as_str());
        out.append("</title>\n    <link rel=\"stylesheet\" type=\"text/css\" href=\"");
        out.append(self.file_paths.css.as_str());
        out.append("\" />\n    <link rel=\"stylesheet\" type=\"text/css\" href=\"");
        out.append(self.file_paths.index_css.as_str());
        out.append("\" />\n</head>\n<body>\n<div id=\"swagger-ui\"></div>\n<script src=\"");
        out.append(self.file_paths.js.as_str());
        out.append("\" charset=\"UTF-8\"></script>\n<script src=\"");
        out.append(self.file_paths.standalone_preset_js.as_str());
        out.append("\" charset=\"UTF-8\"></script>\n<script>\n    window.onload = () => {\n        ");
        let config = format_config(&self.config, config_template());
        out.append(config.as_str());
        out.append("\n    };\n</script>\n</body>\n</html>\n");
        proof {
            assert(out@ =~= page_html(self@));
        }
        out
    }
}

} // verus!
