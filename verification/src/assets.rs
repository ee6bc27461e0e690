//! The static files the Swagger UI viewer needs in the browser, and the paths
//! a host serves them at.
//!
//! The set of files is closed: two stylesheets, two scripts and two favicons.
//! Every file always has a serving path; a path can be replaced but never
//! removed, so looking a path up is total by construction.

use vstd::prelude::*;

verus! {

/// Identifies one of the static files required by Swagger UI.
#[non_exhaustive]
#[derive(Debug, Copy, Clone, PartialEq, Eq, Hash, Structural)]
pub enum SwaggerUiStaticFile {
    /// The main Swagger UI CSS file.
    Css,
    /// Additional index CSS styles for Swagger UI.
    IndexCss,
    /// The main Swagger UI JavaScript bundle.
    Js,
    /// The standalone preset JavaScript file for Swagger UI.
    StandalonePresetJs,
    /// The 16x16 favicon.
    Favicon16,
    /// The 32x32 favicon.
    Favicon32,
}

/// All six static files, in their canonical order.
pub open spec fn all_static_files() -> Seq<SwaggerUiStaticFile> {
    seq![
        SwaggerUiStaticFile::Css,
        SwaggerUiStaticFile::IndexCss,
        SwaggerUiStaticFile::Js,
        SwaggerUiStaticFile::StandalonePresetJs,
        SwaggerUiStaticFile::Favicon16,
        SwaggerUiStaticFile::Favicon32,
    ]
}

/// The canonical file name of a static file.
pub open spec fn spec_file_name(f: SwaggerUiStaticFile) -> Seq<char> {
    match f {
        SwaggerUiStaticFile::Css => "swagger-ui.css"@,
        SwaggerUiStaticFile::IndexCss => "index.css"@,
        SwaggerUiStaticFile::Js => "swagger-ui-bundle.js"@,
        SwaggerUiStaticFile::StandalonePresetJs => "swagger-ui-standalone-preset.js"@,
        SwaggerUiStaticFile::Favicon16 => "favicon-16x16.png"@,
        SwaggerUiStaticFile::Favicon32 => "favicon-32x32.png"@,
    }
}

/// The path a static file is served at before any override: its canonical
/// file name relative to the page.
pub open spec fn spec_default_path(f: SwaggerUiStaticFile) -> Seq<char> {
    "./"@ + spec_file_name(f)
}

impl SwaggerUiStaticFile {
    /// All six static files, in their canonical order.
    pub fn all() -> (r: Vec<Self>)
        ensures
            r@ == all_static_files(),
    {
        let mut v: Vec<Self> = Vec::new();
        v.push(SwaggerUiStaticFile::Css);
        v.push(SwaggerUiStaticFile::IndexCss);
        v.push(SwaggerUiStaticFile::Js);
        v.push(SwaggerUiStaticFile::StandalonePresetJs);
        v.push(SwaggerUiStaticFile::Favicon16);
        v.push(SwaggerUiStaticFile::Favicon32);
        proof {
            assert(v@ =~= all_static_files());
        }
        v
    }

    /// The canonical file name of this static file.
    pub fn file_name(&self) -> (r: &'static str)
        ensures
            r@ == spec_file_name(*self),
    {
        match self {
            SwaggerUiStaticFile::Css => "swagger-ui.css",
            SwaggerUiStaticFile::IndexCss => "index.css",
            SwaggerUiStaticFile::Js => "swagger-ui-bundle.js",
            SwaggerUiStaticFile::StandalonePresetJs => "swagger-ui-standalone-preset.js",
            SwaggerUiStaticFile::Favicon16 => "favicon-16x16.png",
            SwaggerUiStaticFile::Favicon32 => "favicon-32x32.png",
        }
    }

    /// The serving path of this static file before any override.
    pub fn default_path(self) -> (r: String)
        ensures
            r@ == spec_default_path(self),
    {
        let mut p = String::new();
        p.append("./");
        p.append(self.file_name());
        p
    }
}

/// The serving paths of the six static files, one field per file, so that
/// every file has a path at all times.
#[derive(Debug)]
pub struct FilePaths {
    pub css: String,
    pub index_css: String,
    pub js: String,
    pub standalone_preset_js: String,
    pub favicon16: String,
    pub favicon32: String,
}

/// The paths of the six static files, as sequences of characters.
pub struct FilePathsView {
    pub css: Seq<char>,
    pub index_css: Seq<char>,
    pub js: Seq<char>,
    pub standalone_preset_js: Seq<char>,
    pub favicon16: Seq<char>,
    pub favicon32: Seq<char>,
}

impl View for FilePaths {
    type V = FilePathsView;

    open spec fn view(&self) -> FilePathsView {
        FilePathsView {
            css: self.css@,
            index_css: self.index_css@,
            js: self.js@,
            standalone_preset_js: self.standalone_preset_js@,
            favicon16: self.favicon16@,
            favicon32: self.favicon32@,
        }
    }
}

/// The path `v` holds for the static file `f`.
pub open spec fn path_of(v: FilePathsView, f: SwaggerUiStaticFile) -> Seq<char> {
    match f {
        SwaggerUiStaticFile::Css => v.css,
        SwaggerUiStaticFile::IndexCss => v.index_css,
        SwaggerUiStaticFile::Js => v.js,
        SwaggerUiStaticFile::StandalonePresetJs => v.standalone_preset_js,
        SwaggerUiStaticFile::Favicon16 => v.favicon16,
        SwaggerUiStaticFile::Favicon32 => v.favicon32,
    }
}

impl FilePaths {
    /// Every file at its default path.
    pub fn new() -> (r: Self)
        ensures
            forall|f: SwaggerUiStaticFile| path_of(r@, f) == spec_default_path(f),
    {
        FilePaths {
            css: SwaggerUiStaticFile::Css.default_path(),
            index_css: SwaggerUiStaticFile::IndexCss.default_path(),
            js: SwaggerUiStaticFile::Js.default_path(),
            standalone_preset_js: SwaggerUiStaticFile::StandalonePresetJs.default_path(),
            favicon16: SwaggerUiStaticFile::Favicon16.default_path(),
            favicon32: SwaggerUiStaticFile::Favicon32.default_path(),
        }
    }

    /// Replaces the path of `f` with `path`; every other path is unchanged.
    pub fn set(&mut self, f: SwaggerUiStaticFile, path: String)
        ensures
            forall|g: SwaggerUiStaticFile|
                path_of(final(self)@, g) == if g == f {
                    path@
                } else {
                    path_of(old(self)@, g)
                },
    {
        match f {
            SwaggerUiStaticFile::Css => self.css = path,
            SwaggerUiStaticFile::IndexCss => self.index_css = path,
            SwaggerUiStaticFile::Js => self.js = path,
            SwaggerUiStaticFile::StandalonePresetJs => self.standalone_preset_js = path,
            SwaggerUiStaticFile::Favicon16 => self.favicon16 = path,
            SwaggerUiStaticFile::Favicon32 => self.favicon32 = path,
        }
    }
}

} // verus!
