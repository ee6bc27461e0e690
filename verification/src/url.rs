//! One documentation URL offered to the viewer: a serving path, the name
//! shown in the document selector, and a flag marking it as the document to
//! preselect.

use vstd::prelude::*;

verus! {

/// One named, optionally primary documentation URL.
#[non_exhaustive]
#[derive(Debug, Clone)]
pub struct Url {
    /// Name shown in the select dropdown when several docs are offered.
    pub name: String,
    /// Path which exposes the OpenAPI document.
    pub url: String,
    /// Whether this document is preselected in the dropdown.
    pub primary: bool,
}

/// The mathematical value of a [`Url`].
pub struct UrlView {
    pub name: Seq<char>,
    pub url: Seq<char>,
    pub primary: bool,
}

impl View for Url {
    type V = UrlView;

    open spec fn view(&self) -> UrlView {
        UrlView { name: self.name@, url: self.url@, primary: self.primary }
    }
}

impl Url {
    /// A named URL, not primary.
    pub fn new(name: &str, url: &str) -> (r: Self)
        ensures
            r@.name == name@,
            r@.url == url@,
            r@.primary == false,
    {
        Url { name: name.to_owned(), url: url.to_owned(), primary: false }
    }

    /// A named URL with an explicit primary flag.
    pub fn with_primary(name: &str, url: &str, primary: bool) -> (r: Self)
        ensures
            r@.name == name@,
            r@.url == url@,
            r@.primary == primary,
    {
        Url { name: name.to_owned(), url: url.to_owned(), primary }
    }

    /// A URL built from a bare path: the name is empty and the URL is not
    /// primary.
    pub fn from_path(url: &str) -> (r: Self)
        ensures
            r@.name == Seq::<char>::empty(),
            r@.url == url@,
            r@.primary == false,
    {
        Url { name: String::new(), url: url.to_owned(), primary: false }
    }
}

} // verus!
