//! The viewer's runtime configuration: every option the bundled script reads,
//! plus the resolved URL state that decides between the single-document mode
//! and the document-selector mode.

use vstd::prelude::*;

use crate::oauth;
use crate::url::{Url, UrlView};

verus! {

/// Settings for syntax highlighting of responses and cURL commands.
#[non_exhaustive]
#[derive(Debug, Clone)]
pub struct SyntaxHighlight {
    /// Whether syntax highlighting is activated. Defaults to `true`.
    pub activated: bool,
    /// Highlight.js syntax coloring theme to use.
    pub theme: Option<&'static str>,
}

/// The mathematical value of a [`SyntaxHighlight`].
pub struct SyntaxHighlightView {
    pub activated: bool,
    pub theme: Option<Seq<char>>,
}

impl View for SyntaxHighlight {
    type V = SyntaxHighlightView;

    open spec fn view(&self) -> SyntaxHighlightView {
        SyntaxHighlightView {
            activated: self.activated,
            theme: match self.theme {
                Some(t) => Some(t@),
                None => None,
            },
        }
    }
}

impl Default for SyntaxHighlight {
    /// Highlighting on, with no explicit theme.
    fn default() -> (r: Self)
        ensures
            r@.activated == true,
            r@.theme is None,
    {
        SyntaxHighlight { activated: true, theme: None }
    }
}

impl SyntaxHighlight {
    /// Highlighting switched on or off by `value`, with no explicit theme.
    pub fn from_activated(value: bool) -> (r: Self)
        ensures
            r@.activated == value,
            r@.theme is None,
    {
        SyntaxHighlight { activated: value, theme: None }
    }

    /// This configuration with highlighting switched on or off.
    pub fn activated(self, activated: bool) -> (r: Self)
        ensures
            r@.activated == activated,
            r@.theme == self@.theme,
    {
        SyntaxHighlight { activated, ..self }
    }

    /// This configuration with the given Highlight.js coloring theme.
    pub fn theme(self, theme: &'static str) -> (r: Self)
        ensures
            r@.activated == self@.activated,
            r@.theme == Some(theme@),
    {
        SyntaxHighlight { theme: Some(theme), ..self }
    }
}

/// Basic authentication options: when configured, the viewer prompts for
/// these credentials before showing the page.
#[derive(Debug, Clone)]
pub struct BasicAuth {
    /// Username for the basic authentication prompt.
    pub username: String,
    /// Password of the username for the basic authentication prompt.
    pub password: String,
}

/// The mathematical value of a [`BasicAuth`].
pub struct BasicAuthView {
    pub username: Seq<char>,
    pub password: Seq<char>,
}

impl View for BasicAuth {
    type V = BasicAuthView;

    open spec fn view(&self) -> BasicAuthView {
        BasicAuthView { username: self.username@, password: self.password@ }
    }
}

/// The viewer's runtime options together with the resolved URL state.
#[non_exhaustive]
#[derive(Debug, Clone)]
pub struct Config {
    /// Url to fetch external configuration from.
    pub config_url: Option<String>,
    /// Id of the DOM element where the viewer puts its user interface.
    pub dom_id: Option<String>,
    /// The single unnamed document the viewer serves.
    pub url: Option<String>,
    /// Name of the primary document, if any.
    pub urls_primary_name: Option<String>,
    /// The documents offered in the selector dropdown.
    pub urls: Vec<Url>,
    /// Enables overriding configuration parameters with url query parameters.
    pub query_config_enabled: Option<bool>,
    /// Whether deep linking is enabled.
    pub deep_linking: Option<bool>,
    /// Whether the operation id is shown in the operation list.
    pub display_operation_id: Option<bool>,
    /// Default models expansion depth; -1 hides the models completely.
    pub default_models_expand_depth: Option<isize>,
    /// Default model expansion depth for the example section.
    pub default_model_expand_depth: Option<isize>,
    /// How models are shown when the API is first rendered.
    pub default_model_rendering: Option<String>,
    /// Whether the request duration of "Try it out" requests is displayed.
    pub display_request_duration: Option<bool>,
    /// Default expansion for operations and tags.
    pub doc_expansion: Option<String>,
    /// Whether filtering of tagged operations is allowed.
    pub filter: Option<bool>,
    /// How many tagged operations are shown; all of them by default.
    pub max_displayed_tags: Option<usize>,
    /// Whether vendor extensions are shown.
    pub show_extensions: Option<bool>,
    /// Whether common extensions are shown.
    pub show_common_extensions: Option<bool>,
    /// Whether the "Try it out" section is enabled by default.
    pub try_it_out_enabled: Option<bool>,
    /// Whether the request snippets section is enabled.
    pub request_snippets_enabled: Option<bool>,
    /// OAuth redirect url.
    pub oauth2_redirect_url: Option<String>,
    /// Whether the request mutated by `requestInterceptor` is shown.
    pub show_mutated_request: Option<bool>,
    /// The http request submit methods "Try it out" supports.
    pub supported_submit_methods: Option<Vec<String>>,
    /// Url of the validator for the served specs; "none" disables validation.
    pub validator_url: Option<String>,
    /// Enables passing credentials on CORS requests.
    pub with_credentials: Option<bool>,
    /// Whether authorization is persisted across browser refresh and close.
    pub persist_authorization: Option<bool>,
    /// OAuth flow configuration; never part of the serialized output.
    pub oauth: Option<oauth::Config>,
    /// Syntax highlighting options.
    pub syntax_highlight: Option<SyntaxHighlight>,
    /// The viewer layout; `"StandaloneLayout"` by default.
    pub layout: &'static str,
    /// Basic authentication configuration.
    pub basic_auth: Option<BasicAuth>,
}

/// The mathematical value of a [`Config`]. The `oauth` field only records
/// whether an OAuth configuration is attached: its contents never shape any
/// output.
pub struct ConfigView {
    pub config_url: Option<Seq<char>>,
    pub dom_id: Option<Seq<char>>,
    pub url: Option<Seq<char>>,
    pub urls_primary_name: Option<Seq<char>>,
    pub urls: Seq<UrlView>,
    pub query_config_enabled: Option<bool>,
    pub deep_linking: Option<bool>,
    pub display_operation_id: Option<bool>,
    pub default_models_expand_depth: Option<int>,
    pub default_model_expand_depth: Option<int>,
    pub default_model_rendering: Option<Seq<char>>,
    pub display_request_duration: Option<bool>,
    pub doc_expansion: Option<Seq<char>>,
    pub filter: Option<bool>,
    pub max_displayed_tags: Option<int>,
    pub show_extensions: Option<bool>,
    pub show_common_extensions: Option<bool>,
    pub try_it_out_enabled: Option<bool>,
    pub request_snippets_enabled: Option<bool>,
    pub oauth2_redirect_url: Option<Seq<char>>,
    pub show_mutated_request: Option<bool>,
    pub supported_submit_methods: Option<Seq<Seq<char>>>,
    pub validator_url: Option<Seq<char>>,
    pub with_credentials: Option<bool>,
    pub persist_authorization: Option<bool>,
    pub oauth: bool,
    pub syntax_highlight: Option<SyntaxHighlightView>,
    pub layout: Seq<char>,
    pub basic_auth: Option<BasicAuthView>,
}

/// The view of an optional string.
pub open spec fn opt_str_view(o: Option<String>) -> Option<Seq<char>> {
    match o {
        Some(s) => Some(s@),
        None => None,
    }
}

/// The view of an optional signed size.
pub open spec fn opt_isize_view(o: Option<isize>) -> Option<int> {
    match o {
        Some(d) => Some(d as int),
        None => None,
    }
}

/// The view of an optional unsigned size.
pub open spec fn opt_usize_view(o: Option<usize>) -> Option<int> {
    match o {
        Some(m) => Some(m as int),
        None => None,
    }
}

/// The view of an optional list of strings.
pub open spec fn opt_str_list_view(o: Option<Vec<String>>) -> Option<Seq<Seq<char>>> {
    match o {
        Some(ms) => Some(ms@.map_values(|m: String| m@)),
        None => None,
    }
}

/// The view of optional syntax highlighting options.
pub open spec fn opt_syntax_highlight_view(o: Option<SyntaxHighlight>) -> Option<
    SyntaxHighlightView,
> {
    match o {
        Some(s) => Some(s@),
        None => None,
    }
}

/// The view of an optional basic authentication configuration.
pub open spec fn opt_basic_auth_view(o: Option<BasicAuth>) -> Option<BasicAuthView> {
    match o {
        Some(b) => Some(b@),
        None => None,
    }
}

impl View for Config {
    type V = ConfigView;

    open spec fn view(&self) -> ConfigView {
        ConfigView {
            config_url: opt_str_view(self.config_url),
            dom_id: opt_str_view(self.dom_id),
            url: opt_str_view(self.url),
            urls_primary_name: opt_str_view(self.urls_primary_name),
            urls: self.urls@.map_values(|u: Url| u@),
            query_config_enabled: self.query_config_enabled,
            deep_linking: self.deep_linking,
            display_operation_id: self.display_operation_id,
            default_models_expand_depth: opt_isize_view(self.default_models_expand_depth),
            default_model_expand_depth: opt_isize_view(self.default_model_expand_depth),
            default_model_rendering: opt_str_view(self.default_model_rendering),
            display_request_duration: self.display_request_duration,
            doc_expansion: opt_str_view(self.doc_expansion),
            filter: self.filter,
            max_displayed_tags: opt_usize_view(self.max_displayed_tags),
            show_extensions: self.show_extensions,
            show_common_extensions: self.show_common_extensions,
            try_it_out_enabled: self.try_it_out_enabled,
            request_snippets_enabled: self.request_snippets_enabled,
            oauth2_redirect_url: opt_str_view(self.oauth2_redirect_url),
            show_mutated_request: self.show_mutated_request,
            supported_submit_methods: opt_str_list_view(self.supported_submit_methods),
            validator_url: opt_str_view(self.validator_url),
            with_credentials: self.with_credentials,
            persist_authorization: self.persist_authorization,
            oauth: self.oauth is Some,
            syntax_highlight: opt_syntax_highlight_view(self.syntax_highlight),
            layout: self.layout@,
            basic_auth: opt_basic_auth_view(self.basic_auth),
        }
    }
}

/// The configuration every [`Config`] starts from: the viewer anchored at
/// `#swagger-ui`, deep linking on, the standalone layout, and everything else
/// unset.
pub open spec fn default_config() -> ConfigView {
    ConfigView {
        config_url: None,
        dom_id: Some("#swagger-ui"@),
        url: None,
        urls_primary_name: None,
        urls: Seq::empty(),
        query_config_enabled: None,
        deep_linking: Some(true),
        display_operation_id: None,
        default_models_expand_depth: None,
        default_model_expand_depth: None,
        default_model_rendering: None,
        display_request_duration: None,
        doc_expansion: None,
        filter: None,
        max_displayed_tags: None,
        show_extensions: None,
        show_common_extensions: None,
        try_it_out_enabled: None,
        request_snippets_enabled: None,
        oauth2_redirect_url: None,
        show_mutated_request: None,
        supported_submit_methods: None,
        validator_url: None,
        with_credentials: None,
        persist_authorization: None,
        oauth: false,
        syntax_highlight: None,
        layout: "StandaloneLayout"@,
        basic_auth: None,
    }
}

impl Default for Config {
    /// The default configuration, as [`default_config`] describes it.
    fn default() -> (r: Self)
        ensures
            r@ == default_config(),
    {
        Config::new()
    }
}

impl Config {
    /// A new configuration with default settings.
    pub fn new() -> (r: Self)
        ensures
            r@ == default_config(),
    {
        let c = Config {
            config_url: None,
            dom_id: Some("#swagger-ui".to_owned()),
            url: None,
            urls_primary_name: None,
            urls: Vec::new(),
            query_config_enabled: None,
            deep_linking: Some(true),
            display_operation_id: None,
            default_models_expand_depth: None,
            default_model_expand_depth: None,
            default_model_rendering: None,
            display_request_duration: None,
            doc_expansion: None,
            filter: None,
            max_displayed_tags: None,
            show_extensions: None,
            show_common_extensions: None,
            try_it_out_enabled: None,
            request_snippets_enabled: None,
            oauth2_redirect_url: None,
            show_mutated_request: None,
            supported_submit_methods: None,
            validator_url: None,
            with_credentials: None,
            persist_authorization: None,
            oauth: None,
            syntax_highlight: None,
            layout: "StandaloneLayout",
            basic_auth: None,
        };
        proof {
            assert(c@.urls =~= default_config().urls);
        }
        c
    }

    /// Sets whether deep linking is enabled.
    pub fn deep_linking(&mut self, deep_linking: bool) -> (r: &mut Self)
        ensures
            (*r)@ == (ConfigView { deep_linking: Some(deep_linking), ..old(self)@ }),
            *final(self) == *final(r),
    {
        self.deep_linking = Some(deep_linking);
        self
    }

    /// Sets the id of the DOM element where the viewer puts its user
    /// interface. The default is `#swagger-ui`.
    pub fn dom_id(&mut self, dom_id: &str) -> (r: &mut Self)
        ensures
            (*r)@ == (ConfigView { dom_id: Some(dom_id@), ..old(self)@ }),
            *final(self) == *final(r),
    {
        self.dom_id = Some(dom_id.to_owned());
        self
    }

    /// Attaches an OAuth configuration. It is stored, but never emitted.
    pub fn oauth_config(&mut self, oauth_config: oauth::Config) -> (r: &mut Self)
        ensures
            (*r)@ == (ConfigView { oauth: true, ..old(self)@ }),
            *final(self) == *final(r),
    {
        self.oauth = Some(oauth_config);
        self
    }

    /// Sets the url to fetch external configuration from.
    pub fn config_url(&mut self, config_url: &str) -> (r: &mut Self)
        ensures
            (*r)@ == (ConfigView { config_url: Some(config_url@), ..old(self)@ }),
            *final(self) == *final(r),
    {
        self.config_url = Some(config_url.to_owned());
        self
    }

    /// Sets whether configuration parameters can be overridden with url query
    /// parameters.
    pub fn query_config_enabled(&mut self, query_config_enabled: bool) -> (r: &mut Self)
        ensures
            (*r)@ == (ConfigView {
                query_config_enabled: Some(query_config_enabled),
                ..old(self)@
            }),
            *final(self) == *final(r),
    {
        self.query_config_enabled = Some(query_config_enabled);
        self
    }

    /// Sets whether the operation id is shown in the operations list.
    pub fn display_operation_id(&mut self, display_operation_id: bool) -> (r: &mut Self)
        ensures
            (*r)@ == (ConfigView {
                display_operation_id: Some(display_operation_id),
                ..old(self)@
            }),
            *final(self) == *final(r),
    {
        self.display_operation_id = Some(display_operation_id);
        self
    }

    /// Switches to the base layout, without a search header. The default is
    /// the standalone layout.
    pub fn use_base_layout(&mut self) -> (r: &mut Self)
        ensures
            (*r)@ == (ConfigView { layout: "BaseLayout"@, ..old(self)@ }),
            *final(self) == *final(r),
    {
        self.layout = "BaseLayout";
        self
    }

    /// Sets the default models expansion depth; -1 hides the models
    /// completely.
    pub fn default_models_expand_depth(&mut self, default_models_expand_depth: isize) -> (r:
        &mut Self)
        ensures
            (*r)@ == (ConfigView {
                default_models_expand_depth: Some(default_models_expand_depth as int),
                ..old(self)@
            }),
            *final(self) == *final(r),
    {
        self.default_models_expand_depth = Some(default_models_expand_depth);
        self
    }

    /// Sets the default model expansion depth for the example section.
    pub fn default_model_expand_depth(&mut self, default_model_expand_depth: isize) -> (r:
        &mut Self)
        ensures
            (*r)@ == (ConfigView {
                default_model_expand_depth: Some(default_model_expand_depth as int),
                ..old(self)@
            }),
            *final(self) == *final(r),
    {
        self.default_model_expand_depth = Some(default_model_expand_depth);
        self
    }

    /// Sets how models are shown when the API is first rendered.
    pub fn default_model_rendering(&mut self, default_model_rendering: &str) -> (r: &mut Self)
        ensures
            (*r)@ == (ConfigView {
                default_model_rendering: Some(default_model_rendering@),
                ..old(self)@
            }),
            *final(self) == *final(r),
    {
        self.default_model_rendering = Some(default_model_rendering.to_owned());
        self
    }

    /// Sets whether the request duration of "Try it out" requests is shown,
    /// in milliseconds.
    pub fn display_request_duration(&mut self, display_request_duration: bool) -> (r: &mut Self)
        ensures
            (*r)@ == (ConfigView {
                display_request_duration: Some(display_request_duration),
                ..old(self)@
            }),
            *final(self) == *final(r),
    {
        self.display_request_duration = Some(display_request_duration);
        self
    }

    /// Sets the default expansion for operations and tags.
    pub fn doc_expansion(&mut self, doc_expansion: &str) -> (r: &mut Self)
        ensures
            (*r)@ == (ConfigView { doc_expansion: Some(doc_expansion@), ..old(self)@ }),
            *final(self) == *final(r),
    {
        self.doc_expansion = Some(doc_expansion.to_owned());
        self
    }

    /// Sets whether filtering of tagged operations is allowed.
    pub fn filter(&mut self, filter: bool) -> (r: &mut Self)
        ensures
            (*r)@ == (ConfigView { filter: Some(filter), ..old(self)@ }),
            *final(self) == *final(r),
    {
        self.filter = Some(filter);
        self
    }

    /// Restricts how many tagged operations are shown.
    pub fn max_displayed_tags(&mut self, max_displayed_tags: usize) -> (r: &mut Self)
        ensures
            (*r)@ == (ConfigView {
                max_displayed_tags: Some(max_displayed_tags as int),
                ..old(self)@
            }),
            *final(self) == *final(r),
    {
        self.max_displayed_tags = Some(max_displayed_tags);
        self
    }

    /// Sets whether vendor extension fields and values are shown.
    pub fn show_extensions(&mut self, show_extensions: bool) -> (r: &mut Self)
        ensures
            (*r)@ == (ConfigView { show_extensions: Some(show_extensions), ..old(self)@ }),
            *final(self) == *final(r),
    {
        self.show_extensions = Some(show_extensions);
        self
    }

    /// Sets whether common extension fields are shown for parameters.
    pub fn show_common_extensions(&mut self, show_common_extensions: bool) -> (r: &mut Self)
        ensures
            (*r)@ == (ConfigView {
                show_common_extensions: Some(show_common_extensions),
                ..old(self)@
            }),
            *final(self) == *final(r),
    {
        self.show_common_extensions = Some(show_common_extensions);
        self
    }

    /// Sets whether the "Try it out" section is enabled by default.
    pub fn try_it_out_enabled(&mut self, try_it_out_enabled: bool) -> (r: &mut Self)
        ensures
            (*r)@ == (ConfigView { try_it_out_enabled: Some(try_it_out_enabled), ..old(self)@ }),
            *final(self) == *final(r),
    {
        self.try_it_out_enabled = Some(try_it_out_enabled);
        self
    }

    /// Sets whether the request snippets section is enabled.
    pub fn request_snippets_enabled(&mut self, request_snippets_enabled: bool) -> (r: &mut Self)
        ensures
            (*r)@ == (ConfigView {
                request_snippets_enabled: Some(request_snippets_enabled),
                ..old(self)@
            }),
            *final(self) == *final(r),
    {
        self.request_snippets_enabled = Some(request_snippets_enabled);
        self
    }

    /// Sets the OAuth redirect url.
    pub fn oauth2_redirect_url(&mut self, oauth2_redirect_url: &str) -> (r: &mut Self)
        ensures
            (*r)@ == (ConfigView {
                oauth2_redirect_url: Some(oauth2_redirect_url@),
                ..old(self)@
            }),
            *final(self) == *final(r),
    {
        self.oauth2_redirect_url = Some(oauth2_redirect_url.to_owned());
        self
    }

    /// Sets whether the request mutated by `requestInterceptor` is used to
    /// produce the curl command.
    pub fn show_mutated_request(&mut self, show_mutated_request: bool) -> (r: &mut Self)
        ensures
            (*r)@ == (ConfigView {
                show_mutated_request: Some(show_mutated_request),
                ..old(self)@
            }),
            *final(self) == *final(r),
    {
        self.show_mutated_request = Some(show_mutated_request);
        self
    }

    /// Sets the http methods "Try it out" supports; an empty list disables it
    /// everywhere.
    pub fn supported_submit_methods(&mut self, supported_submit_methods: Vec<String>) -> (r:
        &mut Self)
        ensures
            (*r)@ == (ConfigView {
                supported_submit_methods: Some(
                    supported_submit_methods@.map_values(|m: String| m@),
                ),
                ..old(self)@
            }),
            *final(self) == *final(r),
    {
        self.supported_submit_methods = Some(supported_submit_methods);
        self
    }

    /// Sets the validator url; "none" disables spec validation.
    pub fn validator_url(&mut self, validator_url: &str) -> (r: &mut Self)
        ensures
            (*r)@ == (ConfigView { validator_url: Some(validator_url@), ..old(self)@ }),
            *final(self) == *final(r),
    {
        self.validator_url = Some(validator_url.to_owned());
        self
    }

    /// Sets whether credentials are passed on CORS requests.
    pub fn with_credentials(&mut self, with_credentials: bool) -> (r: &mut Self)
        ensures
            (*r)@ == (ConfigView { with_credentials: Some(with_credentials), ..old(self)@ }),
            *final(self) == *final(r),
    {
        self.with_credentials = Some(with_credentials);
        self
    }

    /// Sets whether authorization is persisted across browser refresh and
    /// close.
    pub fn persist_authorization(&mut self, persist_authorization: bool) -> (r: &mut Self)
        ensures
            (*r)@ == (ConfigView {
                persist_authorization: Some(persist_authorization),
                ..old(self)@
            }),
            *final(self) == *final(r),
    {
        self.persist_authorization = Some(persist_authorization);
        self
    }

    /// Sets the syntax highlighting options.
    pub fn with_syntax_highlight(&mut self, syntax_highlight: SyntaxHighlight) -> (r: &mut Self)
        ensures
            (*r)@ == (ConfigView { syntax_highlight: Some(syntax_highlight@), ..old(self)@ }),
            *final(self) == *final(r),
    {
        self.syntax_highlight = Some(syntax_highlight);
        self
    }

    /// Sets the basic authentication configuration; the viewer then prompts
    /// for these credentials.
    pub fn basic_auth(&mut self, basic_auth: BasicAuth) -> (r: &mut Self)
        ensures
            (*r)@ == (ConfigView { basic_auth: Some(basic_auth@), ..old(self)@ }),
            *final(self) == *final(r),
    {
        self.basic_auth = Some(basic_auth);
        self
    }
}

/// The name of the first URL in `us` whose primary flag is set, if any.
pub open spec fn first_primary_name(us: Seq<UrlView>) -> Option<Seq<char>>
    decreases us.len(),
{
    if us.len() == 0 {
        None
    } else if us[0].primary {
        Some(us[0].name)
    } else {
        first_primary_name(us.drop_first())
    }
}

/// A URL as the selector list shows it: an unnamed URL is labelled by its
/// own URL string, so the selector always has something to display.
pub open spec fn labelled(u: UrlView) -> UrlView {
    if u.name.len() == 0 {
        UrlView { name: u.url, url: u.url, primary: u.primary }
    } else {
        u
    }
}

/// The URL state `c` resolves to when the URLs `us` are assigned.
///
/// Assigning no URLs leaves every field as it was. One URL follows the single
/// rule: the primary name is taken from the URL's name whenever its primary
/// flag is set, even when that name is empty; an unnamed URL becomes the
/// single document, a named one a one-element selector list. Two or more
/// URLs follow the multiple rule: the primary name is the name of the first
/// URL marked primary, the selector list keeps every URL in input order with
/// unnamed ones labelled by their own URL, and the single document is unset.
pub open spec fn resolve_urls(c: ConfigView, us: Seq<UrlView>) -> ConfigView {
    if us.len() == 0 {
        c
    } else if us.len() == 1 {
        ConfigView {
            urls_primary_name: if us[0].primary {
                Some(us[0].name)
            } else {
                None
            },
            url: if us[0].name.len() == 0 {
                Some(us[0].url)
            } else {
                None
            },
            urls: if us[0].name.len() == 0 {
                Seq::empty()
            } else {
                seq![us[0]]
            },
            ..c
        }
    } else {
        ConfigView {
            urls_primary_name: first_primary_name(us),
            url: None,
            urls: us.map_values(|u: UrlView| labelled(u)),
            ..c
        }
    }
}

/// The first primary flag wins: when the URL at `i` is marked primary and no
/// earlier one is, the primary name is the name of the URL at `i`, whatever
/// the later flags say.
pub proof fn lemma_first_primary_found(us: Seq<UrlView>, i: int)
    requires
        0 <= i < us.len(),
        us[i].primary,
        forall|j: int| 0 <= j < i ==> !us[j].primary,
    ensures
        first_primary_name(us) == Some(us[i].name),
    decreases i,
{
    if i > 0 {
        lemma_first_primary_found(us.drop_first(), i - 1);
    }
}

/// When no URL is marked primary, there is no primary name.
pub proof fn lemma_first_primary_none(us: Seq<UrlView>)
    requires
        forall|j: int| 0 <= j < us.len() ==> !us[j].primary,
    ensures
        first_primary_name(us) is None,
    decreases us.len(),
{
    if us.len() > 0 {
        lemma_first_primary_none(us.drop_first());
    }
}

/// Resolving two or more URLs preserves the input's length and order: the
/// selector list has exactly one element for each input, at the same index,
/// with the same URL; its name is the input's name, or the input's URL when
/// that name is empty.
pub proof fn lemma_resolve_preserves_order(c: ConfigView, us: Seq<UrlView>)
    requires
        us.len() >= 2,
    ensures
        resolve_urls(c, us).urls.len() == us.len(),
        forall|i: int| 0 <= i < us.len() ==> #[trigger] resolve_urls(c, us).urls[i] == labelled(
            us[i],
        ),
        forall|i: int| 0 <= i < us.len() ==> #[trigger] resolve_urls(c, us).urls[i].url == us[
            i
        ].url,
        forall|i: int|
            0 <= i < us.len() && us[i].name.len() == 0 ==> #[trigger] resolve_urls(
                c,
                us,
            ).urls[i].name == us[i].url,
        forall|i: int|
            0 <= i < us.len() && us[i].name.len() != 0 ==> #[trigger] resolve_urls(
                c,
                us,
            ).urls[i].name == us[i].name,
{
}

/// After resolving one or more URLs, exactly one representation is active:
/// the single unnamed document (`url` set, selector list empty) or the
/// selector list (`url` unset, list non-empty).
pub proof fn lemma_resolve_one_mode(c: ConfigView, us: Seq<UrlView>)
    requires
        us.len() >= 1,
    ensures
        ({
            let r = resolve_urls(c, us);
            (r.url is Some && r.urls.len() == 0) || (r.url is None && r.urls.len() > 0)
        }),
{
}

/// Resolving a second, non-empty assignment fully overwrites the first:
/// each application recomputes the whole URL state from scratch, so nothing
/// accumulates across calls.
pub proof fn lemma_resolve_overwrites(c: ConfigView, us1: Seq<UrlView>, us2: Seq<UrlView>)
    requires
        us2.len() >= 1,
    ensures
        resolve_urls(resolve_urls(c, us1), us2) == resolve_urls(c, us2),
{
}

/// Resolving URLs touches only the three URL-state fields: everything else
/// keeps its value.
pub proof fn lemma_resolve_touches_only_url_state(c: ConfigView, us: Seq<UrlView>)
    ensures
        ({
            let r = resolve_urls(c, us);
            r == (ConfigView {
                urls_primary_name: r.urls_primary_name,
                url: r.url,
                urls: r.urls,
                ..c
            })
        }),
{
}

/// Assigning no URLs resolves to the configuration unchanged: the call is
/// a no-op on the single document, the selector list, and the primary name.
pub proof fn lemma_resolve_zero_is_noop(c: ConfigView, us: Seq<UrlView>)
    requires
        us.len() == 0,
    ensures
        resolve_urls(c, us) == c,
{
}

/// With two or more URLs the first primary flag wins: when the URL at `i`
/// is marked primary and no earlier one is, the resolved primary name is
/// the name of the URL at `i`, whatever the later flags say.
pub proof fn lemma_resolve_first_primary_wins(c: ConfigView, us: Seq<UrlView>, i: int)
    requires
        us.len() >= 2,
        0 <= i < us.len(),
        us[i].primary,
        forall|j: int| 0 <= j < i ==> !us[j].primary,
    ensures
        resolve_urls(c, us).urls_primary_name == Some(us[i].name),
{
    lemma_first_primary_found(us, i);
}

/// With two or more URLs and none marked primary, nothing is preselected.
pub proof fn lemma_resolve_no_primary(c: ConfigView, us: Seq<UrlView>)
    requires
        us.len() >= 2,
        forall|j: int| 0 <= j < us.len() ==> !us[j].primary,
    ensures
        resolve_urls(c, us).urls_primary_name is None,
{
    lemma_first_primary_none(us);
}

/// The name of the first URL in `urls` whose primary flag is set.
fn find_primary_name(urls: &Vec<Url>) -> (r: Option<String>)
    ensures
        opt_str_view(r) == first_primary_name(urls@.map_values(|u: Url| u@)),
{
    let ghost us = urls@.map_values(|u: Url| u@);
    let mut i: usize = 0;
    while i < urls.len()
        invariant
            us == urls@.map_values(|u: Url| u@),
            i <= urls.len(),
            forall|j: int| 0 <= j < i ==> !us[j].primary,
        decreases urls.len() - i,
    {
        if urls[i].primary {
            proof {
                lemma_first_primary_found(us, i as int);
            }
            return Some(urls[i].name.clone());
        }
        i = i + 1;
    }
    proof {
        lemma_first_primary_none(us);
    }
    None
}

/// `urls` with every unnamed URL labelled by its own URL string.
fn label_urls(urls: Vec<Url>) -> (r: Vec<Url>)
    ensures
        r@.map_values(|u: Url| u@) == urls@.map_values(|u: Url| u@).map_values(
            |u: UrlView| labelled(u),
        ),
{
    let ghost target = urls@.map_values(|u: Url| u@).map_values(|u: UrlView| labelled(u));
    let mut out: Vec<Url> = Vec::new();
    let mut i: usize = 0;
    while i < urls.len()
        invariant
            target == urls@.map_values(|u: Url| u@).map_values(|u: UrlView| labelled(u)),
            i <= urls.len(),
            out@.len() == i,
            target.len() == urls@.len(),
            out@.map_values(|u: Url| u@) =~= target.take(i as int),
        decreases urls.len() - i,
    {
        let u = &urls[i];
        let relabelled: Url = if u.name.as_str().is_empty() {
            Url { name: u.url.clone(), url: u.url.clone(), primary: u.primary }
        } else {
            Url { name: u.name.clone(), url: u.url.clone(), primary: u.primary }
        };
        proof {
            assert(relabelled@ == labelled(urls@.map_values(|u: Url| u@)[i as int]));
        }
        let ghost prev = out@;
        out.push(relabelled);
        proof {
            let ghost mapped = out@.map_values(|u: Url| u@);
            assert(out@.len() == i + 1);
            assert(mapped.len() == i + 1);
            assert forall|j: int| 0 <= j < i + 1 implies #[trigger] mapped[j] == target.take(
                i + 1,
            )[j] by {
                assert(mapped[j] == out@[j]@);
                if j < i {
                    assert(out@[j] == prev[j]);
                    assert(prev.map_values(|u: Url| u@)[j] == target.take(i as int)[j]);
                } else {
                    assert(out@[j] == relabelled);
                }
            }
            assert(mapped =~= target.take(i + 1));
        }
        i = i + 1;
    }
    proof {
        assert(target.take(urls.len() as int) =~= target);
    }
    out
}

impl Config {
    /// Assigns the OpenAPI documents the viewer offers, resolving between
    /// the single-document mode and the document-selector mode as
    /// [`resolve_urls`] describes: one unnamed URL becomes the single
    /// document, anything else a selector list; assigning no URLs changes
    /// nothing.
    pub fn urls(&mut self, urls: Vec<Url>) -> (r: &mut Self)
        ensures
            (*r)@ == resolve_urls(old(self)@, urls@.map_values(|u: Url| u@)),
            *final(self) == *final(r),
    {
        if urls.len() == 1 {
            self.single_url(urls);
        } else if urls.len() > 1 {
            self.multiple_urls(urls);
        }
        self
    }

    /// Applies the single rule for exactly one URL.
    fn single_url(&mut self, mut urls: Vec<Url>)
        requires
            urls@.len() == 1,
        ensures
            final(self)@ == resolve_urls(old(self)@, urls@.map_values(|u: Url| u@)),
    {
        let ghost us = urls@.map_values(|u: Url| u@);
        let url = urls.pop().unwrap();
        proof {
            assert(url@ == us[0]);
        }
        self.urls_primary_name = if url.primary {
            Some(url.name.clone())
        } else {
            None
        };
        if url.name.as_str().is_empty() {
            self.url = Some(url.url);
            self.urls = Vec::new();
            proof {
                assert(final(self)@.urls =~= resolve_urls(old(self)@, us).urls);
            }
        } else {
            self.url = None;
            let mut selector: Vec<Url> = Vec::new();
            selector.push(url);
            self.urls = selector;
            proof {
                assert(final(self)@.urls =~= resolve_urls(old(self)@, us).urls);
            }
        }
    }

    /// Applies the multiple rule for two or more URLs.
    fn multiple_urls(&mut self, urls: Vec<Url>)
        requires
            urls@.len() >= 2,
        ensures
            final(self)@ == resolve_urls(old(self)@, urls@.map_values(|u: Url| u@)),
    {
        self.urls_primary_name = find_primary_name(&urls);
        self.url = None;
        self.urls = label_urls(urls);
    }
}

} // verus!
