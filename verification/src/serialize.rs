//! Serializes a [`Config`] into the JSON text the viewer's bundled script
//! expects, and splices that text into a page template.
//!
//! The emitted text must match what the viewer was written against character
//! for character: two-space pretty printing, the declared key order, an
//! absent optional field emits nothing, two keys keep their literal
//! non-camel-case spelling (`dom_id` and `urls.primaryName`), and an attached
//! OAuth configuration never appears.

use vstd::prelude::*;

use crate::config::{
    opt_basic_auth_view, opt_isize_view, opt_str_list_view, opt_str_view,
    opt_syntax_highlight_view, opt_usize_view, BasicAuth, BasicAuthView, Config, ConfigView,
    SyntaxHighlight, SyntaxHighlightView,
};
use crate::strutil::{
    append_escaped, append_i64, append_joined, append_u64, dec_int, joined, json_escape,
    replace_all, replace_str,
};
use crate::url::{Url, UrlView};

verus! {

/// A JSON string literal for `s`: the escaped characters between quotes.
pub open spec fn json_str(s: Seq<char>) -> Seq<char> {
    "\""@ + json_escape(s) + "\""@
}

/// An object entry at the top indentation level whose value is the string
/// `v`.
pub open spec fn str_entry(key: Seq<char>, v: Seq<char>) -> Seq<char> {
    "  \""@ + key + "\": "@ + json_str(v)
}

/// An object entry at the top indentation level whose value is the boolean
/// `b`.
pub open spec fn bool_entry(key: Seq<char>, b: bool) -> Seq<char> {
    "  \""@ + key + "\": "@ + (if b {
        "true"@
    } else {
        "false"@
    })
}

/// An object entry at the top indentation level whose value is the integer
/// `v`.
pub open spec fn int_entry(key: Seq<char>, v: int) -> Seq<char> {
    "  \""@ + key + "\": "@ + dec_int(v)
}

/// The entries an optional string field contributes: one entry when set,
/// none when absent.
pub open spec fn opt_str_entry(key: Seq<char>, v: Option<Seq<char>>) -> Seq<Seq<char>> {
    match v {
        Some(s) => seq![str_entry(key, s)],
        None => Seq::empty(),
    }
}

/// The entries an optional boolean field contributes.
pub open spec fn opt_bool_entry(key: Seq<char>, v: Option<bool>) -> Seq<Seq<char>> {
    match v {
        Some(b) => seq![bool_entry(key, b)],
        None => Seq::empty(),
    }
}

/// The entries an optional integer field contributes.
pub open spec fn opt_int_entry(key: Seq<char>, v: Option<int>) -> Seq<Seq<char>> {
    match v {
        Some(i) => seq![int_entry(key, i)],
        None => Seq::empty(),
    }
}

/// A pretty-printed array of strings as the value of a top-level entry: an
/// empty array stays on one line, any other lays one element per line.
pub open spec fn str_list_value(vs: Seq<Seq<char>>) -> Seq<char> {
    if vs.len() == 0 {
        "[]"@
    } else {
        "[\n"@ + joined(vs.map_values(|v: Seq<char>| "    "@ + json_str(v)), ",\n"@) + "\n  ]"@
    }
}

/// The entries an optional list-of-strings field contributes.
pub open spec fn opt_str_list_entry(key: Seq<char>, v: Option<Seq<Seq<char>>>) -> Seq<Seq<char>> {
    match v {
        Some(vs) => seq!["  \""@ + key + "\": "@ + str_list_value(vs)],
        None => Seq::empty(),
    }
}

/// One URL of the selector list as a pretty-printed object: its name and its
/// URL; the primary flag is never serialized.
pub open spec fn url_object(u: UrlView) -> Seq<char> {
    "    {\n      \"name\": "@ + json_str(u.name) + ",\n      \"url\": "@ + json_str(u.url)
        + "\n    }"@
}

/// The entries the selector list contributes: nothing while it is empty, one
/// `urls` entry otherwise.
pub open spec fn urls_entry(us: Seq<UrlView>) -> Seq<Seq<char>> {
    if us.len() == 0 {
        Seq::empty()
    } else {
        seq![
            "  \"urls\": [\n"@ + joined(us.map_values(|u: UrlView| url_object(u)), ",\n"@)
                + "\n  ]"@,
        ]
    }
}

/// The pretty-printed syntax highlighting object: the activated flag, and
/// the theme only when one was chosen.
pub open spec fn syntax_highlight_object(s: SyntaxHighlightView) -> Seq<char> {
    "  \"syntaxHighlight\": {\n    \"activated\": "@ + (if s.activated {
        "true"@
    } else {
        "false"@
    }) + (match s.theme {
        Some(t) => ",\n    \"theme\": "@ + json_str(t),
        None => Seq::<char>::empty(),
    }) + "\n  }"@
}

/// The entries an optional syntax highlighting field contributes.
pub open spec fn syntax_highlight_entry(v: Option<SyntaxHighlightView>) -> Seq<Seq<char>> {
    match v {
        Some(s) => seq![syntax_highlight_object(s)],
        None => Seq::empty(),
    }
}

/// The pretty-printed basic authentication object: username and password are
/// both always present.
pub open spec fn basic_auth_object(b: BasicAuthView) -> Seq<char> {
    "  \"basicAuth\": {\n    \"username\": "@ + json_str(b.username) + ",\n    \"password\": "@
        + json_str(b.password) + "\n  }"@
}

/// The entries an optional basic authentication field contributes.
pub open spec fn basic_auth_entry(v: Option<BasicAuthView>) -> Seq<Seq<char>> {
    match v {
        Some(b) => seq![basic_auth_object(b)],
        None => Seq::empty(),
    }
}

/// Every serialized entry of `c`, in the viewer's expected order. An absent
/// optional field contributes no entry; an empty selector list contributes
/// no `urls` entry; `dom_id` and `urls.primaryName` keep their literal keys;
/// the layout is always present; an attached OAuth configuration contributes
/// nothing.
pub open spec fn config_entries(c: ConfigView) -> Seq<Seq<char>> {
    opt_str_entry("configUrl"@, c.config_url) + opt_str_entry("dom_id"@, c.dom_id)
        + opt_str_entry("url"@, c.url) + opt_str_entry("urls.primaryName"@, c.urls_primary_name)
        + urls_entry(c.urls) + opt_bool_entry("queryConfigEnabled"@, c.query_config_enabled)
        + opt_bool_entry("deepLinking"@, c.deep_linking) + opt_bool_entry(
        "displayOperationId"@,
        c.display_operation_id,
    ) + opt_int_entry("defaultModelsExpandDepth"@, c.default_models_expand_depth) + opt_int_entry(
        "defaultModelExpandDepth"@,
        c.default_model_expand_depth,
    ) + opt_str_entry("defaultModelRendering"@, c.default_model_rendering) + opt_bool_entry(
        "displayRequestDuration"@,
        c.display_request_duration,
    ) + opt_str_entry("docExpansion"@, c.doc_expansion) + opt_bool_entry("filter"@, c.filter)
        + opt_int_entry("maxDisplayedTags"@, c.max_displayed_tags) + opt_bool_entry(
        "showExtensions"@,
        c.show_extensions,
    ) + opt_bool_entry("showCommonExtensions"@, c.show_common_extensions) + opt_bool_entry(
        "tryItOutEnabled"@,
        c.try_it_out_enabled,
    ) + opt_bool_entry("requestSnippetsEnabled"@, c.request_snippets_enabled) + opt_str_entry(
        "oauth2RedirectUrl"@,
        c.oauth2_redirect_url,
    ) + opt_bool_entry("showMutatedRequest"@, c.show_mutated_request) + opt_str_list_entry(
        "supportedSubmitMethods"@,
        c.supported_submit_methods,
    ) + opt_str_entry("validatorUrl"@, c.validator_url) + opt_bool_entry(
        "withCredentials"@,
        c.with_credentials,
    ) + opt_bool_entry("persistAuthorization"@, c.persist_authorization) + syntax_highlight_entry(
        c.syntax_highlight,
    ) + seq![str_entry("layout"@, c.layout)] + basic_auth_entry(c.basic_auth)
}

/// The body of the pretty-printed JSON object for `c`: its entries, each on
/// its own lines, joined by commas. The full object is this body between
/// `{` and `}`; the page template splices the bare body between fixed
/// sibling entries, so the body itself is the unit of text this module
/// produces.
pub open spec fn config_json_body(c: ConfigView) -> Seq<char> {
    joined(config_entries(c), ",\n"@)
}

/// Appends the JSON string literal for `v` to `out`.
fn append_json_str(out: &mut String, v: &str)
    ensures
        final(out)@ == old(out)@ + json_str(v@),
{
    out.append("\"");
    append_escaped(out, v);
    out.append("\"");
    proof {
        assert(final(out)@ =~= old(out)@ + json_str(v@));
    }
}

/// The serialized entry for a string-valued field.
fn make_str_entry(key: &str, v: &str) -> (r: String)
    ensures
        r@ == str_entry(key@, v@),
{
    let mut s = String::new();
    s.append("  \"");
    s.append(key);
    s.append("\": ");
    append_json_str(&mut s, v);
    proof {
        assert(s@ =~= str_entry(key@, v@));
    }
    s
}

/// The serialized entry for a boolean-valued field.
fn make_bool_entry(key: &str, b: bool) -> (r: String)
    ensures
        r@ == bool_entry(key@, b),
{
    let mut s = String::new();
    s.append("  \"");
    s.append(key);
    s.append("\": ");
    if b {
        s.append("true");
    } else {
        s.append("false");
    }
    proof {
        assert(s@ =~= bool_entry(key@, b));
    }
    s
}

/// The serialized entry for an integer-valued field.
fn make_i64_entry(key: &str, v: i64) -> (r: String)
    ensures
        r@ == int_entry(key@, v as int),
{
    let mut s = String::new();
    s.append("  \"");
    s.append(key);
    s.append("\": ");
    append_i64(&mut s, v);
    proof {
        assert(s@ =~= int_entry(key@, v as int));
    }
    s
}

/// Appending one element keeps a vector's string views aligned: the views of
/// `prev` with `x` appended are the views of `prev.push(x)`.
proof fn lemma_view_push(prev: Seq<String>, x: String)
    ensures
        prev.push(x).map_values(|p: String| p@) == prev.map_values(|p: String| p@).push(x@),
{
    let lhs = prev.push(x).map_values(|p: String| p@);
    let rhs = prev.map_values(|p: String| p@).push(x@);
    assert forall|j: int| 0 <= j < lhs.len() implies #[trigger] lhs[j] == rhs[j] by {
        if j < prev.len() {
            assert(prev.push(x)[j] == prev[j]);
        } else {
            assert(prev.push(x)[j] == x);
        }
    }
    assert(lhs =~= rhs);
}

/// Appends one serialized entry to the collected parts.
fn push_part(parts: &mut Vec<String>, part: String)
    ensures
        final(parts)@.map_values(|p: String| p@) == old(parts)@.map_values(|p: String| p@).push(
            part@,
        ),
{
    let ghost prev = parts@;
    let ghost x = part;
    parts.push(part);
    proof {
        lemma_view_push(prev, x);
    }
}

/// One element of a serialized string array, on its own indented line.
fn make_list_item(m: &str) -> (r: String)
    ensures
        r@ == "    "@ + json_str(m@),
{
    let mut s = String::new();
    s.append("    ");
    append_json_str(&mut s, m);
    proof {
        assert(s@ =~= "    "@ + json_str(m@));
    }
    s
}

/// The elements of a serialized string array, one per line.
fn make_list_items(vs: &Vec<String>) -> (items: Vec<String>)
    ensures
        items@.map_values(|p: String| p@) == vs@.map_values(|m: String| m@).map_values(
            |v: Seq<char>| "    "@ + json_str(v),
        ),
{
    let ghost target = vs@.map_values(|m: String| m@).map_values(|v: Seq<char>| "    "@ + json_str(v));
    let mut items: Vec<String> = Vec::new();
    let mut i: usize = 0;
    while i < vs.len()
        invariant
            target == vs@.map_values(|m: String| m@).map_values(
                |v: Seq<char>| "    "@ + json_str(v),
            ),
            target.len() == vs@.len(),
            i <= vs.len(),
            items@.map_values(|p: String| p@) =~= target.take(i as int),
        decreases vs.len() - i,
    {
        let item = make_list_item(vs[i].as_str());
        proof {
            assert(item@ == target[i as int]);
        }
        push_part(&mut items, item);
        proof {
            assert(target.take(i + 1) =~= target.take(i as int).push(target[i as int]));
        }
        i = i + 1;
    }
    proof {
        assert(target.take(vs@.len() as int) =~= target);
    }
    items
}

/// The serialized entry for a list-of-strings field.
fn make_str_list_entry(key: &str, vs: &Vec<String>) -> (r: String)
    ensures
        r@ == "  \""@ + key@ + "\": "@ + str_list_value(vs@.map_values(|m: String| m@)),
{
    let mut s = String::new();
    s.append("  \"");
    s.append(key);
    s.append("\": ");
    if vs.len() == 0 {
        s.append("[]");
    } else {
        s.append("[\n");
        let items = make_list_items(vs);
        append_joined(&mut s, &items, ",\n");
        s.append("\n  ]");
    }
    proof {
        assert(s@ =~= "  \""@ + key@ + "\": "@ + str_list_value(vs@.map_values(|m: String| m@)));
    }
    s
}

/// One URL of the selector list as a pretty-printed object.
fn make_url_object(u: &Url) -> (r: String)
    ensures
        r@ == url_object(u@),
{
    let mut s = String::new();
    s.append("    {\n      \"name\": ");
    append_json_str(&mut s, u.name.as_str());
    s.append(",\n      \"url\": ");
    append_json_str(&mut s, u.url.as_str());
    s.append("\n    }");
    proof {
        assert(s@ =~= url_object(u@));
    }
    s
}

/// The pretty-printed objects of the selector list, one per URL.
fn make_url_objects(urls: &Vec<Url>) -> (items: Vec<String>)
    ensures
        items@.map_values(|p: String| p@) == urls@.map_values(|u: Url| u@).map_values(
            |u: UrlView| url_object(u),
        ),
{
    let ghost target = urls@.map_values(|u: Url| u@).map_values(|u: UrlView| url_object(u));
    let mut items: Vec<String> = Vec::new();
    let mut i: usize = 0;
    while i < urls.len()
        invariant
            target == urls@.map_values(|u: Url| u@).map_values(|u: UrlView| url_object(u)),
            target.len() == urls@.len(),
            i <= urls.len(),
            items@.map_values(|p: String| p@) =~= target.take(i as int),
        decreases urls.len() - i,
    {
        let item = make_url_object(&urls[i]);
        proof {
            assert(item@ == target[i as int]);
        }
        push_part(&mut items, item);
        proof {
            assert(target.take(i + 1) =~= target.take(i as int).push(target[i as int]));
        }
        i = i + 1;
    }
    proof {
        assert(target.take(urls@.len() as int) =~= target);
    }
    items
}

/// The serialized `urls` entry for a non-empty selector list.
fn make_urls_entry(urls: &Vec<Url>) -> (r: String)
    requires
        urls@.len() > 0,
    ensures
        r@ == "  \"urls\": [\n"@ + joined(
            urls@.map_values(|u: Url| u@).map_values(|u: UrlView| url_object(u)),
            ",\n"@,
        ) + "\n  ]"@,
{
    let mut s = String::new();
    s.append("  \"urls\": [\n");
    let items = make_url_objects(urls);
    append_joined(&mut s, &items, ",\n");
    s.append("\n  ]");
    proof {
        assert(s@ =~= "  \"urls\": [\n"@ + joined(
            urls@.map_values(|u: Url| u@).map_values(|u: UrlView| url_object(u)),
            ",\n"@,
        ) + "\n  ]"@);
    }
    s
}

/// The serialized syntax highlighting entry.
fn make_syntax_highlight_entry(sh: &SyntaxHighlight) -> (r: String)
    ensures
        r@ == syntax_highlight_object(sh@),
{
    let mut s = String::new();
    s.append("  \"syntaxHighlight\": {\n    \"activated\": ");
    if sh.activated {
        s.append("true");
    } else {
        s.append("false");
    }
    match &sh.theme {
        Some(t) => {
            s.append(",\n    \"theme\": ");
            append_json_str(&mut s, t);
        },
        None => {},
    }
    s.append("\n  }");
    proof {
        assert(s@ =~= syntax_highlight_object(sh@));
    }
    s
}

/// The serialized basic authentication entry.
fn make_basic_auth_entry(b: &BasicAuth) -> (r: String)
    ensures
        r@ == basic_auth_object(b@),
{
    let mut s = String::new();
    s.append("  \"basicAuth\": {\n    \"username\": ");
    append_json_str(&mut s, b.username.as_str());
    s.append(",\n    \"password\": ");
    append_json_str(&mut s, b.password.as_str());
    s.append("\n  }");
    proof {
        assert(s@ =~= basic_auth_object(b@));
    }
    s
}

/// Appends the entry of an optional string field, when it is set.
fn push_opt_str_entry(parts: &mut Vec<String>, key: &str, v: &Option<String>)
    ensures
        final(parts)@.map_values(|p: String| p@) == old(parts)@.map_values(|p: String| p@)
            + opt_str_entry(key@, opt_str_view(*v)),
{
    match v {
        Some(s) => {
            let e = make_str_entry(key, s.as_str());
            push_part(parts, e);
            proof {
                assert(parts@.map_values(|p: String| p@) =~= old(parts)@.map_values(
                    |p: String| p@,
                ) + opt_str_entry(key@, opt_str_view(*v)));
            }
        },
        None => {
            proof {
                assert(parts@.map_values(|p: String| p@) =~= old(parts)@.map_values(
                    |p: String| p@,
                ) + opt_str_entry(key@, opt_str_view(*v)));
            }
        },
    }
}

/// Appends the entry of an optional boolean field, when it is set.
fn push_opt_bool_entry(parts: &mut Vec<String>, key: &str, v: &Option<bool>)
    ensures
        final(parts)@.map_values(|p: String| p@) == old(parts)@.map_values(|p: String| p@)
            + opt_bool_entry(key@, *v),
{
    match v {
        Some(b) => {
            let e = make_bool_entry(key, *b);
            push_part(parts, e);
            proof {
                assert(parts@.map_values(|p: String| p@) =~= old(parts)@.map_values(
                    |p: String| p@,
                ) + opt_bool_entry(key@, *v));
            }
        },
        None => {
            proof {
                assert(parts@.map_values(|p: String| p@) =~= old(parts)@.map_values(
                    |p: String| p@,
                ) + opt_bool_entry(key@, *v));
            }
        },
    }
}

/// Appends the entry of an optional signed depth field, when it is set.
fn push_opt_isize_entry(parts: &mut Vec<String>, key: &str, v: &Option<isize>)
    ensures
        final(parts)@.map_values(|p: String| p@) == old(parts)@.map_values(|p: String| p@)
            + opt_int_entry(key@, opt_isize_view(*v)),
{
    match v {
        Some(d) => {
            let e = make_i64_entry(key, *d as i64);
            push_part(parts, e);
            proof {
                assert(parts@.map_values(|p: String| p@) =~= old(parts)@.map_values(
                    |p: String| p@,
                ) + opt_int_entry(key@, opt_isize_view(*v)));
            }
        },
        None => {
            proof {
                assert(parts@.map_values(|p: String| p@) =~= old(parts)@.map_values(
                    |p: String| p@,
                ) + opt_int_entry(key@, opt_isize_view(*v)));
            }
        },
    }
}

/// The serialized entry for an unsigned integer field.
fn make_u64_entry(key: &str, v: u64) -> (r: String)
    ensures
        r@ == int_entry(key@, v as int),
{
    let mut s = String::new();
    s.append("  \"");
    s.append(key);
    s.append("\": ");
    append_u64(&mut s, v);
    proof {
        assert(s@ =~= int_entry(key@, v as int));
    }
    s
}

/// Appends the entry of an optional unsigned count field, when it is set.
fn push_opt_usize_entry(parts: &mut Vec<String>, key: &str, v: &Option<usize>)
    ensures
        final(parts)@.map_values(|p: String| p@) == old(parts)@.map_values(|p: String| p@)
            + opt_int_entry(key@, opt_usize_view(*v)),
{
    match v {
        Some(m) => {
            let e = make_u64_entry(key, *m as u64);
            push_part(parts, e);
            proof {
                assert(parts@.map_values(|p: String| p@) =~= old(parts)@.map_values(
                    |p: String| p@,
                ) + opt_int_entry(key@, opt_usize_view(*v)));
            }
        },
        None => {
            proof {
                assert(parts@.map_values(|p: String| p@) =~= old(parts)@.map_values(
                    |p: String| p@,
                ) + opt_int_entry(key@, opt_usize_view(*v)));
            }
        },
    }
}

/// Appends the `urls` entry, when the selector list is not empty.
fn push_urls_entry(parts: &mut Vec<String>, urls: &Vec<Url>)
    ensures
        final(parts)@.map_values(|p: String| p@) == old(parts)@.map_values(|p: String| p@)
            + urls_entry(urls@.map_values(|u: Url| u@)),
{
    if urls.len() > 0 {
        let e = make_urls_entry(urls);
        push_part(parts, e);
        proof {
            assert(parts@.map_values(|p: String| p@) =~= old(parts)@.map_values(|p: String| p@)
                + urls_entry(urls@.map_values(|u: Url| u@)));
        }
    } else {
        proof {
            assert(urls@.map_values(|u: Url| u@).len() == 0);
            assert(parts@.map_values(|p: String| p@) =~= old(parts)@.map_values(|p: String| p@)
                + urls_entry(urls@.map_values(|u: Url| u@)));
        }
    }
}

/// Appends the entry of an optional list-of-strings field, when it is set.
fn push_opt_str_list_entry(parts: &mut Vec<String>, key: &str, v: &Option<Vec<String>>)
    ensures
        final(parts)@.map_values(|p: String| p@) == old(parts)@.map_values(|p: String| p@)
            + opt_str_list_entry(key@, opt_str_list_view(*v)),
{
    match v {
        Some(vs) => {
            let e = make_str_list_entry(key, vs);
            push_part(parts, e);
            proof {
                assert(parts@.map_values(|p: String| p@) =~= old(parts)@.map_values(
                    |p: String| p@,
                ) + opt_str_list_entry(key@, opt_str_list_view(*v)));
            }
        },
        None => {
            proof {
                assert(parts@.map_values(|p: String| p@) =~= old(parts)@.map_values(
                    |p: String| p@,
                ) + opt_str_list_entry(key@, opt_str_list_view(*v)));
            }
        },
    }
}

/// Appends the syntax highlighting entry, when one is configured.
fn push_opt_syntax_highlight_entry(parts: &mut Vec<String>, v: &Option<SyntaxHighlight>)
    ensures
        final(parts)@.map_values(|p: String| p@) == old(parts)@.map_values(|p: String| p@)
            + syntax_highlight_entry(opt_syntax_highlight_view(*v)),
{
    match v {
        Some(sh) => {
            let e = make_syntax_highlight_entry(sh);
            push_part(parts, e);
            proof {
                assert(parts@.map_values(|p: String| p@) =~= old(parts)@.map_values(
                    |p: String| p@,
                ) + syntax_highlight_entry(opt_syntax_highlight_view(*v)));
            }
        },
        None => {
            proof {
                assert(parts@.map_values(|p: String| p@) =~= old(parts)@.map_values(
                    |p: String| p@,
                ) + syntax_highlight_entry(opt_syntax_highlight_view(*v)));
            }
        },
    }
}

/// Appends the basic authentication entry, when one is configured.
fn push_opt_basic_auth_entry(parts: &mut Vec<String>, v: &Option<BasicAuth>)
    ensures
        final(parts)@.map_values(|p: String| p@) == old(parts)@.map_values(|p: String| p@)
            + basic_auth_entry(opt_basic_auth_view(*v)),
{
    match v {
        Some(b) => {
            let e = make_basic_auth_entry(b);
            push_part(parts, e);
            proof {
                assert(parts@.map_values(|p: String| p@) =~= old(parts)@.map_values(
                    |p: String| p@,
                ) + basic_auth_entry(opt_basic_auth_view(*v)));
            }
        },
        None => {
            proof {
                assert(parts@.map_values(|p: String| p@) =~= old(parts)@.map_values(
                    |p: String| p@,
                ) + basic_auth_entry(opt_basic_auth_view(*v)));
            }
        },
    }
}

/// Every serialized entry of `c`, collected in the viewer's expected order.
fn collect_entries(c: &Config) -> (parts: Vec<String>)
    ensures
        parts@.map_values(|p: String| p@) == config_entries(c@),
{
    let mut parts: Vec<String> = Vec::new();
    push_opt_str_entry(&mut parts, "configUrl", &c.config_url);
    push_opt_str_entry(&mut parts, "dom_id", &c.dom_id);
    push_opt_str_entry(&mut parts, "url", &c.url);
    push_opt_str_entry(&mut parts, "urls.primaryName", &c.urls_primary_name);
    push_urls_entry(&mut parts, &c.urls);
    push_opt_bool_entry(&mut parts, "queryConfigEnabled", &c.query_config_enabled);
    push_opt_bool_entry(&mut parts, "deepLinking", &c.deep_linking);
    push_opt_bool_entry(&mut parts, "displayOperationId", &c.display_operation_id);
    push_opt_isize_entry(&mut parts, "defaultModelsExpandDepth", &c.default_models_expand_depth);
    push_opt_isize_entry(&mut parts, "defaultModelExpandDepth", &c.default_model_expand_depth);
    push_opt_str_entry(&mut parts, "defaultModelRendering", &c.default_model_rendering);
    push_opt_bool_entry(&mut parts, "displayRequestDuration", &c.display_request_duration);
    push_opt_str_entry(&mut parts, "docExpansion", &c.doc_expansion);
    push_opt_bool_entry(&mut parts, "filter", &c.filter);
    push_opt_usize_entry(&mut parts, "maxDisplayedTags", &c.max_displayed_tags);
    push_opt_bool_entry(&mut parts, "showExtensions", &c.show_extensions);
    push_opt_bool_entry(&mut parts, "showCommonExtensions", &c.show_common_extensions);
    push_opt_bool_entry(&mut parts, "tryItOutEnabled", &c.try_it_out_enabled);
    push_opt_bool_entry(&mut parts, "requestSnippetsEnabled", &c.request_snippets_enabled);
    push_opt_str_entry(&mut parts, "oauth2RedirectUrl", &c.oauth2_redirect_url);
    push_opt_bool_entry(&mut parts, "showMutatedRequest", &c.show_mutated_request);
    push_opt_str_list_entry(&mut parts, "supportedSubmitMethods", &c.supported_submit_methods);
    push_opt_str_entry(&mut parts, "validatorUrl", &c.validator_url);
    push_opt_bool_entry(&mut parts, "withCredentials", &c.with_credentials);
    push_opt_bool_entry(&mut parts, "persistAuthorization", &c.persist_authorization);
    push_opt_syntax_highlight_entry(&mut parts, &c.syntax_highlight);
    let layout_entry = make_str_entry("layout", c.layout);
    push_part(&mut parts, layout_entry);
    push_opt_basic_auth_entry(&mut parts, &c.basic_auth);
    proof {
        assert(parts@.map_values(|p: String| p@) =~= config_entries(c@));
    }
    parts
}

/// Serializes `c` as the body of its pretty-printed JSON object: the
/// entries of [`config_entries`], each on its own lines, joined by commas.
pub fn to_json_body(c: &Config) -> (r: String)
    ensures
        r@ == config_json_body(c@),
{
    let parts = collect_entries(c);
    let mut out = String::new();
    append_joined(&mut out, &parts, ",\n");
    proof {
        assert(out@ =~= config_json_body(c@));
    }
    out
}

/// Splices the serialized configuration into `file`: every `{{config}}`
/// placeholder is replaced by the pretty-printed entries of `config`, laid
/// out exactly as they would sit between the braces of the full JSON object.
pub fn format_config(config: &Config, file: &str) -> (r: String)
    ensures
        r@ == replace_all(file@, "{{config}}"@, config_json_body(config@)),
{
    let body = to_json_body(config);
    proof {
        reveal_strlit("{{config}}");
    }
    replace_str(file, "{{config}}", body.as_str())
}

/// The serialized text never depends on the attached OAuth configuration:
/// two configurations that differ in nothing else serialize identically, so
/// no `oauth` entry is ever emitted.
pub proof fn lemma_serialization_ignores_oauth(c1: ConfigView, c2: ConfigView)
    requires
        c2 == (ConfigView { oauth: c2.oauth, ..c1 }),
    ensures
        config_entries(c1) == config_entries(c2),
        config_json_body(c1) == config_json_body(c2),
{
}

/// A freshly created configuration serializes exactly three entries, in
/// this order: the DOM anchor, deep linking, and the layout. Every unset
/// optional field is omitted.
pub proof fn lemma_default_config_entries()
    ensures
        config_entries(crate::config::default_config()) == seq![
            str_entry("dom_id"@, "#swagger-ui"@),
            bool_entry("deepLinking"@, true),
            str_entry("layout"@, "StandaloneLayout"@),
        ],
{
    assert(config_entries(crate::config::default_config()) =~= seq![
        str_entry("dom_id"@, "#swagger-ui"@),
        bool_entry("deepLinking"@, true),
        str_entry("layout"@, "StandaloneLayout"@),
    ]);
}

} // verus!
