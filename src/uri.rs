//! Normalisation of a request URI to `scheme://authority/path`, and the
//! request name derived from it.
use vstd::prelude::*;
use crate::deps::{uri_host, uri_path, uri_port, uri_scheme};
use crate::text::{decimal, push_char, push_decimal};

verus! {

/// The text of the URI that http's builder makes from a scheme, an authority
/// and a path; `None` where the builder refuses the parts.
pub uninterp spec fn rebuilt_uri(scheme: Seq<char>, authority: Seq<char>, path: Seq<char>) -> Option<
    Seq<char>,
>;

/// Relies on http's `Uri::builder` with `scheme`, `authority` and
/// `path_and_query`, then `build` and the URI's `Display`, which writes the
/// scheme, `://` and the authority as they were given.
#[verifier::external_body]
fn build_uri(scheme: &str, authority: &str, path: &str) -> (r: Option<String>)
    ensures
        r is Some <==> rebuilt_uri(scheme@, authority@, path@) is Some,
        r matches Some(t) ==> rebuilt_uri(scheme@, authority@, path@) == Some(t@),
        r matches Some(t) ==> (scheme@ + "://"@ + authority@).is_prefix_of(t@),
{
    let built = http::Uri::builder().scheme(scheme).authority(authority).path_and_query(path).build();
    built.ok().map(|u| u.to_string())
}

/// The text of a URI, as its `Display` writes it.
pub uninterp spec fn uri_display(u: http::Uri) -> Seq<char>;

/// Relies on the `Display` of http's `Uri`: the URI's text.
#[verifier::external_body]
fn uri_text(u: &http::Uri) -> (r: String)
    ensures
        r@ == uri_display(*u),
{
    u.to_string()
}

/// What normalisation reads of a URI: its scheme, host, port, path, and its
/// full text.
#[derive(Debug, PartialEq, Eq)]
pub struct UriParts {
    pub scheme: Option<String>,
    pub host: Option<String>,
    pub port: Option<u16>,
    pub path: String,
    pub text: String,
}

/// The text of an optional string.
pub open spec fn opt_view(s: Option<String>) -> Option<Seq<char>> {
    match s {
        Some(t) => Some(t@),
        None => None,
    }
}

/// The text of an optional part, empty where it is absent.
pub open spec fn or_empty(s: Option<Seq<char>>) -> Seq<char> {
    match s {
        Some(t) => t,
        None => Seq::empty(),
    }
}

/// `host[:port]`.
pub open spec fn authority_text(host: Option<Seq<char>>, port: Option<u16>) -> Seq<char> {
    or_empty(host) + match port {
        Some(p) => seq![':'] + decimal(p as nat),
        None => Seq::empty(),
    }
}

/// `scheme://host[:port]path` where the builder accepts these parts, else
/// `text`, the URI as it was.
pub open spec fn normalized_from(
    scheme: Option<Seq<char>>,
    host: Option<Seq<char>>,
    port: Option<u16>,
    path: Seq<char>,
    text: Seq<char>,
) -> Seq<char> {
    match rebuilt_uri(or_empty(scheme), authority_text(host, port), path) {
        Some(t) => t,
        None => text,
    }
}

/// The normalised text of the URI that `parts` were read from.
pub open spec fn normalized_text(parts: UriParts) -> Seq<char> {
    normalized_from(opt_view(parts.scheme), opt_view(parts.host), parts.port, parts.path@, parts.text@)
}

/// The normalised text of an http URI.
pub open spec fn normalized_uri(u: http::Uri) -> Seq<char> {
    normalized_from(uri_scheme(u), uri_host(u), uri_port(u), uri_path(u), uri_display(u))
}

/// `"<verb> <uri>"`.
pub open spec fn request_name(verb: Seq<char>, uri: Seq<char>) -> Seq<char> {
    verb + seq![' '] + uri
}

fn opt_text(s: &Option<String>) -> (r: String)
    ensures
        r@ == or_empty(opt_view(*s)),
{
    match s {
        Some(t) => t.clone(),
        None => String::new(),
    }
}

impl UriParts {
    /// Reads the parts of an http URI.
    pub fn of(uri: &http::Uri) -> (r: UriParts)
        ensures
            opt_view(r.scheme) == uri_scheme(*uri),
            opt_view(r.host) == uri_host(*uri),
            r.port == uri_port(*uri),
            r.path@ == uri_path(*uri),
            r.text@ == uri_display(*uri),
            normalized_text(r) == normalized_uri(*uri),
    {
        let scheme = match uri.scheme_str() {
            Some(s) => Some(s.to_owned()),
            None => None,
        };
        let host = match uri.host() {
            Some(h) => Some(h.to_owned()),
            None => None,
        };
        UriParts { scheme, host, port: uri.port_u16(), path: uri.path().to_owned(), text: uri_text(uri) }
    }

    /// The authority `host[:port]`; an absent host gives an empty host.
    pub fn authority(&self) -> (r: String)
        ensures
            r@ == authority_text(opt_view(self.host), self.port),
    {
        let mut a = opt_text(&self.host);
        if let Some(p) = self.port {
            push_char(&mut a, ':');
            push_decimal(&mut a, p as u128);
        }
        assert(a@ =~= authority_text(opt_view(self.host), self.port));
        a
    }

    /// The URI with its query removed, as `scheme://authority/path`; where the
    /// parts cannot be put back together, the URI unchanged.
    pub fn normalize(&self) -> (r: String)
        ensures
            r@ == normalized_text(*self),
    {
        let scheme = opt_text(&self.scheme);
        let authority = self.authority();
        let rebuilt = build_uri(scheme.as_str(), authority.as_str(), self.path.as_str());
        choose_uri(rebuilt, self.text.clone())
    }
}

/// The rebuilt URI if there is one, else the original text.
pub fn choose_uri(rebuilt: Option<String>, original: String) -> (r: String)
    ensures
        r@ == match rebuilt {
            Some(t) => t@,
            None => original@,
        },
{
    match rebuilt {
        Some(t) => t,
        None => original,
    }
}

/// The name of a request: its verb, a space, and its URI.
pub fn name_of(verb: &str, uri: &String) -> (r: String)
    ensures
        r@ == request_name(verb@, uri@),
{
    let mut n = verb.to_owned();
    push_char(&mut n, ' ');
    n.append(uri.as_str());
    assert(n@ =~= request_name(verb@, uri@));
    n
}

} // verus!
