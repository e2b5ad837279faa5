//! Absolute URLs, parsed and edited by the `url` crate.
//!
//! A [`WebUrl`] holds a `url::Url`; its view is the model of the parts that the
//! client reads. What the crate computes from a string, and what each editing
//! method makes of a URL, are named results: the functions below are the only
//! places where a URL is made or changed.

use vstd::prelude::*;

verus! {

#[verifier::external_type_specification]
#[verifier::external_body]
pub struct ExUrl(url::Url);

/// The parts of an absolute URL that the client reads.
pub struct UrlModel {
    pub scheme: Seq<char>,
    pub host: Option<Seq<char>>,
    pub port: Option<u16>,
    pub path: Seq<char>,
    pub query: Option<Seq<char>>,
    pub fragment: Option<Seq<char>>,
    pub serialization: Seq<char>,
}

/// What `url::Url::parse` makes of a string: the model of the URL, or the
/// text of the parse error.
pub uninterp spec fn spec_url_parse(input: Seq<char>) -> Result<UrlModel, Seq<char>>;

/// The URL after `url::Url::set_path(path)`.
pub uninterp spec fn spec_url_set_path(url: UrlModel, path: Seq<char>) -> UrlModel;

/// The URL after `url::Url::set_query(query)`.
pub uninterp spec fn spec_url_set_query(url: UrlModel, query: Option<Seq<char>>) -> UrlModel;

/// The URL after `url::Url::set_fragment(fragment)`.
pub uninterp spec fn spec_url_set_fragment(url: UrlModel, fragment: Option<Seq<char>>) -> UrlModel;

/// The URL after `query_pairs_mut().append_pair(name, value)`.
pub uninterp spec fn spec_url_append_pair(url: UrlModel, name: Seq<char>, value: Seq<char>) -> UrlModel;

/// The (name, value) pairs that `form_urlencoded::parse` decodes from a string.
pub uninterp spec fn spec_form_urlencoded_parse(input: Seq<char>) -> Seq<(Seq<char>, Seq<char>)>;

pub open spec fn opt_str_view(o: Option<&str>) -> Option<Seq<char>> {
    match o {
        Some(s) => Some(s@),
        None => None,
    }
}

pub open spec fn pairs_view(v: Seq<(String, String)>) -> Seq<(Seq<char>, Seq<char>)> {
    v.map_values(|p: (String, String)| (p.0@, p.1@))
}

/// The model of a parse result.
pub open spec fn parsed_view(r: Result<WebUrl, String>) -> Result<UrlModel, Seq<char>> {
    match r {
        Ok(u) => Ok(u@),
        Err(e) => Err(e@),
    }
}

/// An absolute URL.
pub struct WebUrl {
    inner: url::Url,
    model: Ghost<UrlModel>,
}

impl View for WebUrl {
    type V = UrlModel;

    closed spec fn view(&self) -> UrlModel {
        self.model@
    }
}

impl WebUrl {
    /// `url::Url::parse`: the URL, or the text of the parse error, as the
    /// crate computes them from `input`.
    #[verifier::external_body]
    pub fn parse(input: &str) -> (r: Result<WebUrl, String>)
        ensures
            parsed_view(r) == spec_url_parse(input@),
    {
        match url::Url::parse(input) {
            Ok(inner) => Ok(WebUrl { inner, model: Ghost(arbitrary()) }),
            Err(e) => Err(e.to_string()),
        }
    }

    /// `url::Url::scheme`.
    #[verifier::external_body]
    pub fn scheme(&self) -> (r: String)
        ensures
            r@ == self@.scheme,
    {
        self.inner.scheme().to_string()
    }

    /// `url::Url::host_str`.
    #[verifier::external_body]
    pub fn host_str(&self) -> (r: Option<String>)
        ensures
            r is Some <==> self@.host is Some,
            r matches Some(h) ==> self@.host == Some(h@),
    {
        self.inner.host_str().map(|h| h.to_string())
    }

    /// `url::Url::port`.
    #[verifier::external_body]
    pub fn port(&self) -> (r: Option<u16>)
        ensures
            r == self@.port,
    {
        self.inner.port()
    }

    /// `url::Url::path`.
    #[verifier::external_body]
    pub fn path(&self) -> (r: String)
        ensures
            r@ == self@.path,
    {
        self.inner.path().to_string()
    }

    /// `url::Url::query`.
    #[verifier::external_body]
    pub fn query(&self) -> (r: Option<String>)
        ensures
            r is Some <==> self@.query is Some,
            r matches Some(q) ==> self@.query == Some(q@),
    {
        self.inner.query().map(|q| q.to_string())
    }

    /// `url::Url::fragment`.
    #[verifier::external_body]
    pub fn fragment(&self) -> (r: Option<String>)
        ensures
            r is Some <==> self@.fragment is Some,
            r matches Some(f) ==> self@.fragment == Some(f@),
    {
        self.inner.fragment().map(|f| f.to_string())
    }

    /// `url::Url::as_str`, the serialization.
    #[verifier::external_body]
    pub fn as_string(&self) -> (r: String)
        ensures
            r@ == self@.serialization,
    {
        self.inner.as_str().to_string()
    }

    /// `url::Url::set_path`.
    #[verifier::external_body]
    pub fn set_path(&mut self, path: &str)
        ensures
            final(self)@ == spec_url_set_path(old(self)@, path@),
    {
        self.inner.set_path(path);
    }

    /// `url::Url::set_query`; per the crate's documentation, `None` clears the query.
    #[verifier::external_body]
    pub fn set_query(&mut self, query: Option<&str>)
        ensures
            final(self)@ == spec_url_set_query(old(self)@, opt_str_view(query)),
            query is None ==> final(self)@.query is None,
    {
        self.inner.set_query(query);
    }

    /// `url::Url::set_fragment`; per the crate's documentation, `None` removes the fragment.
    #[verifier::external_body]
    pub fn set_fragment(&mut self, fragment: Option<&str>)
        ensures
            final(self)@ == spec_url_set_fragment(old(self)@, opt_str_view(fragment)),
            fragment is None ==> final(self)@.fragment is None,
    {
        self.inner.set_fragment(fragment);
    }

    /// `query_pairs_mut().append_pair(name, value)`; the URL then has a query.
    #[verifier::external_body]
    pub fn append_query_pair(&mut self, name: &str, value: &str)
        ensures
            final(self)@ == spec_url_append_pair(old(self)@, name@, value@),
            final(self)@.query is Some,
    {
        self.inner.query_pairs_mut().append_pair(name, value);
    }

    /// The `url::Url` that this value holds; its view models that URL's parts.
    pub closed spec fn held_url(self) -> url::Url {
        self.inner
    }

    /// The underlying `url::Url`, for the shell that opens it.
    pub fn into_inner(self) -> (r: url::Url)
        ensures
            r == self.held_url(),
    {
        self.inner
    }
}

/// `form_urlencoded::parse`: the decoded (name, value) pairs of `input`, in order.
#[verifier::external_body]
pub fn form_urlencoded_pairs(input: &str) -> (r: Vec<(String, String)>)
    ensures
        pairs_view(r@) == spec_form_urlencoded_parse(input@),
{
    url::form_urlencoded::parse(input.as_bytes()).map(|(k, v)| (k.into_owned(), v.into_owned())).collect()
}

} // verus!
