//! The client and its request builder.
//!
//! A [`Client`] holds the configuration one request execution reads: the
//! redirect policy and the auto-decompression flag. The transport handle
//! itself — connections, TLS, timeouts — belongs to the collaborator that
//! drives the engine, outside this crate.
//!
//! A [`RequestBuilder`] accumulates method, URL, headers and body for one
//! logical request; [`RequestBuilder::prepare`] finalizes the default
//! headers exactly once and surfaces the deferred URL and body-encoding
//! errors, yielding the initial [`RequestState`] of the redirect loop.
use vstd::prelude::*;

use crate::body::Body;
use crate::body::BodyView;
use crate::engine::RequestState;
use crate::engine::StateView;
use crate::error::Error;
use crate::error::ErrorView;
use crate::error::Kind;
use crate::error::KindView;
use crate::header::has_key;
use crate::header::pairs_view;
use crate::header::set_value;
use crate::header::Headers;
use crate::method::Method;
use crate::redirect::is_limit;
use crate::redirect::CustomPolicy;
use crate::redirect::NoCustom;
use crate::redirect::RedirectPolicy;
use crate::url::url_parse_norm;
use crate::url::Url;
use crate::url::UrlError;

verus! {

/// The `User-Agent` value a request gets when none was set.
pub const DEFAULT_USER_AGENT: &'static str = "reqwest/0.2.0";

/// The form body that `serde_urlencoded` produces on the given pairs, as
/// UTF-8 bytes.
pub uninterp spec fn form_urlencoded_bytes(pairs: Seq<(Seq<char>, Seq<char>)>) -> Seq<u8>;

/// The JSON object that `serde_json` produces on the given pairs, as
/// bytes.
pub uninterp spec fn json_object_bytes(pairs: Seq<(Seq<char>, Seq<char>)>) -> Seq<u8>;

/// Relies on `serde_urlencoded::to_string`: URL-encoding a sequence of
/// string pairs yields text that depends on the pairs alone, and cannot
/// fail — string keys and values only ever take the serializer's string
/// path, which is total.
#[verifier::external_body]
fn encode_form_pairs(pairs: &Vec<(String, String)>) -> (r: Result<Vec<u8>, String>)
    ensures
        r is Ok,
        r matches Ok(b) ==> b@ == form_urlencoded_bytes(pairs_view(pairs@)),
{
    match ::serde_urlencoded::to_string(pairs) {
        Ok(s) => Ok(s.into_bytes()),
        Err(e) => Err(format!("{}", e)),
    }
}

/// Relies on `serde_json::to_vec` on a map collected from the pairs — a
/// `serde_json::Map`, so later duplicates win and keys come out sorted —
/// which yields bytes that depend on the pairs alone, and cannot fail:
/// serialization errors arise only from a failing `Serialize` impl or a
/// non-string map key, and a string-keyed map of string values has
/// neither.
#[verifier::external_body]
fn encode_json_object(pairs: &Vec<(String, String)>) -> (r: Result<Vec<u8>, String>)
    ensures
        r is Ok,
        r matches Ok(b) ==> b@ == json_object_bytes(pairs_view(pairs@)),
{
    let mut object = ::serde_json::Map::new();
    for (name, value) in pairs.iter() {
        object.insert(name.clone(), ::serde_json::Value::String(value.clone()));
    }
    match ::serde_json::to_vec(&::serde_json::Value::Object(object)) {
        Ok(b) => Ok(b),
        Err(e) => Err(format!("{}", e)),
    }
}

/// The form body of the given pairs: their URL-encoded serialization.
pub fn form_body(pairs: &Vec<(String, String)>) -> (r: Body)
    ensures
        r@ == BodyView::Bytes(form_urlencoded_bytes(pairs_view(pairs@))),
{
    match encode_form_pairs(pairs) {
        Ok(bytes) => Body::from_bytes(bytes),
        Err(_) => unreached(),
    }
}

/// The JSON body of the given pairs: their JSON object serialization.
pub fn json_body(pairs: &Vec<(String, String)>) -> (r: Body)
    ensures
        r@ == BodyView::Bytes(json_object_bytes(pairs_view(pairs@))),
{
    match encode_json_object(pairs) {
        Ok(bytes) => Body::from_bytes(bytes),
        Err(_) => unreached(),
    }
}

/// A `Client` to make requests with: the redirect policy and the
/// auto-decompression flag that one request execution reads. Sharing it
/// between threads, and the transport handle with its timeouts, belong to
/// the caller that owns the transport.
pub struct Client<C: CustomPolicy> {
    pub redirect_policy: RedirectPolicy<C>,
    pub auto_ungzip: bool,
}

impl Client<NoCustom> {
    /// Constructs a new `Client`, with the default policy — a limit of 10
    /// redirects with loop detection — and auto-decompression enabled.
    pub fn new() -> (r: Result<Client<NoCustom>, Error>)
        ensures
            r matches Ok(c) ==> is_limit(&c.redirect_policy, 10) && c.auto_ungzip,
            r is Ok,
    {
        Ok(Client { redirect_policy: RedirectPolicy::limited(10), auto_ungzip: true })
    }
}

impl<C: CustomPolicy> Client<C> {
    /// Enable (or disable) auto gzip decompression for responses.
    pub fn gzip(&mut self, enable: bool)
        ensures
            final(self).auto_ungzip == enable,
            final(self).redirect_policy == old(self).redirect_policy,
    {
        self.auto_ungzip = enable;
    }

    /// Set a `RedirectPolicy` for this client.
    pub fn redirect(&mut self, policy: RedirectPolicy<C>)
        ensures
            final(self).redirect_policy == policy,
            final(self).auto_ungzip == old(self).auto_ungzip,
    {
        self.redirect_policy = policy;
    }

    /// Convenience method to make a `GET` request to a URL.
    pub fn get(&self, url: &str) -> (r: RequestBuilder<'_, C>)
        ensures
            fresh_builder(r@, Method::Get, url@),
            r.client == self,
    {
        self.request(Method::Get, url)
    }

    /// Convenience method to make a `POST` request to a URL.
    pub fn post(&self, url: &str) -> (r: RequestBuilder<'_, C>)
        ensures
            fresh_builder(r@, Method::Post, url@),
            r.client == self,
    {
        self.request(Method::Post, url)
    }

    /// Convenience method to make a `PUT` request to a URL.
    pub fn put(&self, url: &str) -> (r: RequestBuilder<'_, C>)
        ensures
            fresh_builder(r@, Method::Put, url@),
            r.client == self,
    {
        self.request(Method::Put, url)
    }

    /// Convenience method to make a `PATCH` request to a URL.
    pub fn patch(&self, url: &str) -> (r: RequestBuilder<'_, C>)
        ensures
            fresh_builder(r@, Method::Patch, url@),
            r.client == self,
    {
        self.request(Method::Patch, url)
    }

    /// Convenience method to make a `DELETE` request to a URL.
    pub fn delete(&self, url: &str) -> (r: RequestBuilder<'_, C>)
        ensures
            fresh_builder(r@, Method::Delete, url@),
            r.client == self,
    {
        self.request(Method::Delete, url)
    }

    /// Convenience method to make a `HEAD` request to a URL.
    pub fn head(&self, url: &str) -> (r: RequestBuilder<'_, C>)
        ensures
            fresh_builder(r@, Method::Head, url@),
            r.client == self,
    {
        self.request(Method::Head, url)
    }

    /// Start building a request with the method and URL. A URL that does
    /// not parse is kept as its deferred error and surfaces at
    /// [`RequestBuilder::prepare`].
    pub fn request(&self, method: Method, url: &str) -> (r: RequestBuilder<'_, C>)
        ensures
            fresh_builder(r@, method, url@),
            r.client == self,
    {
        RequestBuilder {
            client: self,
            method,
            url: Url::parse(url),
            headers: Headers::new(),
            body: None,
        }
    }
}

/// A builder to construct the properties of a request.
pub struct RequestBuilder<'a, C: CustomPolicy> {
    pub client: &'a Client<C>,
    pub method: Method,
    pub url: Result<Url, UrlError>,
    pub headers: Headers,
    pub body: Option<Result<Body, Error>>,
}

/// The mathematical content of a [`RequestBuilder`]: its method, its URL
/// slot — the parse's serialization, or the parse failure's description —
/// its headers, and its deferred body slot.
pub struct BuilderView {
    pub method: Method,
    pub url: Result<Seq<char>, Seq<char>>,
    pub headers: Seq<(Seq<char>, Seq<char>)>,
    pub body: Option<Result<BodyView, ErrorView>>,
}

impl<'a, C: CustomPolicy> View for RequestBuilder<'a, C> {
    type V = BuilderView;

    open spec fn view(&self) -> BuilderView {
        BuilderView {
            method: self.method,
            url: match &self.url {
                Ok(u) => Ok(u@),
                Err(e) => Err(e.message@),
            },
            headers: self.headers@,
            body: match &self.body {
                Some(Ok(b)) => Some(Ok(b@)),
                Some(Err(e)) => Some(Err(e@)),
                None => None,
            },
        }
    }
}

/// What a just-created builder holds: the method, the URL's parse — kept
/// as a deferred failure when it failed — no headers, and no body.
pub open spec fn fresh_builder(b: BuilderView, method: Method, url: Seq<char>) -> bool {
    &&& b.method == method
    &&& (b.url is Ok <==> url_parse_norm(url) is Some)
    &&& (b.url matches Ok(u) ==> url_parse_norm(url) == Some(u))
    &&& b.headers == Seq::<(Seq<char>, Seq<char>)>::empty()
    &&& b.body is None
}

/// The headers after the defaults are applied, exactly once, before the
/// redirect loop begins: a `User-Agent` if none is present, a wildcard
/// `Accept` if none is present, and — when auto-decompression is on and
/// neither `Accept-Encoding` nor `Range` is set — a gzip
/// `Accept-Encoding`.
pub open spec fn finalized_headers(h: Seq<(Seq<char>, Seq<char>)>, gzip: bool) -> Seq<
    (Seq<char>, Seq<char>),
> {
    let h1 = if !has_key(h, "User-Agent"@) {
        h.push(("User-Agent"@, DEFAULT_USER_AGENT@))
    } else {
        h
    };
    let h2 = if !has_key(h1, "Accept"@) {
        h1.push(("Accept"@, "*/*"@))
    } else {
        h1
    };
    if gzip && !has_key(h2, "Accept-Encoding"@) && !has_key(h2, "Range"@) {
        h2.push(("Accept-Encoding"@, "gzip"@))
    } else {
        h2
    }
}

/// What [`RequestBuilder::prepare`] owes: the URL slot's deferred parse
/// failure surfaces first, as a transport-kind error with no URL attached;
/// then a deferred body-encoding failure surfaces as itself; otherwise the
/// initial request state, with the default headers applied.
pub open spec fn prepare_model(b: BuilderView, gzip: bool) -> Result<StateView, ErrorView> {
    match b.url {
        Err(m) => Err(ErrorView { kind: KindView::Http(m), url: None }),
        Ok(u) => match b.body {
            Some(Err(e)) => Err(e),
            Some(Ok(bv)) => Ok(
                StateView {
                    method: b.method,
                    url: u,
                    headers: finalized_headers(b.headers, gzip),
                    body: Some(bv),
                },
            ),
            None => Ok(
                StateView {
                    method: b.method,
                    url: u,
                    headers: finalized_headers(b.headers, gzip),
                    body: None,
                },
            ),
        },
    }
}

impl<'a, C: CustomPolicy> RequestBuilder<'a, C> {
    /// Add one header to this request; entries already present under the
    /// same name are kept.
    pub fn header(self, name: &str, value: &str) -> (r: Self)
        ensures
            r@.method == self@.method,
            r@.url == self@.url,
            r@.body == self@.body,
            r@.headers == self@.headers.push((name@, value@)),
            r.client == self.client,
    {
        let RequestBuilder { client, method, url, mut headers, body } = self;
        headers.append(name, value);
        RequestBuilder { client, method, url, headers, body }
    }

    /// Add a set of headers to the existing ones on this request; they
    /// merge in after any already set.
    pub fn headers(self, headers: Headers) -> (r: Self)
        ensures
            r@.method == self@.method,
            r@.url == self@.url,
            r@.body == self@.body,
            r@.headers == self@.headers + headers@,
            r.client == self.client,
    {
        let RequestBuilder { client, method, url, headers: mut own, body } = self;
        own.extend(&headers);
        RequestBuilder { client, method, url, headers: own, body }
    }

    /// Set the request body.
    pub fn body(self, body: Body) -> (r: Self)
        ensures
            r@.method == self@.method,
            r@.url == self@.url,
            r@.headers == self@.headers,
            r@.body == Some(Ok::<BodyView, ErrorView>(body@)),
            r.client == self.client,
    {
        let RequestBuilder { client, method, url, headers, body: _ } = self;
        RequestBuilder { client, method, url, headers, body: Some(Ok(body)) }
    }

    /// Send a form body: the URL-encoded serialization of the pairs, with
    /// `Content-Type: application/x-www-form-urlencoded`. The body slot is
    /// fallible so that an encoding failure would be deferred, not raised
    /// here; on string pairs the encoding always succeeds.
    pub fn form(self, form: &Vec<(String, String)>) -> (r: Self)
        ensures
            r@.method == self@.method,
            r@.url == self@.url,
            r@.headers == set_value(
                self@.headers,
                "Content-Type"@,
                "application/x-www-form-urlencoded"@,
            ),
            r@.body == Some(
                Ok::<BodyView, ErrorView>(
                    BodyView::Bytes(form_urlencoded_bytes(pairs_view(form@))),
                ),
            ),
            r.client == self.client,
    {
        let RequestBuilder { client, method, url, mut headers, body: _ } = self;
        headers.set("Content-Type", "application/x-www-form-urlencoded");
        let body = form_body(form);
        RequestBuilder { client, method, url, headers, body: Some(Ok(body)) }
    }

    /// Send a JSON body: the JSON object serialization of the pairs, with
    /// `Content-Type: application/json`. The body slot is fallible so that
    /// an encoding failure would be deferred, not raised here; on string
    /// pairs the encoding always succeeds.
    pub fn json(self, json: &Vec<(String, String)>) -> (r: Self)
        ensures
            r@.method == self@.method,
            r@.url == self@.url,
            r@.headers == set_value(self@.headers, "Content-Type"@, "application/json"@),
            r@.body == Some(
                Ok::<BodyView, ErrorView>(
                    BodyView::Bytes(json_object_bytes(pairs_view(json@))),
                ),
            ),
            r.client == self.client,
    {
        let RequestBuilder { client, method, url, mut headers, body: _ } = self;
        headers.set("Content-Type", "application/json");
        let body = json_body(json);
        RequestBuilder { client, method, url, headers, body: Some(Ok(body)) }
    }

    /// Finalize this request: apply the default headers exactly once and
    /// surface the deferred URL and body errors, yielding the initial
    /// state of the redirect loop.
    pub fn prepare(self) -> (r: Result<RequestState, Error>)
        ensures
            r matches Ok(st) ==> prepare_model(self@, self.client.auto_ungzip) == Ok::<
                StateView,
                ErrorView,
            >(st@),
            r matches Err(e) ==> prepare_model(self@, self.client.auto_ungzip) == Err::<
                StateView,
                ErrorView,
            >(e@),
    {
        let RequestBuilder { client, method, url, headers, body } = self;
        finalize_request(method, url, headers, body, client.auto_ungzip)
    }
}

/// Finalize one request from its parts, as [`RequestBuilder::prepare`]
/// does: apply the default headers exactly once and surface the deferred
/// URL and body errors, yielding the initial state of the redirect loop.
pub fn finalize_request(
    method: Method,
    url: Result<Url, UrlError>,
    headers: Headers,
    body: Option<Result<Body, Error>>,
    gzip: bool,
) -> (r: Result<RequestState, Error>)
    ensures
        r matches Ok(st) ==> parts_model(method, url, headers, body, gzip) == Ok::<
            StateView,
            ErrorView,
        >(st@),
        r matches Err(e) ==> parts_model(method, url, headers, body, gzip) == Err::<
            StateView,
            ErrorView,
        >(e@),
{
    let mut headers = headers;
    if !headers.contains_key("User-Agent") {
        headers.append("User-Agent", DEFAULT_USER_AGENT);
    }
    if !headers.contains_key("Accept") {
        headers.append("Accept", "*/*");
    }
    if gzip && !headers.contains_key("Accept-Encoding") && !headers.contains_key("Range") {
        headers.append("Accept-Encoding", "gzip");
    }
    let url = match url {
        Ok(u) => u,
        Err(e) => {
            return Err(crate::error::from(Kind::Http(e.message)));
        },
    };
    let body = match body {
        Some(Ok(b)) => Some(b),
        Some(Err(e)) => {
            return Err(e);
        },
        None => None,
    };
    Ok(RequestState { method, url, headers, body })
}

/// The [`prepare_model`] of a builder holding the given parts.
pub open spec fn parts_model(
    method: Method,
    url: Result<Url, UrlError>,
    headers: Headers,
    body: Option<Result<Body, Error>>,
    gzip: bool,
) -> Result<StateView, ErrorView> {
    prepare_model(
        BuilderView {
            method,
            url: match url {
                Ok(u) => Ok(u@),
                Err(e) => Err(e.message@),
            },
            headers: headers@,
            body: match body {
                Some(Ok(b)) => Some(Ok(b@)),
                Some(Err(e)) => Some(Err(e@)),
                None => None,
            },
        },
        gzip,
    )
}

} // verus!

