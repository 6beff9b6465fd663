//! Absolute URLs, backed by the `url` crate.
//!
//! A [`Url`] holds the serialized form of a successfully parsed absolute URL.
//! Parsing, joining a (possibly relative) reference against a base, and host
//! extraction are delegated to the `url` crate; each is deterministic in its
//! textual arguments, so their results are named by uninterpreted spec
//! functions and everything downstream is proved against those names.
use vstd::prelude::*;

verus! {

/// The serialization that `url::Url::parse` produces on the given text:
/// `Some` exactly when the text parses as an absolute URL.
pub uninterp spec fn url_parse_norm(s: Seq<char>) -> Option<Seq<char>>;

/// The serialization that parsing `reference` against the absolute URL
/// `base` produces (RFC 3986 reference resolution), `Some` exactly when
/// the resolution succeeds.
pub uninterp spec fn url_join_norm(base: Seq<char>, reference: Seq<char>) -> Option<Seq<char>>;

/// The host part of the absolute URL with the given serialization, `None`
/// when the URL has no host.
pub uninterp spec fn url_host_of(s: Seq<char>) -> Option<Seq<char>>;

/// Relies on `url::Url::parse` and `url::Url::as_str`: parsing either fails
/// or yields a URL whose serialization depends on the input text alone.
#[verifier::external_body]
fn parse_absolute(s: &str) -> (r: Result<String, String>)
    ensures
        r is Ok <==> url_parse_norm(s@) is Some,
        r matches Ok(t) ==> url_parse_norm(s@) == Some(t@),
{
    match ::url::Url::parse(s) {
        Ok(u) => Ok(u.as_str().to_string()),
        Err(e) => Err(format!("{}", e)),
    }
}

/// Relies on `url::Url::join`: resolving a reference against a base URL
/// either fails or yields a URL whose serialization depends on the two
/// texts alone.
#[verifier::external_body]
fn join_absolute(base: &str, reference: &str) -> (r: Result<String, String>)
    ensures
        r is Ok <==> url_join_norm(base@, reference@) is Some,
        r matches Ok(t) ==> url_join_norm(base@, reference@) == Some(t@),
{
    match ::url::Url::parse(base) {
        Ok(u) => match u.join(reference) {
            Ok(j) => Ok(j.as_str().to_string()),
            Err(e) => Err(format!("{}", e)),
        },
        Err(e) => Err(format!("{}", e)),
    }
}

/// Relies on `url::Url::parse` and `url::Url::host_str`: the host of a URL
/// depends on its serialization alone, and is absent for host-less URLs.
#[verifier::external_body]
fn host_of_text(s: &str) -> (r: Option<String>)
    ensures
        r is Some <==> url_host_of(s@) is Some,
        r matches Some(h) ==> url_host_of(s@) == Some(h@),
{
    match ::url::Url::parse(s) {
        Ok(u) => u.host_str().map(|h| h.to_string()),
        Err(_) => None,
    }
}

/// An absolute URL, stored in the serialized form its parse produced.
#[derive(Debug)]
pub struct Url {
    text: String,
}

impl View for Url {
    type V = Seq<char>;

    closed spec fn view(&self) -> Seq<char> {
        self.text@
    }
}

impl Url {
    /// Parse an absolute URL from a string.
    pub fn parse(s: &str) -> (r: Result<Url, UrlError>)
        ensures
            r matches Ok(u) ==> url_parse_norm(s@) == Some(u@),
            r is Err <==> url_parse_norm(s@) is None,
    {
        match parse_absolute(s) {
            Ok(t) => Ok(Url { text: t }),
            Err(m) => Err(UrlError { message: m }),
        }
    }

    /// The serialized form of this URL.
    pub fn as_str(&self) -> (r: &str)
        ensures
            r@ == self@,
    {
        self.text.as_str()
    }

    /// Resolve a (possibly relative) reference against this URL.
    pub fn join(&self, reference: &str) -> (r: Result<Url, UrlError>)
        ensures
            r matches Ok(u) ==> url_join_norm(self@, reference@) == Some(u@),
            r is Err <==> url_join_norm(self@, reference@) is None,
    {
        match join_absolute(self.text.as_str(), reference) {
            Ok(t) => Ok(Url { text: t }),
            Err(m) => Err(UrlError { message: m }),
        }
    }

    /// The host of this URL, if it has one.
    pub fn host_str(&self) -> (r: Option<String>)
        ensures
            r is Some <==> url_host_of(self@) is Some,
            r matches Some(h) ==> url_host_of(self@) == Some(h@),
    {
        host_of_text(self.text.as_str())
    }
}

impl Clone for Url {
    fn clone(&self) -> (r: Self)
        ensures
            r == *self,
    {
        Url { text: self.text.clone() }
    }
}

impl PartialEq for Url {
    fn eq(&self, other: &Self) -> (r: bool) {
        self.text == other.text
    }
}

impl vstd::std_specs::cmp::PartialEqSpecImpl for Url {
    open spec fn obeys_eq_spec() -> bool {
        true
    }

    open spec fn eq_spec(&self, other: &Self) -> bool {
        self@ == other@
    }
}

/// The failure of a URL parse or join, carrying the URL collaborator's
/// description of the fault.
#[derive(Debug)]
pub struct UrlError {
    pub message: String,
}

impl Clone for UrlError {
    fn clone(&self) -> (r: Self)
        ensures
            r.message@ == self.message@,
    {
        UrlError { message: self.message.clone() }
    }
}

impl PartialEq for UrlError {
    fn eq(&self, other: &Self) -> (r: bool) {
        self.message == other.message
    }
}

impl vstd::std_specs::cmp::PartialEqSpecImpl for UrlError {
    open spec fn obeys_eq_spec() -> bool {
        true
    }

    open spec fn eq_spec(&self, other: &Self) -> bool {
        self.message@ == other.message@
    }
}

} // verus!
