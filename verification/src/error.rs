//! The errors that may occur when processing a request.
//!
//! An error is a classification ([`Kind`]) plus, where it is known, the URL
//! in flight when the failure occurred. Errors are constructed at the
//! failure site and propagated unchanged.
use vstd::prelude::*;

use crate::url::Url;

verus! {

/// The classification of a failure: a transport-layer failure (including a
/// malformed URL), a body-encoding failure (form or JSON), or a
/// policy-driven redirect failure. The encoding and transport kinds carry
/// the collaborator's own description of the cause.
#[derive(Debug)]
pub enum Kind {
    Http(String),
    UrlEncoded(String),
    Json(String),
    TooManyRedirects,
    RedirectLoop,
}

/// The mathematical content of a [`Kind`].
pub enum KindView {
    Http(Seq<char>),
    UrlEncoded(Seq<char>),
    Json(Seq<char>),
    TooManyRedirects,
    RedirectLoop,
}

impl View for Kind {
    type V = KindView;

    open spec fn view(&self) -> KindView {
        match self {
            Kind::Http(m) => KindView::Http(m@),
            Kind::UrlEncoded(m) => KindView::UrlEncoded(m@),
            Kind::Json(m) => KindView::Json(m@),
            Kind::TooManyRedirects => KindView::TooManyRedirects,
            Kind::RedirectLoop => KindView::RedirectLoop,
        }
    }
}

/// An error that surfaced from processing a request.
#[derive(Debug)]
pub struct Error {
    kind: Kind,
    url: Option<Url>,
}

/// The mathematical content of an [`Error`]: its classification and the
/// serialization of the URL in flight, where one is attached.
pub struct ErrorView {
    pub kind: KindView,
    pub url: Option<Seq<char>>,
}

impl View for Error {
    type V = ErrorView;

    closed spec fn view(&self) -> ErrorView {
        ErrorView {
            kind: self.kind@,
            url: match self.url {
                Some(u) => Some(u@),
                None => None,
            },
        }
    }
}

/// The human-readable description owed for each classification.
pub open spec fn spec_description(kind: KindView) -> Seq<char> {
    match kind {
        KindView::Http(m) => m,
        KindView::UrlEncoded(m) => m,
        KindView::Json(m) => m,
        KindView::TooManyRedirects => "Too many redirects"@,
        KindView::RedirectLoop => "Infinite redirect loop"@,
    }
}

impl Error {
    /// The classification of this error.
    pub fn kind(&self) -> (r: &Kind)
        ensures
            r@ == self@.kind,
    {
        &self.kind
    }

    /// The URL in flight when the failure occurred, where it is known.
    pub fn url(&self) -> (r: &Option<Url>)
        ensures
            match r {
                Some(u) => self@.url == Some(u@),
                None => self@.url is None,
            },
    {
        &self.url
    }

    /// A human-readable description of the error.
    pub fn description(&self) -> (r: String)
        ensures
            r@ == spec_description(self@.kind),
    {
        match &self.kind {
            Kind::Http(m) => m.clone(),
            Kind::UrlEncoded(m) => m.clone(),
            Kind::Json(m) => m.clone(),
            Kind::TooManyRedirects => "Too many redirects".to_owned(),
            Kind::RedirectLoop => "Infinite redirect loop".to_owned(),
        }
    }
}

/// Wrap a classification as an error with no URL attached.
pub fn from(kind: Kind) -> (r: Error)
    ensures
        r@.kind == kind@,
        r@.url is None,
{
    Error { kind, url: None }
}

/// Wrap a classification as an error carrying the URL in flight.
pub fn with_url(kind: Kind, url: Url) -> (r: Error)
    ensures
        r@.kind == kind@,
        r@.url == Some(url@),
{
    Error { kind, url: Some(url) }
}

/// The error reported when a redirect policy detects a loop, carrying the
/// offending URL.
pub fn loop_detected(url: Url) -> (r: Error)
    ensures
        r@.kind == KindView::RedirectLoop,
        r@.url == Some(url@),
{
    Error { kind: Kind::RedirectLoop, url: Some(url) }
}

/// The error reported when a redirect policy runs out of allowed
/// redirects, carrying the offending URL.
pub fn too_many_redirects(url: Url) -> (r: Error)
    ensures
        r@.kind == KindView::TooManyRedirects,
        r@.url == Some(url@),
{
    Error { kind: Kind::TooManyRedirects, url: Some(url) }
}

} // verus!
