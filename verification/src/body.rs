//! Request bodies.
//!
//! A body is either an in-memory buffer of bytes, which can be
//! deterministically re-sent for a redirect, or a single-pass stream, which
//! cannot. The stream's reader itself is transport territory and lives with
//! the caller; this crate only tracks that such a body is not resettable.
use vstd::prelude::*;
use vstd::string::StrSliceExecFns;
use vstd::string::StringSliceAdditionalSpecFns;

verus! {

/// A request body.
#[derive(Debug)]
pub enum Body {
    /// An in-memory payload; re-sendable at will.
    Bytes(Vec<u8>),
    /// A single-pass payload that cannot be re-produced once sent.
    Stream,
}

/// The mathematical content of a [`Body`].
pub enum BodyView {
    Bytes(Seq<u8>),
    Stream,
}

impl View for Body {
    type V = BodyView;

    open spec fn view(&self) -> BodyView {
        match self {
            Body::Bytes(b) => BodyView::Bytes(b@),
            Body::Stream => BodyView::Stream,
        }
    }
}

/// Whether a body of this content can be deterministically re-sent.
pub open spec fn spec_can_reset(b: BodyView) -> bool {
    match b {
        BodyView::Bytes(_) => true,
        BodyView::Stream => false,
    }
}

impl Body {
    /// A body holding the given bytes.
    pub fn from_bytes(bytes: Vec<u8>) -> (r: Body)
        ensures
            r@ == BodyView::Bytes(bytes@),
    {
        Body::Bytes(bytes)
    }

    /// A body holding the UTF-8 bytes of the given text.
    pub fn from_text(s: &str) -> (r: Body)
        ensures
            r@ == BodyView::Bytes(s.spec_bytes()),
    {
        Body::Bytes(s.as_bytes_vec())
    }

    /// The bytes of an in-memory body; `None` for a stream.
    pub fn as_bytes(&self) -> (r: Option<&Vec<u8>>)
        ensures
            match r {
                Some(b) => self@ == BodyView::Bytes(b@),
                None => self@ is Stream,
            },
    {
        match self {
            Body::Bytes(b) => Some(b),
            Body::Stream => None,
        }
    }
}

/// Whether this body can be deterministically re-sent for a redirect.
pub fn can_reset(body: &Body) -> (r: bool)
    ensures
        r == spec_can_reset(body@),
{
    match body {
        Body::Bytes(_) => true,
        Body::Stream => false,
    }
}

} // verus!
