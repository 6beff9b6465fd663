//! An HTTP client facade: one logical request is executed against a server,
//! and HTTP redirect chains are resolved according to a pluggable policy,
//! while request semantics (method downgrade rules, body re-sendability,
//! header propagation) are preserved across hops.
//!
//! The transport itself (connections, TLS, timeouts) is a collaborator and
//! lives outside this crate; this crate holds the verified decision logic:
//! the redirect policies, the per-hop state transitions of the redirect loop,
//! request finalization, and the error taxonomy.
use vstd::prelude::*;

pub mod body;
pub mod client;
pub mod engine;
pub mod error;
pub mod header;
pub mod method;
pub mod redirect;
pub mod url;

pub use crate::body::Body;
pub use crate::client::Client;
pub use crate::client::RequestBuilder;
pub use crate::engine::Hop;
pub use crate::engine::RequestState;
pub use crate::engine::Response;
pub use crate::engine::RunOutcome;
pub use crate::engine::StepOutcome;
pub use crate::error::Error;
pub use crate::error::Kind;
pub use crate::header::Headers;
pub use crate::method::Method;
pub use crate::redirect::Action;
pub use crate::redirect::CustomPolicy;
pub use crate::redirect::NoCustom;
pub use crate::redirect::RedirectAction;
pub use crate::redirect::RedirectAttempt;
pub use crate::redirect::RedirectPolicy;
pub use crate::url::Url;
pub use crate::url::UrlError;

verus! {

/// A `Result` alias where the `Err` case is this crate's [`error::Error`].
pub type Result<T> = core::result::Result<T, crate::error::Error>;

} // verus!
