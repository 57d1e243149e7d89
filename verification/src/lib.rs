//! Pluggable authentication for a request pipeline.
//!
//! Given a request, the library tries named authentication strategies in
//! order until one succeeds, keeps the identity it found for the code that
//! handles the request, and on demand keeps unauthenticated callers away from
//! that code or replaces its `Unauthorized` responses.
//!
//! - `strategy`: what a strategy is, and the error it fails with.
//! - `registry`: the registered strategies by name, in registration order.
//! - `resolution`: what trying strategies in order means, and what follows
//!   from it.
//! - `chainmail`: resolution against names that the caller chooses.
//! - `middleware`: resolution of every request, forced authentication and
//!   the interception of responses.
//! - `slot`: where the outcome is kept for the handlers of the request.
//! - `response`: what is read of a response.
//!
//! The request is of any type: only strategies and handlers look into it.
//! Responses are those of iron.

pub mod chainmail;
pub mod middleware;
pub mod registry;
pub mod resolution;
pub mod response;
pub mod slot;
pub mod strategy;

pub use crate::chainmail::{Chainmail, UnknownStrategy};
pub use crate::middleware::{Admission, ChainmailMiddleware, ConfigError, Verdict};
pub use crate::registry::Strategies;
pub use crate::resolution::AuthedUser;
pub use crate::response::ResponseStatus;
pub use crate::slot::{ChainmailReqExt, ResolutionSlot};
pub use crate::strategy::{AuthError, Strategy};
