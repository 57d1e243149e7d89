//! Authentication strategies and the error they fail with.

use std::sync::Arc;
use vstd::prelude::*;
use vstd::string::*;

verus! {

/// The failure of one strategy on one request.
///
/// It is a terminal signal for that attempt only: it carries a message and
/// nothing that would classify the failure or ask for a retry.
#[derive(Debug)]
pub struct AuthError {
    msg: String,
}

impl AuthError {
    /// The message the error was made with.
    pub closed spec fn message(&self) -> Seq<char> {
        self.msg@
    }

    /// The text that `to_string` puts before the message.
    pub open spec fn prefix() -> Seq<char> {
        "Authentication failed: "@
    }

    /// An error that says `msg`.
    pub fn new(msg: &str) -> (e: AuthError)
        ensures
            e.message() == msg@,
    {
        AuthError { msg: msg.to_owned() }
    }

    /// The bare message.
    pub fn description(&self) -> (d: &str)
        ensures
            d@ == self.message(),
    {
        self.msg.as_str()
    }

    /// The message as it is shown to a reader.
    pub fn to_string(&self) -> (shown: String)
        ensures
            shown@ == Self::prefix() + self.message(),
    {
        String::from_str("Authentication failed: ").concat(self.msg.as_str())
    }
}

/// A way to authenticate the caller of a request of type `R`, giving an
/// identity of type `U`.
///
/// The resolver treats every `Err` alike: "does not apply to this request"
/// and "applies, but the credentials are wrong" both make it go on to the next
/// strategy. `authenticate` may be called without `is_valid` having been
/// consulted.
///
/// `admits` is the strategy's own account of what `authenticate` may do: which
/// outcomes it may give on a request, and in what state it may leave the
/// request. An implementation that says nothing keeps the default, under which
/// everything is possible. Contracts of the resolver are stated over `admits`,
/// so the more an implementation says, the more its callers know.
///
/// `answers` is the same account of `is_valid`: which answer it may give about
/// a request. Here too the default leaves everything open.
///
/// `is_valid` is bound to leave the request as it found it. Nothing checks
/// this of an implementation written outside verified code.
pub trait Strategy<R, U> {
    /// Whether `is_valid`, asked about a request in state `req`, may answer
    /// `applies`.
    open spec fn answers(&self, req: R, applies: bool) -> bool {
        true
    }

    /// Whether `authenticate`, called on a request in state `before`, may
    /// leave it in state `after` and return `outcome`.
    open spec fn admits(&self, before: R, after: R, outcome: Result<U, AuthError>) -> bool {
        true
    }

    /// A cheap check whether this strategy applies to the request at all.
    fn is_valid(&self, req: &mut R) -> (applies: bool)
        ensures
            *final(req) == *old(req),
            self.answers(*old(req), applies),
    ;

    /// The full attempt. It may read and consume parts of the request.
    fn authenticate(&self, req: &mut R) -> (outcome: Result<U, AuthError>)
        ensures
            self.admits(*old(req), *final(req), outcome),
    ;
}

/// A boxed strategy is the strategy in the box: it answers and authenticates
/// as that one does. With `S` a trait object this lets one registry hold
/// strategies of different types.
impl<R, U, S: Strategy<R, U> + ?Sized> Strategy<R, U> for Box<S> {
    open spec fn answers(&self, req: R, applies: bool) -> bool {
        (**self).answers(req, applies)
    }

    open spec fn admits(&self, before: R, after: R, outcome: Result<U, AuthError>) -> bool {
        (**self).admits(before, after, outcome)
    }

    fn is_valid(&self, req: &mut R) -> (applies: bool) {
        (**self).is_valid(req)
    }

    fn authenticate(&self, req: &mut R) -> (outcome: Result<U, AuthError>) {
        (**self).authenticate(req)
    }
}

/// A shared strategy is the strategy it points to: it answers and
/// authenticates as that one does.
impl<R, U, S: Strategy<R, U> + ?Sized> Strategy<R, U> for Arc<S> {
    open spec fn answers(&self, req: R, applies: bool) -> bool {
        (**self).answers(req, applies)
    }

    open spec fn admits(&self, before: R, after: R, outcome: Result<U, AuthError>) -> bool {
        (**self).admits(before, after, outcome)
    }

    fn is_valid(&self, req: &mut R) -> (applies: bool) {
        (**self).is_valid(req)
    }

    fn authenticate(&self, req: &mut R) -> (outcome: Result<U, AuthError>) {
        (**self).authenticate(req)
    }
}

} // verus!
