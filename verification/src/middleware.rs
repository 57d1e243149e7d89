//! The adapter that binds resolution into a request pipeline.
//!
//! For each request the adapter resolves the caller, decides whether the
//! request may go on to the handler it protects, and decides whether the
//! response of that handler stands.
//!
//! `handle` is the whole passage of a request, wrapped around the protected
//! handler. `enter` and `review` are its two halves, for a pipeline that
//! calls the protected handler itself, between a step before it and a step
//! after it. `admission` and `verdict` are the two decisions by themselves.
//! With both switches off, `enter` is all there is: the request is resolved
//! and always admitted.

use crate::registry::Strategies;
use crate::resolution::{rejected_in_turn, resolved_with, resolves, state_before, AuthedUser, Rejection};
use crate::response::{read_status, status_of, ResponseStatus};
use crate::slot::ResolutionSlot;
use crate::strategy::Strategy;
use iron::{IronResult, Response};
use vstd::prelude::*;

verus! {

/// The adapter needs its failure handler and none is configured.
#[derive(Clone, Copy, Debug, PartialEq, Eq, Structural)]
pub enum ConfigError {
    /// Authentication is forced, a request has no identity, and there is no
    /// failure handler to answer it.
    NoFailureHandler,
    /// Unauthorized responses are intercepted, one came back, and there is no
    /// failure handler to answer in its place.
    NoInterceptHandler,
}

/// What happens to a request after its resolution.
pub enum Admission<'a, T, H> {
    /// The request goes on to the protected handler, which finds the outcome
    /// of the resolution in this slot.
    Admitted(ResolutionSlot<T>),
    /// The protected handler is not called. This failure handler answers the
    /// request, and its answer is the response.
    Blocked(&'a H),
}

/// What happens to a response of the protected handler.
pub enum Verdict<'a, H> {
    /// The response stands as it is.
    PassThrough,
    /// The response is dropped. This failure handler answers the request,
    /// and its answer is the response.
    Rewrite(&'a H),
}

/// The configuration of the adapter: the strategies, in the order in which
/// they are tried, a failure handler of type `H`, and two independent
/// switches.
pub struct ChainmailMiddleware<S, H> {
    /// The strategies by name, in the order in which `auth` tries them: the
    /// order of their registration.
    pub strategies: Strategies<S>,
    /// Answers in place of the protected handler when `force` or
    /// `intercept_401` asks for it.
    pub failure_handler: Option<H>,
    /// Replace responses whose status is `Unauthorized` by the answer of the
    /// failure handler.
    pub intercept_401: bool,
    /// Keep requests without an identity away from the protected handler.
    pub force: bool,
}

impl<S, H> ChainmailMiddleware<S, H> {
    /// A request whose resolution gave `found` is kept from the protected
    /// handler.
    pub open spec fn must_block<T>(&self, found: Option<AuthedUser<T>>) -> bool {
        self.force && found is None
    }

    /// A response with this status is replaced.
    pub open spec fn must_rewrite(&self, status: ResponseStatus) -> bool {
        self.intercept_401 && status is Unauthorized
    }

    /// `admission` is what becomes of a request whose resolution gave `found`.
    pub open spec fn admission_for<T>(
        &self,
        found: Option<AuthedUser<T>>,
        admission: Admission<'_, T, H>,
    ) -> bool {
        if self.must_block(found) {
            admission matches Admission::Blocked(handler) && self.failure_handler == Some(*handler)
        } else {
            admission matches Admission::Admitted(slot) && slot.resolution() == Some(found)
        }
    }

    /// `verdict` is what is made of a response with this status.
    pub open spec fn verdict_for(&self, status: ResponseStatus, verdict: Verdict<'_, H>) -> bool {
        if self.must_rewrite(status) {
            verdict matches Verdict::Rewrite(handler) && self.failure_handler == Some(*handler)
        } else {
            verdict is PassThrough
        }
    }

    /// `entered` is what `enter` gives for a request whose resolution gave
    /// `found`: the admission, or the error where the request has to be
    /// blocked and there is no failure handler to answer it.
    pub open spec fn entry_for<T>(
        &self,
        found: Option<AuthedUser<T>>,
        entered: Result<Admission<'_, T, H>, ConfigError>,
    ) -> bool {
        if self.must_block(found) && self.failure_handler is None {
            entered matches Err(error) && error == ConfigError::NoFailureHandler
        } else {
            entered matches Ok(admission) && self.admission_for(found, admission)
        }
    }

    /// `reviewed` is what `review` gives for this outcome of the protected
    /// handler. A failure of that handler always stands as it is. A response
    /// gets the verdict that its status asks for, or the error where it has
    /// to be replaced and there is no failure handler to answer in its place.
    pub open spec fn review_for(
        &self,
        outcome: IronResult<Response>,
        reviewed: Result<Verdict<'_, H>, ConfigError>,
    ) -> bool {
        match outcome {
            Ok(response) => {
                if self.must_rewrite(status_of(response)) && self.failure_handler is None {
                    reviewed matches Err(error) && error == ConfigError::NoInterceptHandler
                } else {
                    reviewed matches Ok(verdict) && self.verdict_for(status_of(response), verdict)
                }
            },
            Err(_) => reviewed matches Ok(verdict) && verdict is PassThrough,
        }
    }

    /// An adapter over `strategies` that neither forces authentication nor
    /// intercepts responses, and has no failure handler.
    pub fn new(strategies: Strategies<S>) -> (middleware: Self)
        ensures
            middleware.strategies == strategies,
            middleware.failure_handler is None,
            !middleware.intercept_401,
            !middleware.force,
    {
        ChainmailMiddleware { strategies, failure_handler: None, intercept_401: false, force: false }
    }

    /// Tries every registered strategy, in the order of registration, and
    /// gives the identity that the first success yields, with the name of
    /// the strategy that succeeded. Failures are passed over; `is_valid` is
    /// not consulted.
    pub fn auth<R, T>(&self, req: &mut R) -> (found: Option<AuthedUser<T>>) where S: Strategy<R, T>
        ensures
            resolves(self.strategies@, *old(req), *final(req), found),
    {
        let ghost candidates = self.strategies@;
        let ghost mut rejections: Seq<Rejection<R>> = Seq::empty();
        let n = self.strategies.len();
        let mut i: usize = 0;
        while i < n
            invariant
                i <= n,
                n == candidates.len(),
                candidates == self.strategies@,
                rejections.len() == i,
                rejected_in_turn::<R, T, S>(candidates, *old(req), rejections),
                *req == state_before(*old(req), rejections, i as int),
            decreases n - i,
        {
            let (name, strategy) = self.strategies.entry(i);
            match strategy.authenticate(req) {
                Ok(user) => {
                    let authed = AuthedUser { authed_by: name.clone(), user };
                    assert(resolved_with(candidates, *old(req), *req, Some(authed), rejections));
                    return Some(authed);
                },
                Err(error) => {
                    proof {
                        rejections = rejections.push(Rejection { error, after: *req });
                    }
                },
            }
            i += 1;
        }
        assert(resolved_with(candidates, *old(req), *req, None::<AuthedUser<T>>, rejections));
        None
    }

    /// What becomes of a request whose resolution gave `found`.
    ///
    /// A request without an identity is blocked where authentication is
    /// forced: the failure handler answers it and the protected handler is
    /// not called. Every other request is admitted, with the outcome of its
    /// resolution in its slot, be it an identity or none.
    ///
    /// To block, the failure handler is needed; a configuration that
    /// forces authentication without one is ruled out for requests without
    /// an identity, and for no others.
    pub fn admission<T>(&self, found: Option<AuthedUser<T>>) -> (admission: Admission<'_, T, H>)
        requires
            self.must_block(found) ==> self.failure_handler is Some,
        ensures
            self.admission_for(found, admission),
    {
        if self.force && found.is_none() {
            match &self.failure_handler {
                Some(handler) => Admission::Blocked(handler),
                None => unreached(),
            }
        } else {
            Admission::Admitted(ResolutionSlot::resolved(found))
        }
    }

    /// Resolves the request and says what becomes of it.
    ///
    /// Where the request has to be blocked and no failure handler is
    /// configured, the error says so; it comes for such requests only.
    pub fn enter<R, T>(&self, req: &mut R) -> (entered: Result<Admission<'_, T, H>, ConfigError>) where
        S: Strategy<R, T>,

        ensures
            exists|found: Option<AuthedUser<T>>|
                {
                    &&& #[trigger] resolves(self.strategies@, *old(req), *final(req), found)
                    &&& self.entry_for(found, entered)
                },
    {
        let found = self.auth(req);
        if self.force && found.is_none() && self.failure_handler.is_none() {
            Err(ConfigError::NoFailureHandler)
        } else {
            Ok(self.admission(found))
        }
    }

    /// What becomes of a response with this status.
    ///
    /// A response whose status is `Unauthorized` is replaced where responses
    /// are intercepted: the failure handler answers in its place. Every other
    /// response stands as it is.
    ///
    /// To replace, the failure handler is needed; a configuration that
    /// intercepts without one is ruled out for `Unauthorized` responses, and
    /// for no others.
    pub fn verdict(&self, status: ResponseStatus) -> (verdict: Verdict<'_, H>)
        requires
            self.must_rewrite(status) ==> self.failure_handler is Some,
        ensures
            self.verdict_for(status, verdict),
    {
        if self.intercept_401 && status == ResponseStatus::Unauthorized {
            match &self.failure_handler {
                Some(handler) => Verdict::Rewrite(handler),
                None => unreached(),
            }
        } else {
            Verdict::PassThrough
        }
    }

    /// Says what becomes of the outcome of the protected handler.
    ///
    /// A failure stands as it is: the adapter hands it on. Of a response the
    /// status is read and judged as `verdict` does. Where the response has to
    /// be replaced and no failure handler is configured, the error says so;
    /// it comes for such responses only. The outcome itself is not touched.
    pub fn review(&self, outcome: &IronResult<Response>) -> (reviewed: Result<
        Verdict<'_, H>,
        ConfigError,
    >)
        ensures
            self.review_for(*outcome, reviewed),
    {
        match outcome {
            Ok(response) => {
                let status = read_status(response);
                if self.intercept_401 && status == ResponseStatus::Unauthorized
                    && self.failure_handler.is_none() {
                    Err(ConfigError::NoInterceptHandler)
                } else {
                    Ok(self.verdict(status))
                }
            },
            Err(_) => Ok(Verdict::PassThrough),
        }
    }

    /// The whole passage of one request: resolution, the protected handler,
    /// and the failure handler where it has to answer.
    ///
    /// `base_handler` is the protected handler. It is called at most once,
    /// and gets the resolution slot of the request along with the request.
    /// The failure handler is called at most once, and only in place of the
    /// protected handler or of its response. Both must take any request.
    ///
    /// In the contract a `&mut R` stands for one call of a handler: the
    /// request as the handler got it, and, as `*final(..)`, the request as the
    /// handler left it. The contract says, for the outcome `found` of the
    /// resolution and the state `resolved` in which it left the request:
    ///
    /// - Where the request is blocked, the failure handler is called on
    ///   `resolved` and its answer is the result; the protected handler is
    ///   not called. With no failure handler the result is the error and no
    ///   handler is called.
    /// - Otherwise the protected handler is called on `resolved`, with a slot
    ///   that holds `found`. Its outcome is the result, as it is, unless it
    ///   is a response that has to be replaced: then the failure handler is
    ///   called on the request as the protected handler left it, and its
    ///   answer is the result. With no failure handler the result is the
    ///   error and the failure handler is not called.
    ///
    /// In every case the request ends in the state in which the last call
    /// left it.
    pub fn handle<R, T, B>(&self, req: &mut R, base_handler: &B) -> (handled: Result<
        IronResult<Response>,
        ConfigError,
    >) where
        S: Strategy<R, T>,
        H: Fn(&mut R) -> IronResult<Response>,
        B: Fn(&mut R, ResolutionSlot<T>) -> IronResult<Response>,

        requires
            forall|call: &mut R, slot: ResolutionSlot<T>|
                slot.resolution() is Some ==> #[trigger] call_requires(
                    *base_handler,
                    (call, slot),
                ),
            forall|call: &mut R|
                self.failure_handler is Some ==> #[trigger] call_requires(
                    self.failure_handler->Some_0,
                    (call,),
                ),
        ensures
            exists|found: Option<AuthedUser<T>>, resolved: R|
                {
                    &&& #[trigger] resolves(self.strategies@, *old(req), resolved, found)
                    &&& if self.must_block(found) {
                        match self.failure_handler {
                            Some(failure) => exists|call: &mut R|
                                {
                                    &&& *call == resolved
                                    &&& *final(call) == *final(req)
                                    &&& handled is Ok
                                    &&& #[trigger] call_ensures(failure, (call,), handled->Ok_0)
                                },
                            None => {
                                &&& handled matches Err(error)
                                &&& error == ConfigError::NoFailureHandler
                                &&& *final(req) == resolved
                            },
                        }
                    } else {
                        exists|slot: ResolutionSlot<T>, call: &mut R, outcome: IronResult<Response>|
                            {
                                &&& slot.resolution() == Some(found)
                                &&& *call == resolved
                                &&& #[trigger] call_ensures(*base_handler, (call, slot), outcome)
                                &&& if outcome is Ok && self.must_rewrite(status_of(outcome->Ok_0)) {
                                    match self.failure_handler {
                                        Some(failure) => exists|again: &mut R|
                                            {
                                                &&& *again == *final(call)
                                                &&& *final(again) == *final(req)
                                                &&& handled is Ok
                                                &&& #[trigger] call_ensures(
                                                    failure,
                                                    (again,),
                                                    handled->Ok_0,
                                                )
                                            },
                                        None => {
                                            &&& handled matches Err(error)
                                            &&& error == ConfigError::NoInterceptHandler
                                            &&& *final(req) == *final(call)
                                        },
                                    }
                                } else {
                                    &&& handled matches Ok(passed)
                                    &&& passed == outcome
                                    &&& *final(req) == *final(call)
                                }
                            }
                    }
                },
    {
        let entered: Result<Admission<'_, T, H>, ConfigError> = self.enter(req);
        match entered {
            Err(error) => Err(error),
            Ok(Admission::Blocked(failure_handler)) => {
                assert(self.failure_handler->Some_0 == *failure_handler);
                Ok(failure_handler(req))
            },
            Ok(Admission::Admitted(slot)) => {
                let outcome = base_handler(req, slot);
                match self.review(&outcome) {
                    Err(error) => Err(error),
                    Ok(Verdict::PassThrough) => Ok(outcome),
                    Ok(Verdict::Rewrite(failure_handler)) => {
                        assert(self.failure_handler->Some_0 == *failure_handler);
                        Ok(failure_handler(req))
                    },
                }
            },
        }
    }
}

} // verus!
