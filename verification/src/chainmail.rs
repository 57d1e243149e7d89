//! Resolution against a list of strategy names that the caller chooses.

use crate::registry::{has_name, position_of, Strategies};
use crate::resolution::{rejected_in_turn, resolved_with, resolves, state_before, AuthedUser, Rejection};
use crate::strategy::Strategy;
use vstd::prelude::*;

verus! {

/// The names by their characters.
pub open spec fn texts(names: Seq<String>) -> Seq<Seq<char>> {
    Seq::new(names.len(), |i: int| names[i]@)
}

/// Every one of `names` is registered in `entries`.
pub open spec fn all_registered<S>(entries: Seq<(Seq<char>, S)>, names: Seq<Seq<char>>) -> bool {
    forall|i: int| 0 <= i < names.len() ==> has_name(entries, #[trigger] names[i])
}

/// `names[at]` is the first of `names` that is not registered in `entries`.
pub open spec fn first_unregistered<S>(
    entries: Seq<(Seq<char>, S)>,
    names: Seq<Seq<char>>,
    at: int,
) -> bool {
    &&& 0 <= at < names.len()
    &&& !has_name(entries, names[at])
    &&& forall|i: int| 0 <= i < at ==> has_name(entries, #[trigger] names[i])
}

/// The candidates that `names` stand for, in the order of `names`: each name
/// with the strategy registered under it. A name that occurs twice is a
/// candidate twice.
pub open spec fn selection<S>(entries: Seq<(Seq<char>, S)>, names: Seq<Seq<char>>) -> Seq<
    (Seq<char>, S),
> {
    Seq::new(names.len(), |i: int| (names[i], entries[position_of(entries, names[i])].1))
}

/// A name was asked for under which no strategy is registered: a mistake in
/// the configuration, not a property of the request.
#[derive(Debug)]
pub struct UnknownStrategy {
    pub name: String,
}

/// A resolver whose callers say, call by call, which of the registered
/// strategies to try and in what order.
pub struct Chainmail<S> {
    pub strategies: Strategies<S>,
}

impl<S> Chainmail<S> {
    /// Which of `names` is the first that is not registered, if any.
    pub fn first_unknown(&self, names: &Vec<String>) -> (at: Option<usize>)
        ensures
            match at {
                Some(i) => first_unregistered(self.strategies@, texts(names@), i as int),
                None => all_registered(self.strategies@, texts(names@)),
            },
            at is None <==> all_registered(self.strategies@, texts(names@)),
    {
        let mut i: usize = 0;
        while i < names.len()
            invariant
                i <= names.len(),
                forall|j: int|
                    0 <= j < i ==> has_name(self.strategies@, #[trigger] texts(names@)[j]),
            decreases names.len() - i,
        {
            if self.strategies.position(&names[i]).is_none() {
                return Some(i);
            }
            i += 1;
        }
        None
    }

    /// Tries the strategies called `strategies`, in that order, and gives the
    /// identity that the first success yields.
    ///
    /// Every name must be registered. To ask for one that is not is a mistake
    /// in the configuration, which the precondition rules out; `try_auth`
    /// finds it at run time.
    pub fn auth<R, T>(&self, req: &mut R, strategies: Vec<String>) -> (found: Option<AuthedUser<T>>) where
        S: Strategy<R, T>,

        requires
            all_registered(self.strategies@, texts(strategies@)),
        ensures
            resolves(
                selection(self.strategies@, texts(strategies@)),
                *old(req),
                *final(req),
                found,
            ),
    {
        let ghost candidates = selection(self.strategies@, texts(strategies@));
        let ghost mut rejections: Seq<Rejection<R>> = Seq::empty();
        let mut i: usize = 0;
        while i < strategies.len()
            invariant
                i <= strategies.len(),
                rejections.len() == i,
                candidates == selection(self.strategies@, texts(strategies@)),
                all_registered(self.strategies@, texts(strategies@)),
                rejected_in_turn::<R, T, S>(candidates, *old(req), rejections),
                *req == state_before(*old(req), rejections, i as int),
            decreases strategies.len() - i,
        {
            assert(has_name(self.strategies@, texts(strategies@)[i as int]));
            match self.strategies.position(&strategies[i]) {
                Some(at) => {
                    let (_, strategy) = self.strategies.entry(at);
                    match strategy.authenticate(req) {
                        Ok(user) => {
                            let authed = AuthedUser { authed_by: strategies[i].clone(), user };
                            assert(resolved_with(
                                candidates,
                                *old(req),
                                *req,
                                Some(authed),
                                rejections,
                            ));
                            return Some(authed);
                        },
                        Err(error) => {
                            proof {
                                rejections = rejections.push(Rejection { error, after: *req });
                            }
                        },
                    }
                },
                None => unreached(),
            }
            i += 1;
        }
        assert(resolved_with(candidates, *old(req), *req, None::<AuthedUser<T>>, rejections));
        None
    }

    /// As `auth`, for names of which nothing is known.
    ///
    /// Where all of them are registered, this is `auth`. Where one is not,
    /// no strategy is consulted, the request is left alone, and the first
    /// such name comes back as the error: it is never passed over as if the
    /// strategy had failed.
    pub fn try_auth<R, T>(&self, req: &mut R, strategies: Vec<String>) -> (outcome: Result<
        Option<AuthedUser<T>>,
        UnknownStrategy,
    >) where S: Strategy<R, T>
        ensures
            if all_registered(self.strategies@, texts(strategies@)) {
                &&& outcome matches Ok(found)
                &&& resolves(
                    selection(self.strategies@, texts(strategies@)),
                    *old(req),
                    *final(req),
                    found,
                )
            } else {
                &&& outcome matches Err(unknown)
                &&& *final(req) == *old(req)
                &&& exists|at: int|
                    #[trigger] first_unregistered(self.strategies@, texts(strategies@), at)
                        && unknown.name@ == strategies@[at]@
            },
    {
        match self.first_unknown(&strategies) {
            Some(at) => {
                Err(UnknownStrategy { name: strategies[at].clone() })
            },
            None => Ok(self.auth(req, strategies)),
        }
    }
}

} // verus!
