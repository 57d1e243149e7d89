//! What it means to resolve a request against strategies tried in order.
//!
//! A resolution consults the candidates one after the other. Each one that
//! fails is passed over and its error forgotten; the first one that succeeds
//! ends the resolution and gives the identity; the candidates behind it are
//! not consulted. When none succeeds there is no identity, which is an
//! ordinary outcome and not an error.

use crate::strategy::{AuthError, Strategy};
use vstd::prelude::*;

verus! {

/// An identity, and the name under which the strategy that found it is
/// registered.
pub struct AuthedUser<T> {
    pub authed_by: String,
    pub user: T,
}

/// One failed attempt as the contracts record it: the error that came back
/// and the state in which the request was left.
pub struct Rejection<R> {
    pub error: AuthError,
    pub after: R,
}

/// The state of the request at the moment candidate number `n` is consulted,
/// when the resolution began in `start` and the candidates before it were
/// rejected as `rejections` tells.
pub open spec fn state_before<R>(start: R, rejections: Seq<Rejection<R>>, n: int) -> R {
    if n <= 0 {
        start
    } else {
        rejections[n - 1].after
    }
}

/// The first `rejections.len()` candidates were consulted in order, each on
/// the request as its predecessor left it, and each failed as recorded.
pub open spec fn rejected_in_turn<R, U, S: Strategy<R, U>>(
    candidates: Seq<(Seq<char>, S)>,
    start: R,
    rejections: Seq<Rejection<R>>,
) -> bool {
    &&& rejections.len() <= candidates.len()
    &&& forall|j: int|
        0 <= j < rejections.len() ==> candidates[j].1.admits(
            state_before(start, rejections, j),
            (#[trigger] rejections[j]).after,
            Err::<U, AuthError>(rejections[j].error),
        )
}

/// A resolution that began in `start`, left the request in `end` and gave
/// `found`, with `rejections` as the record of the attempts that failed.
///
/// With an identity, the candidate right behind the rejected ones gave it,
/// `end` is the state in which that candidate left the request, and the
/// identity carries that candidate's name. Without one, every candidate was
/// rejected and `end` is the state in which the last one left the request.
pub open spec fn resolved_with<R, U, S: Strategy<R, U>>(
    candidates: Seq<(Seq<char>, S)>,
    start: R,
    end: R,
    found: Option<AuthedUser<U>>,
    rejections: Seq<Rejection<R>>,
) -> bool {
    let k = rejections.len() as int;
    &&& rejected_in_turn::<R, U, S>(candidates, start, rejections)
    &&& match found {
        Some(authed) => {
            &&& k < candidates.len()
            &&& authed.authed_by@ == candidates[k].0
            &&& candidates[k].1.admits(
                state_before(start, rejections, k),
                end,
                Ok::<U, AuthError>(authed.user),
            )
        },
        None => k == candidates.len() && end == state_before(start, rejections, k),
    }
}

/// Trying `candidates` in order on a request in state `start` may leave it in
/// state `end` and give `found`.
pub open spec fn resolves<R, U, S: Strategy<R, U>>(
    candidates: Seq<(Seq<char>, S)>,
    start: R,
    end: R,
    found: Option<AuthedUser<U>>,
) -> bool {
    exists|rejections: Seq<Rejection<R>>|
        resolved_with(candidates, start, end, found, rejections)
}

/// No attempt of the strategy succeeds, whatever the request.
pub open spec fn never_succeeds<R, U, S: Strategy<R, U>>(strategy: S) -> bool {
    forall|before: R, after: R, user: U|
        !(#[trigger] strategy.admits(before, after, Ok::<U, AuthError>(user)))
}

/// No attempt of the strategy fails, whatever the request.
pub open spec fn never_fails<R, U, S: Strategy<R, U>>(strategy: S) -> bool {
    forall|before: R, after: R, error: AuthError|
        !(#[trigger] strategy.admits(before, after, Err::<U, AuthError>(error)))
}

/// The first candidate that succeeds wins, and nothing behind it is consulted.
///
/// If every candidate before number `k` can only fail and candidate `k` can
/// only succeed, then every resolution gives an identity, that identity is
/// named after candidate `k`, exactly the `k` candidates before it were
/// rejected, and the request is left as candidate `k` left it.
pub proof fn lemma_first_success_wins<R, U, S: Strategy<R, U>>(
    candidates: Seq<(Seq<char>, S)>,
    k: int,
    start: R,
    end: R,
    found: Option<AuthedUser<U>>,
)
    requires
        0 <= k < candidates.len(),
        forall|j: int| 0 <= j < k ==> never_succeeds::<R, U, S>((#[trigger] candidates[j]).1),
        never_fails::<R, U, S>(candidates[k].1),
        resolves(candidates, start, end, found),
    ensures
        found is Some,
        found->0.authed_by@ == candidates[k].0,
        exists|rejections: Seq<Rejection<R>>|
            rejections.len() == k && #[trigger] resolved_with(
                candidates,
                start,
                end,
                found,
                rejections,
            ),
{
    let rejections = choose|rejections: Seq<Rejection<R>>|
        resolved_with(candidates, start, end, found, rejections);
    if rejections.len() > k {
        assert(candidates[k].1.admits(
            state_before(start, rejections, k),
            rejections[k].after,
            Err::<U, AuthError>(rejections[k].error),
        ));
    }
}

/// Where every candidate fails there is no identity, and no error either.
///
/// If every candidate can only fail, then every resolution gives no identity,
/// after all of them were consulted.
pub proof fn lemma_all_fail_no_identity<R, U, S: Strategy<R, U>>(
    candidates: Seq<(Seq<char>, S)>,
    start: R,
    end: R,
    found: Option<AuthedUser<U>>,
)
    requires
        forall|j: int|
            0 <= j < candidates.len() ==> never_succeeds::<R, U, S>((#[trigger] candidates[j]).1),
        resolves(candidates, start, end, found),
    ensures
        found is None,
        exists|rejections: Seq<Rejection<R>>|
            rejections.len() == candidates.len() && #[trigger] resolved_with(
                candidates,
                start,
                end,
                found,
                rejections,
            ),
{
}

} // verus!
