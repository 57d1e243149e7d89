//! The resolution slot: where the outcome of a request's resolution is kept
//! for the code that handles the request.

use crate::resolution::AuthedUser;
use std::sync::Arc;
use vstd::prelude::*;

verus! {

/// `Arc::clone` of std: a second handle to the same allocation, so the value
/// behind the new handle is the value behind the old one.
#[verifier::external_body]
fn share<V>(handle: &Arc<V>) -> (other: Arc<V>)
    ensures
        other == *handle,
{
    handle.clone()
}

/// A cell that belongs to one request. It starts out unresolved, is written
/// once with the outcome of the resolution, and is read from then on.
pub struct ResolutionSlot<T> {
    cell: Option<Arc<Option<AuthedUser<T>>>>,
}

impl<T> ResolutionSlot<T> {
    /// What was written: `None` before the resolution, afterwards its
    /// outcome, which is itself `None` where no identity was found.
    pub closed spec fn resolution(&self) -> Option<Option<AuthedUser<T>>> {
        match self.cell {
            Some(written) => Some(*written),
            None => None,
        }
    }

    /// Whether `user` is what a reader of this slot gets.
    pub open spec fn reads_as(&self, user: Arc<Option<AuthedUser<T>>>) -> bool {
        self.resolution() == Some(*user)
    }

    /// The slot of a request that has not been resolved yet.
    pub fn new() -> (slot: Self)
        ensures
            slot.resolution() is None,
    {
        ResolutionSlot { cell: None }
    }

    /// The slot of a request that was resolved to `found`.
    pub fn resolved(found: Option<AuthedUser<T>>) -> (slot: Self)
        ensures
            slot.resolution() == Some(found),
    {
        ResolutionSlot { cell: Some(Arc::new(found)) }
    }

    /// Whether the slot has been written.
    pub fn is_resolved(&self) -> (written: bool)
        ensures
            written == (self.resolution() is Some),
    {
        self.cell.is_some()
    }

    /// Writes the outcome of the resolution, unless one is there already: a
    /// slot is written once, and a second write changes nothing. Returns
    /// whether it wrote.
    pub fn publish(&mut self, found: Option<AuthedUser<T>>) -> (wrote: bool)
        ensures
            wrote == (old(self).resolution() is None),
            wrote ==> final(self).resolution() == Some(found),
            !wrote ==> *final(self) == *old(self),
    {
        if self.cell.is_some() {
            false
        } else {
            self.cell = Some(Arc::new(found));
            true
        }
    }
}

/// What the code that handles a request may ask about the caller.
///
/// Both questions are for a request whose resolution has run. To ask before
/// is a mistake in the order of the pipeline, which the preconditions rule
/// out.
pub trait ChainmailReqExt<T> {
    /// The outcome of the resolution, once it has run.
    spec fn resolution(&self) -> Option<Option<AuthedUser<T>>>;

    /// The identity of the caller, if one was found, with the name of the
    /// strategy that found it.
    fn current_user(&self) -> (user: Arc<Option<AuthedUser<T>>>)
        requires
            self.resolution() is Some,
        ensures
            self.resolution() == Some(*user),
    ;

    /// Whether an identity was found.
    fn is_signed_in(&self) -> (signed_in: bool)
        requires
            self.resolution() is Some,
        ensures
            signed_in == (self.resolution()->0 is Some),
    ;
}

impl<T> ChainmailReqExt<T> for ResolutionSlot<T> {
    open spec fn resolution(&self) -> Option<Option<AuthedUser<T>>> {
        ResolutionSlot::resolution(self)
    }

    fn current_user(&self) -> (user: Arc<Option<AuthedUser<T>>>) {
        match &self.cell {
            Some(written) => share(written),
            None => unreached(),
        }
    }

    fn is_signed_in(&self) -> (signed_in: bool) {
        let user = self.current_user();
        match &*user {
            Some(_) => true,
            None => false,
        }
    }
}

/// Reading twice gives the same: whatever two reads of one slot return, they
/// return the same value.
pub proof fn lemma_reads_agree<T>(
    slot: ResolutionSlot<T>,
    first: Arc<Option<AuthedUser<T>>>,
    second: Arc<Option<AuthedUser<T>>>,
)
    requires
        slot.reads_as(first),
        slot.reads_as(second),
    ensures
        first == second,
{
}

} // verus!
