//! Lifecycle of a command that waits for a human: pending review, approved,
//! executed.
//!
//! Each state is a type of its own with private fields. The only way to an
//! [`ApprovedByHuman`] is [`PendingReview::approve`], and the only way to an
//! [`Executed`] is [`ApprovedByHuman::execute`]; both consume the state they
//! start from, so no record skips a state or moves backward.

use vstd::prelude::*;

verus! {

/// Marks the three states of the lifecycle.
pub trait HitlState {

}

/// A payload that waits for a human to review it.
#[derive(Debug)]
pub struct PendingReview<T> {
    payload: T,
}

/// A payload that a human has approved.
#[derive(Debug)]
pub struct ApprovedByHuman<T> {
    payload: T,
    human_did: String,
}

/// A payload whose approved action was carried out and logged.
#[derive(Debug)]
pub struct Executed<T> {
    payload: T,
    human_did: String,
    hexstamp: String,
}

impl<T> HitlState for PendingReview<T> {

}

impl<T> HitlState for ApprovedByHuman<T> {

}

impl<T> HitlState for Executed<T> {

}

/// Mathematical value of a [`PendingReview`].
pub struct PendingReviewView<T> {
    pub payload: T,
}

/// Mathematical value of an [`ApprovedByHuman`].
pub struct ApprovedByHumanView<T> {
    pub payload: T,
    pub human_did: Seq<char>,
}

/// Mathematical value of an [`Executed`].
pub struct ExecutedView<T> {
    pub payload: T,
    pub human_did: Seq<char>,
    pub hexstamp: Seq<char>,
}

/// The approved record that an executed record came from.
pub open spec fn approved_of<T>(e: ExecutedView<T>) -> ApprovedByHumanView<T> {
    ApprovedByHumanView { payload: e.payload, human_did: e.human_did }
}

/// The pending record that an approved record came from.
pub open spec fn pending_of<T>(a: ApprovedByHumanView<T>) -> PendingReviewView<T> {
    PendingReviewView { payload: a.payload }
}

impl<T> View for PendingReview<T> {
    type V = PendingReviewView<T>;

    closed spec fn view(&self) -> PendingReviewView<T> {
        PendingReviewView { payload: self.payload }
    }
}

impl<T> View for ApprovedByHuman<T> {
    type V = ApprovedByHumanView<T>;

    closed spec fn view(&self) -> ApprovedByHumanView<T> {
        ApprovedByHumanView { payload: self.payload, human_did: self.human_did@ }
    }
}

impl<T> View for Executed<T> {
    type V = ExecutedView<T>;

    closed spec fn view(&self) -> ExecutedView<T> {
        ExecutedView {
            payload: self.payload,
            human_did: self.human_did@,
            hexstamp: self.hexstamp@,
        }
    }
}

impl<T> PendingReview<T> {
    /// Opens the lifecycle for a payload that has been deferred to a human.
    pub fn new(payload: T) -> (r: Self)
        ensures
            r@.payload == payload,
    {
        PendingReview { payload }
    }

    pub fn payload(&self) -> (r: &T)
        ensures
            *r == self@.payload,
    {
        &self.payload
    }

    /// Records the approval of the human `human_did`.
    pub fn approve(self, human_did: String) -> (r: ApprovedByHuman<T>)
        ensures
            r@.payload == self@.payload,
            r@.human_did == human_did@,
            pending_of(r@) == self@,
    {
        ApprovedByHuman { payload: self.payload, human_did }
    }
}

impl<T> ApprovedByHuman<T> {
    pub fn payload(&self) -> (r: &T)
        ensures
            *r == self@.payload,
    {
        &self.payload
    }

    pub fn human_did(&self) -> (r: &str)
        ensures
            r@ == self@.human_did,
    {
        self.human_did.as_str()
    }

    /// Carries the approved action out: calls `log` once on this record and
    /// keeps the proof stamp it returns beside the payload and the approver.
    pub fn execute<F: FnOnce(&ApprovedByHuman<T>) -> String>(self, log: F) -> (r: Executed<T>)
        requires
            call_requires(log, (&self,)),
        ensures
            approved_of(r@) == self@,
            exists|stamp: String| stamp@ == r@.hexstamp && call_ensures(log, (&self,), stamp),
    {
        let hexstamp = log(&self);
        let ghost stamp = hexstamp;
        let r = Executed { payload: self.payload, human_did: self.human_did, hexstamp };
        assert(stamp@ == r@.hexstamp && call_ensures(log, (&self,), stamp));
        r
    }
}

impl<T> Executed<T> {
    pub fn payload(&self) -> (r: &T)
        ensures
            *r == self@.payload,
    {
        &self.payload
    }

    pub fn human_did(&self) -> (r: &str)
        ensures
            r@ == self@.human_did,
    {
        self.human_did.as_str()
    }

    pub fn hexstamp(&self) -> (r: &str)
        ensures
            r@ == self@.hexstamp,
    {
        self.hexstamp.as_str()
    }
}

/// Behind every executed record stands an approved record with the same
/// payload and approver, and behind that a pending record with the same
/// payload.
pub proof fn lemma_executed_was_approved<T>(e: ExecutedView<T>)
    ensures
        approved_of(e).payload == e.payload,
        approved_of(e).human_did == e.human_did,
        pending_of(approved_of(e)).payload == e.payload,
{
}

} // verus!
