//! Memos: structured diagnostic events that devices hand to an inbox.
//!
//! An inbox is purely observational. What it has been handed is modelled by
//! the ghost sequence `received`, so a caller can state which events a
//! device emits without the inbox having to keep them at run time.

use vstd::prelude::*;

verus! {

/// A sink for memos of type `M`.
pub trait Inbox<M> {
    /// Every memo handed to this inbox so far, oldest first.
    spec fn received(&self) -> Seq<M>;

    fn receive(&mut self, memo: M)
        ensures
            final(self).received() == old(self).received().push(memo),
    ;
}

/// An inbox that throws its memos away.
pub struct NothingInbox<M> {
    log: Ghost<Seq<M>>,
}

impl<M> NothingInbox<M> {
    pub fn new() -> (r: Self)
        ensures
            r.received() == Seq::<M>::empty(),
    {
        NothingInbox { log: Ghost(Seq::empty()) }
    }
}

impl<M> Inbox<M> for NothingInbox<M> {
    closed spec fn received(&self) -> Seq<M> {
        self.log@
    }

    fn receive(&mut self, memo: M) {
        self.log = Ghost(self.log@.push(memo));
    }
}

/// An inbox that keeps every memo it is handed, in order.
pub struct MemoLog<M> {
    memos: Vec<M>,
}

impl<M> MemoLog<M> {
    pub fn new() -> (r: Self)
        ensures
            r.received() == Seq::<M>::empty(),
    {
        MemoLog { memos: Vec::new() }
    }

    /// The memos received so far, oldest first.
    pub fn memos(&self) -> (r: &Vec<M>)
        ensures
            r@ == self.received(),
    {
        &self.memos
    }
}

impl<M> Inbox<M> for MemoLog<M> {
    closed spec fn received(&self) -> Seq<M> {
        self.memos@
    }

    fn receive(&mut self, memo: M) {
        self.memos.push(memo);
    }
}

} // verus!
