//! One-shot callback tokens for embedded draw-list callbacks.
//!
//! The GUI library hands the renderer, per frame, opaque draw commands that
//! may carry a callback token: a small integer naming a single-use closure
//! the embedder holds.  The renderer must invoke each embedded callback at
//! most once, in command order, and the registry is invalidated at the
//! start of the next frame.  The closures themselves are foreign values and
//! stay with the embedder, keyed by token; this registry owns the decision
//! that makes the discipline hold: whether a token may still fire.

use vstd::prelude::*;

verus! {

/// Tracks, per registered token, whether its callback has already fired
/// this frame.  Tokens are handed out densely from zero, so the embedder
/// can keep the closures in a parallel list.
pub struct CallbackRegistry {
    fired: Vec<bool>,
}

impl CallbackRegistry {
    /// Which tokens exist and whether each has fired.
    pub closed spec fn spec_fired(&self) -> Seq<bool> {
        self.fired@
    }

    /// An empty registry: no tokens outstanding.
    pub fn new() -> (r: CallbackRegistry)
        ensures
            r.spec_fired() == Seq::<bool>::empty(),
    {
        CallbackRegistry { fired: Vec::new() }
    }

    /// How many tokens have been handed out this frame.
    pub fn len(&self) -> (n: usize)
        ensures
            n == self.spec_fired().len(),
    {
        self.fired.len()
    }

    /// Hand out the next token; its callback has not fired yet.
    pub fn register(&mut self) -> (t: usize)
        requires
            old(self).spec_fired().len() < usize::MAX,
        ensures
            t == old(self).spec_fired().len(),
            final(self).spec_fired() == old(self).spec_fired().push(false),
    {
        let t = self.fired.len();
        self.fired.push(false);
        t
    }

    /// Claim a token for invocation.  Succeeds exactly when the token was
    /// handed out this frame and has not fired yet; a successful claim
    /// marks it fired, so the embedder may run the closure exactly when
    /// this returns true.
    pub fn claim(&mut self, token: usize) -> (ok: bool)
        ensures
            ok == (token < old(self).spec_fired().len()
                && !old(self).spec_fired()[token as int]),
            ok ==> final(self).spec_fired()
                == old(self).spec_fired().update(token as int, true),
            !ok ==> *final(self) == *old(self),
    {
        if token < self.fired.len() && !self.fired[token] {
            let slot = &mut self.fired[token];
            *slot = true;
            true
        } else {
            false
        }
    }

    /// Invalidate every token: the start of the next frame.
    pub fn reset(&mut self)
        ensures
            final(self).spec_fired() == Seq::<bool>::empty(),
    {
        self.fired.clear();
    }
}

/// Law: a callback fires at most once per frame.  After one successful
/// claim of a token, the token is marked fired, and the success condition
/// of any later claim of the same token is false until the registry is
/// reset.
pub proof fn lemma_claim_at_most_once(after_first: CallbackRegistry, token: int)
    requires
        0 <= token < after_first.spec_fired().len(),
        after_first.spec_fired()[token],
    ensures
        !(token < after_first.spec_fired().len() && !after_first.spec_fired()[token]),
{
}

} // verus!
