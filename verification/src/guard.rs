//! Exactly-once finalization of a paired (stream, body) host resource.
//!
//! A writable or readable host stream comes paired with a body resource that
//! must be finished exactly once, no matter how the owning adapter's lifetime
//! ends.  The guard keeps the pair in an `Option` and moves it out on the
//! first teardown, so a repeated teardown is a no-op.

use vstd::prelude::*;

verus! {

/// The two host resources owned by one body adapter, named by opaque tokens.
#[derive(Clone, Copy, PartialEq, Eq, Structural, Debug)]
pub struct BodyPair {
    /// Token of the byte stream half.
    pub stream: u64,
    /// Token of the paired body resource, the one that must be finished.
    pub body: u64,
}

/// Owns a (stream, body) pair until the first teardown.
pub struct BodyGuard {
    pair: Option<BodyPair>,
}

/// How one `teardown` call relates the guard before (`g0`) and after (`g1`)
/// the call, and what the call returned (`r`): the pair is handed out on the
/// first call and the guard is disarmed for good.
pub open spec fn teardown_rel(g0: BodyGuard, g1: BodyGuard, r: Option<BodyPair>) -> bool {
    &&& g1.pair() is None
    &&& r == g0.pair()
}

impl BodyGuard {
    /// The pair still held, if the guard has not been torn down yet.
    pub closed spec fn pair(&self) -> Option<BodyPair> {
        self.pair
    }

    /// Arm a guard with the pair it is responsible for.
    pub fn new(stream: u64, body: u64) -> (g: BodyGuard)
        ensures
            g.pair() == Some(BodyPair { stream, body }),
    {
        BodyGuard { pair: Some(BodyPair { stream, body }) }
    }

    /// Whether the guard still owns its pair.
    pub fn is_armed(&self) -> (b: bool)
        ensures
            b == (self.pair() is Some),
    {
        self.pair.is_some()
    }

    /// Take the pair out for finalization.  Returns `Some` exactly on the
    /// first call; afterwards the guard stays empty, so calling again (from a
    /// second teardown path) hands nothing out.
    pub fn teardown(&mut self) -> (r: Option<BodyPair>)
        ensures
            teardown_rel(*old(self), *final(self), r),
    {
        self.pair.take()
    }
}

/// The body resource is finished exactly once: of two successive teardowns of
/// an armed guard, the first hands the pair out and the second hands out
/// nothing.
pub proof fn lemma_finish_exactly_once(
    g0: BodyGuard,
    g1: BodyGuard,
    g2: BodyGuard,
    r1: Option<BodyPair>,
    r2: Option<BodyPair>,
)
    requires
        g0.pair() is Some,
        teardown_rel(g0, g1, r1),
        teardown_rel(g1, g2, r2),
    ensures
        r1 is Some,
        r2 is None,
{
}

} // verus!
