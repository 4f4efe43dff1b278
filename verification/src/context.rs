use vstd::prelude::*;

use crate::errors::DeError;

verus! {

/// The outcome of allocating the native engine handle: a failed
/// allocation is a library-initialization failure, and nothing else is.
pub fn context_alloc_outcome(allocated: bool) -> (r: Result<(), DeError>)
    ensures
        r is Ok <==> allocated,
        !allocated ==> r == Err::<(), DeError>(DeError::ErrorLibraryInitializationFailed),
{
    if allocated {
        Ok(())
    } else {
        Err(DeError::ErrorLibraryInitializationFailed)
    }
}

/// The shared-ownership anchor of one native engine handle.
///
/// The two session halves, input and output, each hold one reference to
/// the same context. The native handle must be released exactly once,
/// when the last holder is dropped, and never while a holder remains.
/// This ledger makes that protocol explicit: each drop reports whether
/// the release falls to it.
#[derive(Debug, Copy, Clone, PartialEq, Eq, Structural)]
pub struct ContextHandles {
    /// Session halves still holding the context.
    pub holders: u8,
    /// Whether the native handle has been released.
    pub released: bool,
}

impl ContextHandles {
    /// The handle is released exactly when no holder remains.
    pub open spec fn wf(self) -> bool {
        self.released <==> self.holders == 0
    }

    /// A fresh context held by its two session halves, its native
    /// handle not yet released.
    pub fn new_pair() -> (c: ContextHandles)
        ensures
            c.wf(),
            c.holders == 2,
            !c.released,
    {
        ContextHandles { holders: 2, released: false }
    }

    /// Drops one session half. Returns whether the native handle must
    /// be released now: true exactly for the last holder, so the
    /// release happens once however the two halves are dropped, and
    /// never while the other half remains.
    pub fn drop_holder(&mut self) -> (free_now: bool)
        requires
            old(self).wf(),
            old(self).holders >= 1,
        ensures
            final(self).wf(),
            final(self).holders == old(self).holders - 1,
            free_now <==> old(self).holders == 1,
            final(self).released <==> free_now,
            *final(self) == drop_holder_post(*old(self)),
    {
        self.holders = self.holders - 1;
        if self.holders == 0 {
            self.released = true;
            true
        } else {
            false
        }
    }
}

/// The state of the ledger after one holder is dropped.
pub open spec fn drop_holder_post(c: ContextHandles) -> ContextHandles {
    ContextHandles { holders: (c.holders - 1) as u8, released: c.holders == 1 }
}

/// However the two session halves of a fresh context are dropped, the
/// first drop never releases the native handle and the second always
/// does: the release happens exactly once, and only when no holder
/// remains.
pub proof fn lemma_release_exactly_once(c: ContextHandles)
    requires
        c.wf(),
        c.holders == 2,
    ensures
        !drop_holder_post(c).released,
        drop_holder_post(c).wf(),
        drop_holder_post(drop_holder_post(c)).released,
        drop_holder_post(drop_holder_post(c)).wf(),
        drop_holder_post(drop_holder_post(c)).holders == 0,
{
}

} // verus!
