use vstd::prelude::*;

use crate::error::{ErrorKind, RecoverableTransport};

verus! {

/// What a holder does with the underlying connection when it lets go of it.
#[derive(Debug, Clone, Copy, PartialEq, Eq, Structural)]
pub enum CloseAction {
    /// Close the underlying connection.
    CloseConnection,
    /// Drop this holder's reference; other holders keep the connection open.
    ReleaseHandle,
    /// The connection is already closed.
    AlreadyClosed,
}

/// Lifecycle of one connection scope: how many holders share it, whether it
/// was ever shared, and whether it has been disposed.
#[derive(Debug, Clone, Copy, PartialEq, Eq, Structural)]
pub struct ScopeLifecycle {
    pub holders: u64,
    pub shared: bool,
    pub disposed: bool,
}

/// Outcome of `close_if_owned` on a lifecycle.
pub open spec fn close_if_owned_spec(s: ScopeLifecycle) -> (ScopeLifecycle, CloseAction) {
    if s.disposed {
        (s, CloseAction::AlreadyClosed)
    } else if !s.shared || s.holders <= 1 {
        (ScopeLifecycle { holders: 0, disposed: true, ..s }, CloseAction::CloseConnection)
    } else {
        (ScopeLifecycle { holders: (s.holders - 1) as u64, ..s }, CloseAction::ReleaseHandle)
    }
}

/// The lifecycle after `m` calls of `close_if_owned`.
pub open spec fn after_closes(s: ScopeLifecycle, m: nat) -> ScopeLifecycle
    decreases m,
{
    if m == 0 {
        s
    } else {
        close_if_owned_spec(after_closes(s, (m - 1) as nat)).0
    }
}

impl ScopeLifecycle {
    /// Holders are counted while the scope is open; an owned scope has exactly one.
    pub open spec fn wf(&self) -> bool {
        &&& !self.disposed ==> self.holders >= 1
        &&& !self.shared && !self.disposed ==> self.holders == 1
    }

    /// A freshly opened scope with a single owner.
    pub fn new_owned() -> (r: ScopeLifecycle)
        ensures
            r.wf(),
            r == (ScopeLifecycle { holders: 1, shared: false, disposed: false }),
    {
        ScopeLifecycle { holders: 1, shared: false, disposed: false }
    }

    /// Adds a holder; the scope becomes shared.
    pub fn clone_as_shared(&mut self)
        requires
            old(self).wf(),
            !old(self).disposed,
            old(self).holders < u64::MAX,
        ensures
            final(self).wf(),
            *final(self) == (ScopeLifecycle { holders: (old(self).holders + 1) as u64, shared: true, disposed: false }),
    {
        self.holders = self.holders + 1;
        self.shared = true;
    }

    /// Lets go of one holder: an owned scope, or the last holder of a shared
    /// one, closes the connection; any other holder only releases its handle.
    pub fn close_if_owned(&mut self) -> (r: CloseAction)
        requires
            old(self).wf(),
        ensures
            final(self).wf(),
            (*final(self), r) == close_if_owned_spec(*old(self)),
    {
        if self.disposed {
            CloseAction::AlreadyClosed
        } else if !self.shared || self.holders <= 1 {
            self.holders = 0;
            self.disposed = true;
            CloseAction::CloseConnection
        } else {
            self.holders = self.holders - 1;
            CloseAction::ReleaseHandle
        }
    }

    /// Closes the connection whether it is owned or shared.
    pub fn close(&mut self) -> (r: CloseAction)
        requires
            old(self).wf(),
        ensures
            final(self).wf(),
            final(self).disposed,
            final(self).shared == old(self).shared,
            old(self).disposed ==> r == CloseAction::AlreadyClosed && *final(self) == *old(self),
            !old(self).disposed ==> r == CloseAction::CloseConnection && final(self).holders == 0,
    {
        if self.disposed {
            CloseAction::AlreadyClosed
        } else {
            self.holders = 0;
            self.disposed = true;
            CloseAction::CloseConnection
        }
    }

    pub fn is_closed(&self) -> (r: bool)
        ensures
            r == self.disposed,
    {
        self.disposed
    }

    /// True for a scope that was never shared, even once it is closed.
    pub fn is_owned(&self) -> (r: bool)
        ensures
            r == !self.shared,
    {
        !self.shared
    }

    /// True for a shared scope, even when only one holder is left.
    pub fn is_shared(&self) -> (r: bool)
        ensures
            r == self.shared,
    {
        self.shared
    }
}

impl RecoverableTransport for ScopeLifecycle {
    type RecoverError = ErrorKind;

    /// Recovery is refused only once the scope is disposed.
    fn recover(&mut self) -> (r: Result<(), ErrorKind>)
        ensures
            *final(self) == *old(self),
            old(self).disposed ==> r == Err::<(), ErrorKind>(ErrorKind::ScopeDisposed),
            !old(self).disposed ==> r is Ok,
    {
        if self.disposed {
            Err(ErrorKind::ScopeDisposed)
        } else {
            Ok(())
        }
    }
}

/// Disposal is permanent: closing again keeps the scope disposed.
pub proof fn lemma_disposed_is_monotonic(s: ScopeLifecycle, m: nat)
    requires
        s.disposed,
    ensures
        after_closes(s, m).disposed,
        after_closes(s, m) == s,
    decreases m,
{
    if m > 0 {
        lemma_disposed_is_monotonic(s, (m - 1) as nat);
    }
}

/// Shared close semantics: with `n` holders of a shared scope, the first
/// `n - 1` calls of `close_if_owned` leave the connection open and the `n`-th
/// closes it.
pub proof fn lemma_shared_close(s: ScopeLifecycle, n: nat)
    requires
        s.wf(),
        s.shared,
        !s.disposed,
        s.holders == n,
    ensures
        forall|m: nat| m < n ==> !(#[trigger] after_closes(s, m)).disposed && after_closes(s, m).holders == n - m,
        forall|m: nat| 0 < m < n ==> close_if_owned_spec(#[trigger] after_closes(s, (m - 1) as nat)).1 == CloseAction::ReleaseHandle,
        close_if_owned_spec(after_closes(s, (n - 1) as nat)).1 == CloseAction::CloseConnection,
        after_closes(s, n).disposed,
{
    assert forall|m: nat| m < n implies !(#[trigger] after_closes(s, m)).disposed && after_closes(s, m).holders == n - m && after_closes(s, m).shared by {
        lemma_open_while_held(s, n, m);
    }
    assert forall|m: nat| 0 < m < n implies close_if_owned_spec(#[trigger] after_closes(s, (m - 1) as nat)).1 == CloseAction::ReleaseHandle by {
        lemma_open_while_held(s, n, (m - 1) as nat);
    }
    lemma_open_while_held(s, n, (n - 1) as nat);
}

proof fn lemma_open_while_held(s: ScopeLifecycle, n: nat, m: nat)
    requires
        s.shared,
        !s.disposed,
        s.holders == n,
        m < n,
    ensures
        !after_closes(s, m).disposed,
        after_closes(s, m).holders == n - m,
        after_closes(s, m).shared,
    decreases m,
{
    if m > 0 {
        lemma_open_while_held(s, n, (m - 1) as nat);
    }
}

} // verus!
