//! The abstract state of a control block and the effect of each operation.
//!
//! A [`State`] is what a control block holds apart from the shared value:
//! the counter word, the waker stored for the host, and the handles that
//! point at the block ([`Roles`]). The counter of a well-formed state is the
//! number of those handles.

use vstd::prelude::*;

verus! {

/// The waker that a block stores when it is first shared, before the host
/// has been polled: one that does nothing when woken.
pub const NOOP_WAKER: u64 = 0;

/// The handles that point at a control block.
pub struct Roles {
    /// A `Unique` owns the block.
    pub unique: bool,
    /// The number of live hosts (at most one).
    pub hosts: nat,
    /// The live host may read the value and hand out new shares (a `Host`
    /// or a `HostPinned`, not one of their mutable kinds).
    pub minting: bool,
    /// The number of live shared (read-only) shares.
    pub shares: nat,
    /// The number of live mutable shares (at most one).
    pub mut_shares: nat,
}

/// The abstract state of a control block.
pub struct State {
    /// The counter word.
    pub count: nat,
    /// The waker stored for the host, when one is stored.
    pub waker: Option<u64>,
    /// The handles that point at the block.
    pub roles: Roles,
}

/// What giving up a handle did.
#[derive(Clone, Copy, Debug, PartialEq, Eq, Structural)]
pub enum Released {
    /// The host had already taken the block back: nothing was done.
    Detached,
    /// Other handles remain besides the host, or the host is gone: the
    /// counter went down by one.
    Left,
    /// One handle remains: the counter went down to one and the stored
    /// waker, given here, was woken.
    Woke(u64),
    /// This was the last handle: the block was freed.
    Freed,
}

impl Roles {
    /// The number of handles.
    pub open spec fn total(self) -> nat {
        (if self.unique { 1nat } else { 0nat }) + self.hosts + self.shares + self.mut_shares
    }
}

impl State {
    /// The counter counts the handles, and the handles are of a combination
    /// that the operations can produce.
    pub open spec fn wf(self) -> bool {
        &&& self.count == self.roles.total()
        &&& self.roles.unique ==> self.roles.total() == 1
        &&& self.roles.hosts <= 1
        &&& self.roles.minting ==> self.roles.hosts == 1
        &&& self.roles.mut_shares <= 1
        &&& self.roles.mut_shares == 1 ==> self.roles.shares == 0 && !self.roles.minting
        &&& (!self.roles.unique && self.count > 0) ==> self.waker is Some
    }

    /// A block just created for a value: owned by a `Unique`.
    pub open spec fn fresh() -> State {
        State {
            count: 1,
            waker: None,
            roles: Roles { unique: true, hosts: 0, minting: false, shares: 0, mut_shares: 0 },
        }
    }

    /// The `Unique` that owns the block splits into a host and one share
    /// (a mutable one when `mutable`), storing the no-op waker.
    pub open spec fn shared(self, mutable: bool) -> State {
        State {
            count: 2,
            waker: Some(NOOP_WAKER),
            roles: Roles {
                unique: false,
                hosts: 1,
                minting: !mutable,
                shares: if mutable { 0 } else { 1 },
                mut_shares: if mutable { 1 } else { 0 },
            },
        }
    }

    /// One more shared share.
    pub open spec fn acquired(self) -> State {
        State {
            count: self.count + 1,
            waker: self.waker,
            roles: Roles { shares: self.roles.shares + 1, ..self.roles },
        }
    }

    /// The counter after one handle is given up, with the handles `roles`
    /// that remain: one less. The stored waker stays in its slot (a handoff
    /// wakes it without taking it out) until the block is freed.
    pub open spec fn after_release(self, roles: Roles) -> State {
        State {
            count: (self.count - 1) as nat,
            waker: if self.count <= 1 { None } else { self.waker },
            roles,
        }
    }

    /// A shared share is given up.
    pub open spec fn release_share(self) -> State {
        self.after_release(Roles { shares: (self.roles.shares - 1) as nat, ..self.roles })
    }

    /// The mutable share is given up.
    pub open spec fn release_mut_share(self) -> State {
        self.after_release(Roles { mut_shares: (self.roles.mut_shares - 1) as nat, ..self.roles })
    }

    /// The host is given up before it took the block back.
    pub open spec fn release_host(self) -> State {
        self.after_release(Roles { hosts: (self.roles.hosts - 1) as nat, minting: false, ..self.roles })
    }

    /// What giving up a handle reports, from the counter it found.
    pub open spec fn release_outcome(self) -> Released {
        if self.count == 1 {
            Released::Freed
        } else if self.count == 2 {
            Released::Woke(self.waker.unwrap())
        } else {
            Released::Left
        }
    }

    /// A poll that finds other handles: the host's waker `w` is stored.
    pub open spec fn polled_pending(self, w: u64) -> State {
        State { waker: Some(w), ..self }
    }

    /// A poll that finds the host alone: the host becomes a `Unique`, and
    /// the stored waker is dropped.
    pub open spec fn polled_ready(self) -> State {
        State {
            waker: None,
            roles: Roles { unique: true, hosts: 0, minting: false, ..self.roles },
            ..self
        }
    }

    /// The host gives up the right to read and to hand out shares.
    pub open spec fn host_made_mut(self) -> State {
        State { roles: Roles { minting: false, ..self.roles }, ..self }
    }

    /// The mutable share becomes a shared share.
    pub open spec fn mut_share_made_shared(self) -> State {
        State {
            roles: Roles {
                mut_shares: (self.roles.mut_shares - 1) as nat,
                shares: self.roles.shares + 1,
                ..self.roles
            },
            ..self
        }
    }
}

/// Every operation keeps a well-formed state well formed: creating a
/// block, sharing it, cloning a share, giving up any present handle,
/// polling the host, and turning a host or a mutable share into its other
/// kind.
pub proof fn lemma_operations_keep_wf(s: State, w: u64, mutable: bool)
    requires
        s.wf(),
    ensures
        State::fresh().wf(),
        s.roles.unique ==> s.shared(mutable).wf(),
        !s.roles.unique && s.roles.mut_shares == 0 && s.count >= 1 ==> s.acquired().wf(),
        s.roles.shares >= 1 ==> s.release_share().wf(),
        s.roles.mut_shares == 1 ==> s.release_mut_share().wf(),
        s.roles.hosts == 1 ==> s.release_host().wf(),
        s.roles.hosts == 1 && s.count == 1 ==> s.polled_ready().wf(),
        s.polled_pending(w).wf(),
        s.roles.hosts == 1 ==> s.host_made_mut().wf(),
        s.roles.mut_shares == 1 ==> s.mut_share_made_shared().wf(),
{
}

/// Cloning a share and then giving one up restores the whole state. The
/// release only decrements when other handles remain beside the cloned
/// share, and wakes the stored waker when the cloned share was alone.
pub proof fn lemma_clone_then_release(s: State)
    requires
        s.wf(),
        s.roles.shares >= 1,
        s.roles.mut_shares == 0,
    ensures
        s.acquired().release_share() == s,
        s.count >= 2 ==> s.acquired().release_outcome() is Left,
        s.count == 1 ==> s.acquired().release_outcome() == Released::Woke(s.waker.unwrap()),
{
    let t = s.acquired();
    assert(t.release_share().roles =~= s.roles);
}

/// A poll of the host finds it ready exactly when no share remains: the
/// counter reads one exactly when the host is the only handle.
pub proof fn lemma_ready_iff_no_share(s: State)
    requires
        s.wf(),
        s.roles.hosts == 1,
    ensures
        s.count == 1 <==> (s.roles.shares == 0 && s.roles.mut_shares == 0),
        s.count == 1 ==> s.polled_ready().roles.unique && s.polled_ready().roles.total() == 1,
{
}

/// When the last share beside a live host is given up, the host's stored
/// waker is woken and the host is left alone, so that its next poll is
/// ready.
pub proof fn lemma_last_share_wakes_host(s: State)
    requires
        s.wf(),
        s.roles.hosts == 1,
        s.roles.shares + s.roles.mut_shares == 1,
    ensures
        s.release_outcome() == Released::Woke(s.waker.unwrap()),
        s.roles.shares == 1 ==> s.release_share().waker == s.waker,
        s.roles.mut_shares == 1 ==> s.release_mut_share().waker == s.waker,
        s.roles.shares == 1 ==> s.release_share().count == 1,
        s.roles.shares == 1 ==> s.release_share().roles.hosts == 1,
        s.roles.mut_shares == 1 ==> s.release_mut_share().count == 1,
        s.roles.mut_shares == 1 ==> s.release_mut_share().roles.hosts == 1,
{
}

/// Giving up a handle frees the block exactly when it is the last handle,
/// and after that no handle points at the block.
pub proof fn lemma_freed_iff_last(s: State)
    requires
        s.wf(),
        !s.roles.unique,
    ensures
        s.release_outcome() is Freed <==> s.roles.total() == 1,
        s.roles.shares >= 1 && s.release_outcome() is Freed ==> s.release_share().roles.total() == 0,
        s.roles.mut_shares == 1 && s.release_outcome() is Freed ==> s.release_mut_share().roles.total() == 0,
        s.roles.hosts == 1 && s.release_outcome() is Freed ==> s.release_host().roles.total() == 0,
        s.roles.total() >= 2 ==> !(s.release_outcome() is Freed),
{
}

/// While the mutable share lives, no more than two handles point at the
/// block, and no host can hand out another share.
pub proof fn lemma_mut_share_exclusive(s: State)
    requires
        s.wf(),
        s.roles.mut_shares == 1,
    ensures
        s.count <= 2,
        s.roles.shares == 0,
        !s.roles.minting,
{
}

/// A poll that is not ready keeps the counter and the handles, stores the
/// host's waker, and polling again with the same waker changes nothing.
pub proof fn lemma_pending_keeps_handles(s: State, w: u64)
    ensures
        s.polled_pending(w).count == s.count,
        s.polled_pending(w).roles == s.roles,
        s.polled_pending(w).waker == Some(w),
        s.polled_pending(w).polled_pending(w) == s.polled_pending(w),
{
}

/// A waker is stored whenever a handle other than a `Unique` points at
/// the block, so that a handoff or a poll always finds one.
pub proof fn lemma_waker_stored(s: State)
    requires
        s.wf(),
        s.count >= 2,
    ensures
        s.waker is Some,
{
}

/// Giving up `k` shared shares one after the other.
pub open spec fn release_shares(s: State, k: nat) -> State
    decreases k,
{
    if k == 0 {
        s
    } else {
        release_shares(s.release_share(), (k - 1) as nat)
    }
}

/// Once every share beside a live host is given up, one at a time: each
/// release but the last only decrements, the last one wakes the waker the
/// host stored, and the host is left alone with the same waker, so that its
/// next poll is ready.
pub proof fn lemma_all_shares_released(s: State, k: nat)
    requires
        s.wf(),
        s.roles.hosts == 1,
        s.roles.mut_shares == 0,
        s.roles.shares == k,
        k >= 1,
    ensures
        release_shares(s, k).wf(),
        release_shares(s, k).count == 1,
        release_shares(s, k).roles.hosts == 1,
        release_shares(s, k).roles.shares == 0,
        release_shares(s, k).waker == s.waker,
        forall|j: nat| j < k - 1 ==> (#[trigger] release_shares(s, j)).release_outcome() is Left,
        release_shares(s, (k - 1) as nat).release_outcome() == Released::Woke(s.waker.unwrap()),
    decreases k,
{
    let t = s.release_share();
    if k > 1 {
        lemma_all_shares_released(t, (k - 1) as nat);
        assert forall|j: nat| j < k - 1 implies (#[trigger] release_shares(s, j)).release_outcome() is Left by {
            if j > 0 {
                assert(release_shares(s, j) == release_shares(t, (j - 1) as nat));
            }
        }
        assert(release_shares(s, (k - 1) as nat) == release_shares(t, (k - 2) as nat));
        assert(release_shares(s, k) == release_shares(t, (k - 1) as nat));
    } else {
        assert(release_shares(t, 0) == t);
        assert(release_shares(s, 1) == t);
    }
}

/// A host polled while `k` shares remain stores its waker `w`; once every
/// share is then given up, the last release wakes exactly `w` and the next
/// poll is ready.
pub proof fn lemma_pending_then_all_released(s: State, w: u64, k: nat)
    requires
        s.wf(),
        s.roles.hosts == 1,
        s.roles.mut_shares == 0,
        s.roles.shares == k,
        k >= 1,
    ensures
        release_shares(s.polled_pending(w), (k - 1) as nat).release_outcome() == Released::Woke(w),
        release_shares(s.polled_pending(w), k).count == 1,
        release_shares(s.polled_pending(w), k).roles.hosts == 1,
{
    lemma_all_shares_released(s.polled_pending(w), k);
}

/// The stored waker is changed only by sharing (the no-op waker), by
/// polling the host (its own waker, dropped when it takes the block back)
/// and by freeing the block: cloning a share, giving up a handle that is
/// not the last, turning the host into its mutable kind and turning the
/// mutable share into a read-only one all keep it.
pub proof fn lemma_waker_kept_by_other_operations(s: State)
    ensures
        s.acquired().waker == s.waker,
        s.count >= 2 ==> s.release_share().waker == s.waker,
        s.count >= 2 ==> s.release_mut_share().waker == s.waker,
        s.count >= 2 ==> s.release_host().waker == s.waker,
        s.host_made_mut().waker == s.waker,
        s.mut_share_made_shared().waker == s.waker,
{
}

/// Turning the host into its mutable kind only takes away its right to
/// read and to hand out shares: the counter, the stored waker and the
/// number of handles of every kind stay as they were.
pub proof fn lemma_host_made_mut_keeps_block(s: State)
    ensures
        s.host_made_mut().count == s.count,
        s.host_made_mut().waker == s.waker,
        s.host_made_mut().roles.unique == s.roles.unique,
        s.host_made_mut().roles.hosts == s.roles.hosts,
        s.host_made_mut().roles.shares == s.roles.shares,
        s.host_made_mut().roles.mut_shares == s.roles.mut_shares,
        s.host_made_mut().roles.total() == s.roles.total(),
        !s.host_made_mut().roles.minting,
{
}

/// Turning the mutable share into a read-only share trades one kind of
/// share for the other: the counter, the stored waker, the host and the
/// number of handles stay as they were.
pub proof fn lemma_mut_share_made_shared_keeps_block(s: State)
    requires
        s.roles.mut_shares == 1,
    ensures
        s.mut_share_made_shared().count == s.count,
        s.mut_share_made_shared().waker == s.waker,
        s.mut_share_made_shared().roles.unique == s.roles.unique,
        s.mut_share_made_shared().roles.hosts == s.roles.hosts,
        s.mut_share_made_shared().roles.minting == s.roles.minting,
        s.mut_share_made_shared().roles.shares == s.roles.shares + 1,
        s.mut_share_made_shared().roles.mut_shares == 0,
        s.mut_share_made_shared().roles.total() == s.roles.total(),
{
}

/// A host polled with waker `w` and then turned into its mutable kind is
/// still woken with `w` when its last share is given up, and is then alone,
/// so that its next poll is ready.
pub proof fn lemma_host_made_mut_still_woken(s: State, w: u64)
    requires
        s.wf(),
        s.roles.hosts == 1,
        s.roles.shares == 1,
        s.roles.mut_shares == 0,
    ensures
        s.polled_pending(w).host_made_mut().release_outcome() == Released::Woke(w),
        s.polled_pending(w).host_made_mut().release_share().count == 1,
        s.polled_pending(w).host_made_mut().release_share().roles.hosts == 1,
        s.polled_pending(w).host_made_mut().release_share().waker == Some(w),
{
}

/// A host polled with waker `w` whose mutable share is then turned into a
/// read-only share is still woken with `w` when that share is given up,
/// and is then alone, so that its next poll is ready.
pub proof fn lemma_mut_share_made_shared_still_wakes(s: State, w: u64)
    requires
        s.wf(),
        s.roles.hosts == 1,
        s.roles.mut_shares == 1,
    ensures
        s.polled_pending(w).mut_share_made_shared().release_outcome() == Released::Woke(w),
        s.polled_pending(w).mut_share_made_shared().release_share().count == 1,
        s.polled_pending(w).mut_share_made_shared().release_share().roles.hosts == 1,
        s.polled_pending(w).mut_share_made_shared().release_share().waker == Some(w),
{
}

/// Sharing a block owned by a `Unique` leaves exactly a host and one share
/// (a mutable one when `mutable`), counted as two handles, with the no-op
/// waker stored; the host is not ready until the share is given up, and
/// that release wakes the no-op waker.
pub proof fn lemma_shared_is_host_and_one_share(s: State, mutable: bool)
    requires
        s.wf(),
        s.roles.unique,
    ensures
        s.shared(mutable).wf(),
        s.shared(mutable).count == 2,
        s.shared(mutable).waker == Some(NOOP_WAKER),
        !s.shared(mutable).roles.unique,
        s.shared(mutable).roles.hosts == 1,
        s.shared(mutable).roles.minting == !mutable,
        s.shared(mutable).roles.shares + s.shared(mutable).roles.mut_shares == 1,
        s.shared(mutable).roles.mut_shares == (if mutable { 1nat } else { 0nat }),
        s.shared(mutable).release_outcome() == Released::Woke(NOOP_WAKER),
{
}

} // verus!
