//! The handles to a shared value.
//!
//! A [`Unique`] owns its value and the control block around it. Sharing it
//! splits it into a host ([`Host`] or [`HostMut`]) and a share ([`Share`]
//! or [`ShareMut`]); the control block then stands apart, and every
//! operation of a host or a share takes it as an argument. The handles made
//! by one sharing carry the identity that the block had then, and every
//! operation requires a block with its handle's identity. Identities are
//! not known to differ from block to block: a caller learns one only from
//! the operation that made the handle and the block together, so a proof
//! can use a handle only with the block it was made with. Polling the host
//! gives back a [`Unique`] once every share has been given up.
//!
//! A host that has taken the block back is terminated: it no longer points
//! at any block. The `_checked` operations report that with `None`; the
//! others require a host that is not terminated.

use vstd::prelude::*;
use crate::inner::{Inner, Role};
use crate::state::{Released, State};

verus! {

/// The sole owner of a value and of its control block.
pub struct Unique<T> {
    inner: Inner<T>,
}

/// A read-only share of a value. Shares can be cloned.
pub struct Share {
    id: Ghost<int>,
}

/// The mutable share of a value. It is the only share while it lives.
pub struct ShareMut {
    id: Ghost<int>,
}

/// The host of a shared value: it can read the value, hand out more
/// shares, and take the value back once every share is gone.
pub struct Host {
    active: bool,
    id: Ghost<int>,
}

/// The host of a value with a mutable share: it can only take the value
/// back once the share is gone.
pub struct HostMut {
    active: bool,
    id: Ghost<int>,
}

/// A [`Host`] for a value that is handed back pinned; its operations on
/// the control block are those of a [`Host`].
pub struct HostPinned {
    active: bool,
    id: Ghost<int>,
}

/// A [`HostMut`] for a value that is handed back pinned; its operations on
/// the control block are those of a [`HostMut`].
pub struct HostPinnedMut {
    active: bool,
    id: Ghost<int>,
}

/// The outcome of polling a host.
pub enum Polled<T> {
    /// Every share was gone: the host took the value back.
    Ready(Unique<T>),
    /// Shares remain: the control block is handed back, with the host's
    /// waker stored in it.
    Pending(Inner<T>),
}

// The operations common to the four kinds of host. `active` is whether the
// host still points at a block.

fn host_count_checked<T>(active: bool, inner: &Inner<T>) -> (r: Option<usize>)
    ensures
        r is Some == active,
        r matches Some(c) ==> c == inner@.count,
{
    if active {
        Some(inner.count())
    } else {
        None
    }
}

fn host_get_checked<'a, T>(active: bool, inner: &'a Inner<T>) -> (r: Option<&'a T>)
    requires
        active ==> inner.wf() && inner@.roles.minting,
    ensures
        r is Some == active,
        r matches Some(v) ==> *v == inner.value().unwrap(),
{
    if active {
        Some(inner.value_ref())
    } else {
        None
    }
}

fn host_share_checked<T>(active: bool, inner: &mut Inner<T>) -> (r: Option<Share>)
    requires
        active ==> old(inner).wf() && old(inner)@.roles.minting && old(inner)@.count < usize::MAX,
    ensures
        r is Some == active,
        r matches Some(s) ==> s.id() == old(inner).id(),
        active ==> final(inner)@ == old(inner)@.acquired(),
        !active ==> final(inner)@ == old(inner)@,
        final(inner).value() == old(inner).value(),
        final(inner).id() == old(inner).id(),
        active ==> final(inner).wf(),
{
    if active {
        let id = Ghost(inner.id());
        inner.acquire();
        Some(Share { id })
    } else {
        None
    }
}

fn host_poll<T>(active: &mut bool, inner: Inner<T>, waker: u64) -> (r: Polled<T>)
    requires
        *old(active),
        inner.wf(),
        inner@.roles.hosts == 1,
    ensures
        r is Ready == (inner@.count == 1),
        *final(active) == !(r is Ready),
        r matches Polled::Ready(u) ==> u.wf() && u.block()@ == inner@.polled_ready()
            && u.value() == inner.value().unwrap() && u.block().id() == inner.id(),
        r matches Polled::Pending(i) ==> i.wf() && i@ == inner@.polled_pending(waker)
            && i.value() == inner.value() && i.id() == inner.id(),
{
    let mut inner = inner;
    if inner.poll(waker) {
        *active = false;
        Polled::Ready(Unique { inner })
    } else {
        Polled::Pending(inner)
    }
}

fn host_release<T>(active: bool, inner: &mut Inner<T>) -> (r: Released)
    requires
        active ==> old(inner).wf() && old(inner)@.roles.hosts == 1,
    ensures
        !active ==> r is Detached && final(inner)@ == old(inner)@ && final(inner).value() == old(inner).value(),
        active ==> r == old(inner)@.release_outcome() && final(inner)@ == old(inner)@.release_host()
            && final(inner).wf(),
        active && r is Freed ==> final(inner).value() is None,
        active && !(r is Freed) ==> final(inner).value() == old(inner).value(),
        final(inner).id() == old(inner).id(),
{
    if active {
        inner.release(Role::Host)
    } else {
        Released::Detached
    }
}

impl<T> Unique<T> {
    /// The control block that this `Unique` owns.
    pub closed spec fn block(&self) -> Inner<T> {
        self.inner
    }

    /// The value.
    pub open spec fn value(&self) -> T {
        self.block().value().unwrap()
    }

    /// The block is well formed and owned by this `Unique` alone.
    pub open spec fn wf(&self) -> bool {
        &&& self.block().wf()
        &&& self.block()@.roles.unique
    }

    /// Takes ownership of `t` in a new control block.
    pub fn new(t: T) -> (r: Unique<T>)
        ensures
            r.wf(),
            r.value() == t,
            r.block()@ == State::fresh(),
    {
        Unique { inner: Inner::new(t) }
    }

    /// Gives back the value, freeing the block.
    pub fn into_inner(self) -> (r: T)
        requires
            self.wf(),
        ensures
            r == self.value(),
    {
        self.inner.into_value()
    }

    /// A shared borrow of the value.
    pub fn get(&self) -> (r: &T)
        requires
            self.wf(),
        ensures
            *r == self.value(),
    {
        self.inner.value_ref()
    }

    /// A mutable borrow of the value.
    pub fn get_mut(&mut self) -> (r: &mut T)
        requires
            old(self).wf(),
        ensures
            *r == old(self).value(),
            final(self).wf(),
            final(self).value() == *final(r),
            final(self).block()@ == old(self).block()@,
            final(self).block().id() == old(self).block().id(),
    {
        self.inner.value_mut()
    }

    /// Splits into a host and a read-only share; the block, returned third,
    /// counts two handles and stores the no-op waker.
    pub fn share(self) -> (r: (Host, Share, Inner<T>))
        requires
            self.wf(),
        ensures
            r.0.active(),
            r.0.id() == r.2.id(),
            r.1.id() == r.2.id(),
            r.2.id() == self.block().id(),
            r.2.wf(),
            r.2@ == State::fresh().shared(false),
            r.2.value() == Some(self.value()),
    {
        let mut inner = self.inner;
        let id = Ghost(inner.id());
        inner.share(false);
        (Host { active: true, id }, Share { id }, inner)
    }

    /// Splits into a host and the mutable share; the block, returned third,
    /// counts two handles and stores the no-op waker.
    pub fn share_mut(self) -> (r: (HostMut, ShareMut, Inner<T>))
        requires
            self.wf(),
        ensures
            r.0.active(),
            r.0.id() == r.2.id(),
            r.1.id() == r.2.id(),
            r.2.id() == self.block().id(),
            r.2.wf(),
            r.2@ == State::fresh().shared(true),
            r.2.value() == Some(self.value()),
    {
        let mut inner = self.inner;
        let id = Ghost(inner.id());
        inner.share(true);
        (HostMut { active: true, id }, ShareMut { id }, inner)
    }

    /// Splits a pinned `Unique` into a host and a read-only share, as
    /// [`Unique::share`].
    pub fn share_pinned(self) -> (r: (Host, Share, Inner<T>))
        requires
            self.wf(),
        ensures
            r.0.active(),
            r.0.id() == r.2.id(),
            r.1.id() == r.2.id(),
            r.2.id() == self.block().id(),
            r.2.wf(),
            r.2@ == State::fresh().shared(false),
            r.2.value() == Some(self.value()),
    {
        self.share()
    }

    /// Splits a pinned `Unique` into a host and the mutable share, as
    /// [`Unique::share_mut`].
    pub fn share_pinned_mut(self) -> (r: (HostMut, ShareMut, Inner<T>))
        requires
            self.wf(),
        ensures
            r.0.active(),
            r.0.id() == r.2.id(),
            r.1.id() == r.2.id(),
            r.2.id() == self.block().id(),
            r.2.wf(),
            r.2@ == State::fresh().shared(true),
            r.2.value() == Some(self.value()),
    {
        self.share_mut()
    }
}

impl Share {
    /// The identity of the block this share points at.
    pub closed spec fn id(&self) -> int {
        self.id@
    }

    /// Another read-only share of the same value: the counter goes up by
    /// one.
    pub fn clone_share<T>(&self, inner: &mut Inner<T>) -> (r: Share)
        requires
            self.id() == old(inner).id(),
            old(inner).wf(),
            old(inner)@.roles.shares >= 1,
            old(inner)@.count < usize::MAX,
        ensures
            r.id() == self.id(),
            final(inner)@ == old(inner)@.acquired(),
            final(inner).value() == old(inner).value(),
            final(inner).id() == old(inner).id(),
            final(inner).wf(),
    {
        inner.acquire();
        Share { id: self.id }
    }

    /// A shared borrow of the value.
    pub fn get<'a, T>(&self, inner: &'a Inner<T>) -> (r: &'a T)
        requires
            self.id() == inner.id(),
            inner.wf(),
            inner@.roles.shares >= 1,
        ensures
            *r == inner.value().unwrap(),
    {
        inner.value_ref()
    }

    /// Gives up this share (what dropping it does): the counter goes down
    /// by one; the stored waker is woken when one handle remains, and the
    /// value is dropped when none remains.
    pub fn release<T>(self, inner: &mut Inner<T>) -> (r: Released)
        requires
            self.id() == old(inner).id(),
            old(inner).wf(),
            old(inner)@.roles.shares >= 1,
        ensures
            r == old(inner)@.release_outcome(),
            final(inner)@ == old(inner)@.release_share(),
            final(inner).id() == old(inner).id(),
            final(inner).wf(),
            r is Freed ==> final(inner).value() is None,
            !(r is Freed) ==> final(inner).value() == old(inner).value(),
    {
        inner.release(Role::Share)
    }
}

impl ShareMut {
    /// The identity of the block this share points at.
    pub closed spec fn id(&self) -> int {
        self.id@
    }

    /// Turns the mutable share into a read-only share, which can be cloned.
    pub fn into_share<T>(self, inner: &mut Inner<T>) -> (r: Share)
        requires
            self.id() == old(inner).id(),
            old(inner).wf(),
            old(inner)@.roles.mut_shares == 1,
        ensures
            r.id() == self.id(),
            final(inner)@ == old(inner)@.mut_share_made_shared(),
            final(inner)@.waker == old(inner)@.waker,
            final(inner)@.count == old(inner)@.count,
            final(inner).value() == old(inner).value(),
            final(inner).id() == old(inner).id(),
            final(inner).wf(),
    {
        inner.mut_share_to_shared();
        Share { id: self.id }
    }

    /// A shared borrow of the value.
    pub fn get<'a, T>(&self, inner: &'a Inner<T>) -> (r: &'a T)
        requires
            self.id() == inner.id(),
            inner.wf(),
            inner@.roles.mut_shares == 1,
        ensures
            *r == inner.value().unwrap(),
    {
        inner.value_ref()
    }

    /// A mutable borrow of the value; the block is otherwise unchanged.
    pub fn get_mut<'a, T>(&mut self, inner: &'a mut Inner<T>) -> (r: &'a mut T)
        requires
            self.id() == old(inner).id(),
            old(inner).wf(),
            old(inner)@.roles.mut_shares == 1,
        ensures
            *r == old(inner).value().unwrap(),
            final(inner).value() == Some(*final(r)),
            final(inner)@ == old(inner)@,
            final(inner).id() == old(inner).id(),
            final(self).id() == old(self).id(),
    {
        inner.value_mut()
    }

    /// Gives up the mutable share (what dropping it does), as
    /// [`Share::release`].
    pub fn release<T>(self, inner: &mut Inner<T>) -> (r: Released)
        requires
            self.id() == old(inner).id(),
            old(inner).wf(),
            old(inner)@.roles.mut_shares == 1,
        ensures
            r == old(inner)@.release_outcome(),
            final(inner)@ == old(inner)@.release_mut_share(),
            final(inner).id() == old(inner).id(),
            final(inner).wf(),
            r is Freed ==> final(inner).value() is None,
            !(r is Freed) ==> final(inner).value() == old(inner).value(),
    {
        inner.release(Role::MutShare)
    }
}

impl Host {
    /// The host still points at a block: it has not taken the value back.
    pub closed spec fn active(&self) -> bool {
        self.active
    }

    /// The identity of the block this host points at, or pointed at.
    pub closed spec fn id(&self) -> int {
        self.id@
    }

    /// Whether the host has taken the value back.
    pub fn is_terminated(&self) -> (r: bool)
        ensures
            r == !self.active(),
    {
        !self.active
    }

    /// The counter of the block, or `None` once the host has taken the
    /// value back.
    pub fn count_checked<T>(&self, inner: &Inner<T>) -> (r: Option<usize>)
        requires
            self.active() ==> self.id() == inner.id(),
        ensures
            r is Some == self.active(),
            r matches Some(c) ==> c == inner@.count,
    {
        host_count_checked(self.active, inner)
    }

    /// The counter of the block.
    pub fn count<T>(&self, inner: &Inner<T>) -> (r: usize)
        requires
            self.active(),
            self.id() == inner.id(),
        ensures
            r == inner@.count,
    {
        self.count_checked(inner).unwrap()
    }

    /// Polls the host with its waker `waker` (what awaiting it does). With
    /// every share gone the host takes the value back and is terminated;
    /// otherwise `waker` is stored and the block is handed back unchanged
    /// apart from that.
    pub fn poll<T>(&mut self, inner: Inner<T>, waker: u64) -> (r: Polled<T>)
        requires
            old(self).active(),
            old(self).id() == inner.id(),
            inner.wf(),
            inner@.roles.hosts == 1,
        ensures
            r is Ready == (inner@.count == 1),
            final(self).active() == !(r is Ready),
            final(self).id() == old(self).id(),
            r matches Polled::Ready(u) ==> u.wf() && u.block()@ == inner@.polled_ready()
                && u.value() == inner.value().unwrap() && u.block().id() == inner.id(),
            r matches Polled::Pending(i) ==> i.wf() && i@ == inner@.polled_pending(waker)
                && i.value() == inner.value() && i.id() == inner.id(),
    {
        host_poll(&mut self.active, inner, waker)
    }

    /// Gives up the host (what dropping it does). A terminated host does
    /// nothing; otherwise the counter goes down by one, the stored waker is
    /// woken when one handle remains, and the value is dropped when none
    /// remains.
    pub fn release<T>(self, inner: &mut Inner<T>) -> (r: Released)
        requires
            self.active() ==> self.id() == old(inner).id() && old(inner).wf() && old(inner)@.roles.hosts == 1,
        ensures
            !self.active() ==> r is Detached && final(inner)@ == old(inner)@
                && final(inner).value() == old(inner).value(),
            self.active() ==> r == old(inner)@.release_outcome()
                && final(inner)@ == old(inner)@.release_host() && final(inner).wf(),
            self.active() && r is Freed ==> final(inner).value() is None,
            self.active() && !(r is Freed) ==> final(inner).value() == old(inner).value(),
            final(inner).id() == old(inner).id(),
    {
        host_release(self.active, inner)
    }

    /// A shared borrow of the value, or `None` once the host has taken the
    /// value back.
    pub fn get_checked<'a, T>(&self, inner: &'a Inner<T>) -> (r: Option<&'a T>)
        requires
            self.active() ==> self.id() == inner.id() && inner.wf() && inner@.roles.minting,
        ensures
            r is Some == self.active(),
            r matches Some(v) ==> *v == inner.value().unwrap(),
    {
        host_get_checked(self.active, inner)
    }

    /// A shared borrow of the value.
    pub fn get<'a, T>(&self, inner: &'a Inner<T>) -> (r: &'a T)
        requires
            self.active(),
            self.id() == inner.id(),
            inner.wf(),
            inner@.roles.minting,
        ensures
            *r == inner.value().unwrap(),
    {
        self.get_checked(inner).unwrap()
    }

    /// A new read-only share, or `None` once the host has taken the value
    /// back: the counter goes up by one.
    pub fn share_checked<T>(&self, inner: &mut Inner<T>) -> (r: Option<Share>)
        requires
            self.active() ==> self.id() == old(inner).id() && old(inner).wf() && old(inner)@.roles.minting
                && old(inner)@.count < usize::MAX,
        ensures
            r is Some == self.active(),
            r matches Some(s) ==> s.id() == self.id(),
            self.active() ==> final(inner)@ == old(inner)@.acquired() && final(inner).wf(),
            !self.active() ==> final(inner)@ == old(inner)@,
            final(inner).value() == old(inner).value(),
            final(inner).id() == old(inner).id(),
    {
        host_share_checked(self.active, inner)
    }

    /// A new read-only share: the counter goes up by one.
    pub fn share<T>(&self, inner: &mut Inner<T>) -> (r: Share)
        requires
            self.active(),
            self.id() == old(inner).id(),
            old(inner).wf(),
            old(inner)@.roles.minting,
            old(inner)@.count < usize::MAX,
        ensures
            r.id() == self.id(),
            final(inner)@ == old(inner)@.acquired(),
            final(inner).wf(),
            final(inner).value() == old(inner).value(),
            final(inner).id() == old(inner).id(),
    {
        self.share_checked(inner).unwrap()
    }

    /// Gives up the right to read and to hand out shares.
    pub fn into_host_mut<T>(self, inner: &mut Inner<T>) -> (r: HostMut)
        requires
            self.active() ==> self.id() == old(inner).id() && old(inner).wf() && old(inner)@.roles.hosts == 1,
        ensures
            r.active() == self.active(),
            r.id() == self.id(),
            self.active() ==> final(inner)@ == old(inner)@.host_made_mut() && final(inner).wf(),
            !self.active() ==> final(inner)@ == old(inner)@,
            final(inner)@.waker == old(inner)@.waker,
            final(inner)@.count == old(inner)@.count,
            final(inner).value() == old(inner).value(),
            final(inner).id() == old(inner).id(),
    {
        if self.active {
            inner.host_to_mut();
        }
        HostMut { active: self.active, id: self.id }
    }
}

impl HostMut {
    /// The host still points at a block: it has not taken the value back.
    pub closed spec fn active(&self) -> bool {
        self.active
    }

    /// The identity of the block this host points at, or pointed at.
    pub closed spec fn id(&self) -> int {
        self.id@
    }

    /// Whether the host has taken the value back.
    pub fn is_terminated(&self) -> (r: bool)
        ensures
            r == !self.active(),
    {
        !self.active
    }

    /// The counter of the block, or `None` once the host has taken the
    /// value back.
    pub fn count_checked<T>(&self, inner: &Inner<T>) -> (r: Option<usize>)
        requires
            self.active() ==> self.id() == inner.id(),
        ensures
            r is Some == self.active(),
            r matches Some(c) ==> c == inner@.count,
    {
        host_count_checked(self.active, inner)
    }

    /// The counter of the block.
    pub fn count<T>(&self, inner: &Inner<T>) -> (r: usize)
        requires
            self.active(),
            self.id() == inner.id(),
        ensures
            r == inner@.count,
    {
        self.count_checked(inner).unwrap()
    }

    /// Polls the host with its waker `waker` (what awaiting it does). With
    /// every share gone the host takes the value back and is terminated;
    /// otherwise `waker` is stored and the block is handed back unchanged
    /// apart from that.
    pub fn poll<T>(&mut self, inner: Inner<T>, waker: u64) -> (r: Polled<T>)
        requires
            old(self).active(),
            old(self).id() == inner.id(),
            inner.wf(),
            inner@.roles.hosts == 1,
        ensures
            r is Ready == (inner@.count == 1),
            final(self).active() == !(r is Ready),
            final(self).id() == old(self).id(),
            r matches Polled::Ready(u) ==> u.wf() && u.block()@ == inner@.polled_ready()
                && u.value() == inner.value().unwrap() && u.block().id() == inner.id(),
            r matches Polled::Pending(i) ==> i.wf() && i@ == inner@.polled_pending(waker)
                && i.value() == inner.value() && i.id() == inner.id(),
    {
        host_poll(&mut self.active, inner, waker)
    }

    /// Gives up the host (what dropping it does). A terminated host does
    /// nothing; otherwise the counter goes down by one, the stored waker is
    /// woken when one handle remains, and the value is dropped when none
    /// remains.
    pub fn release<T>(self, inner: &mut Inner<T>) -> (r: Released)
        requires
            self.active() ==> self.id() == old(inner).id() && old(inner).wf() && old(inner)@.roles.hosts == 1,
        ensures
            !self.active() ==> r is Detached && final(inner)@ == old(inner)@
                && final(inner).value() == old(inner).value(),
            self.active() ==> r == old(inner)@.release_outcome()
                && final(inner)@ == old(inner)@.release_host() && final(inner).wf(),
            self.active() && r is Freed ==> final(inner).value() is None,
            self.active() && !(r is Freed) ==> final(inner).value() == old(inner).value(),
            final(inner).id() == old(inner).id(),
    {
        host_release(self.active, inner)
    }
}

impl HostPinned {
    /// The host still points at a block: it has not taken the value back.
    pub closed spec fn active(&self) -> bool {
        self.active
    }

    /// The identity of the block this host points at, or pointed at.
    pub closed spec fn id(&self) -> int {
        self.id@
    }

    /// Whether the host has taken the value back.
    pub fn is_terminated(&self) -> (r: bool)
        ensures
            r == !self.active(),
    {
        !self.active
    }

    /// The counter of the block, or `None` once the host has taken the
    /// value back.
    pub fn count_checked<T>(&self, inner: &Inner<T>) -> (r: Option<usize>)
        requires
            self.active() ==> self.id() == inner.id(),
        ensures
            r is Some == self.active(),
            r matches Some(c) ==> c == inner@.count,
    {
        host_count_checked(self.active, inner)
    }

    /// The counter of the block.
    pub fn count<T>(&self, inner: &Inner<T>) -> (r: usize)
        requires
            self.active(),
            self.id() == inner.id(),
        ensures
            r == inner@.count,
    {
        self.count_checked(inner).unwrap()
    }

    /// Polls the host with its waker `waker` (what awaiting it does). With
    /// every share gone the host takes the value back and is terminated;
    /// otherwise `waker` is stored and the block is handed back unchanged
    /// apart from that.
    pub fn poll<T>(&mut self, inner: Inner<T>, waker: u64) -> (r: Polled<T>)
        requires
            old(self).active(),
            old(self).id() == inner.id(),
            inner.wf(),
            inner@.roles.hosts == 1,
        ensures
            r is Ready == (inner@.count == 1),
            final(self).active() == !(r is Ready),
            final(self).id() == old(self).id(),
            r matches Polled::Ready(u) ==> u.wf() && u.block()@ == inner@.polled_ready()
                && u.value() == inner.value().unwrap() && u.block().id() == inner.id(),
            r matches Polled::Pending(i) ==> i.wf() && i@ == inner@.polled_pending(waker)
                && i.value() == inner.value() && i.id() == inner.id(),
    {
        host_poll(&mut self.active, inner, waker)
    }

    /// Gives up the host (what dropping it does). A terminated host does
    /// nothing; otherwise the counter goes down by one, the stored waker is
    /// woken when one handle remains, and the value is dropped when none
    /// remains.
    pub fn release<T>(self, inner: &mut Inner<T>) -> (r: Released)
        requires
            self.active() ==> self.id() == old(inner).id() && old(inner).wf() && old(inner)@.roles.hosts == 1,
        ensures
            !self.active() ==> r is Detached && final(inner)@ == old(inner)@
                && final(inner).value() == old(inner).value(),
            self.active() ==> r == old(inner)@.release_outcome()
                && final(inner)@ == old(inner)@.release_host() && final(inner).wf(),
            self.active() && r is Freed ==> final(inner).value() is None,
            self.active() && !(r is Freed) ==> final(inner).value() == old(inner).value(),
            final(inner).id() == old(inner).id(),
    {
        host_release(self.active, inner)
    }

    /// The same host, whose value comes back pinned.
    pub fn from_unpinned(host: Host) -> (r: HostPinned)
        ensures
            r.active() == host.active(),
            r.id() == host.id(),
    {
        HostPinned { active: host.active, id: host.id }
    }

    /// A shared borrow of the value, or `None` once the host has taken the
    /// value back.
    pub fn get_checked<'a, T>(&self, inner: &'a Inner<T>) -> (r: Option<&'a T>)
        requires
            self.active() ==> self.id() == inner.id() && inner.wf() && inner@.roles.minting,
        ensures
            r is Some == self.active(),
            r matches Some(v) ==> *v == inner.value().unwrap(),
    {
        host_get_checked(self.active, inner)
    }

    /// A shared borrow of the value.
    pub fn get<'a, T>(&self, inner: &'a Inner<T>) -> (r: &'a T)
        requires
            self.active(),
            self.id() == inner.id(),
            inner.wf(),
            inner@.roles.minting,
        ensures
            *r == inner.value().unwrap(),
    {
        self.get_checked(inner).unwrap()
    }

    /// A new read-only share, or `None` once the host has taken the value
    /// back: the counter goes up by one.
    pub fn share_checked<T>(&self, inner: &mut Inner<T>) -> (r: Option<Share>)
        requires
            self.active() ==> self.id() == old(inner).id() && old(inner).wf() && old(inner)@.roles.minting
                && old(inner)@.count < usize::MAX,
        ensures
            r is Some == self.active(),
            r matches Some(s) ==> s.id() == self.id(),
            self.active() ==> final(inner)@ == old(inner)@.acquired() && final(inner).wf(),
            !self.active() ==> final(inner)@ == old(inner)@,
            final(inner).value() == old(inner).value(),
            final(inner).id() == old(inner).id(),
    {
        host_share_checked(self.active, inner)
    }

    /// A new read-only share: the counter goes up by one.
    pub fn share<T>(&self, inner: &mut Inner<T>) -> (r: Share)
        requires
            self.active(),
            self.id() == old(inner).id(),
            old(inner).wf(),
            old(inner)@.roles.minting,
            old(inner)@.count < usize::MAX,
        ensures
            r.id() == self.id(),
            final(inner)@ == old(inner)@.acquired(),
            final(inner).wf(),
            final(inner).value() == old(inner).value(),
            final(inner).id() == old(inner).id(),
    {
        self.share_checked(inner).unwrap()
    }

    /// Gives up the right to read and to hand out shares.
    pub fn into_host_mut<T>(self, inner: &mut Inner<T>) -> (r: HostPinnedMut)
        requires
            self.active() ==> self.id() == old(inner).id() && old(inner).wf() && old(inner)@.roles.hosts == 1,
        ensures
            r.active() == self.active(),
            r.id() == self.id(),
            self.active() ==> final(inner)@ == old(inner)@.host_made_mut() && final(inner).wf(),
            !self.active() ==> final(inner)@ == old(inner)@,
            final(inner)@.waker == old(inner)@.waker,
            final(inner)@.count == old(inner)@.count,
            final(inner).value() == old(inner).value(),
            final(inner).id() == old(inner).id(),
    {
        if self.active {
            inner.host_to_mut();
        }
        HostPinnedMut { active: self.active, id: self.id }
    }
}

impl HostPinnedMut {
    /// The host still points at a block: it has not taken the value back.
    pub closed spec fn active(&self) -> bool {
        self.active
    }

    /// The identity of the block this host points at, or pointed at.
    pub closed spec fn id(&self) -> int {
        self.id@
    }

    /// Whether the host has taken the value back.
    pub fn is_terminated(&self) -> (r: bool)
        ensures
            r == !self.active(),
    {
        !self.active
    }

    /// The counter of the block, or `None` once the host has taken the
    /// value back.
    pub fn count_checked<T>(&self, inner: &Inner<T>) -> (r: Option<usize>)
        requires
            self.active() ==> self.id() == inner.id(),
        ensures
            r is Some == self.active(),
            r matches Some(c) ==> c == inner@.count,
    {
        host_count_checked(self.active, inner)
    }

    /// The counter of the block.
    pub fn count<T>(&self, inner: &Inner<T>) -> (r: usize)
        requires
            self.active(),
            self.id() == inner.id(),
        ensures
            r == inner@.count,
    {
        self.count_checked(inner).unwrap()
    }

    /// Polls the host with its waker `waker` (what awaiting it does). With
    /// every share gone the host takes the value back and is terminated;
    /// otherwise `waker` is stored and the block is handed back unchanged
    /// apart from that.
    pub fn poll<T>(&mut self, inner: Inner<T>, waker: u64) -> (r: Polled<T>)
        requires
            old(self).active(),
            old(self).id() == inner.id(),
            inner.wf(),
            inner@.roles.hosts == 1,
        ensures
            r is Ready == (inner@.count == 1),
            final(self).active() == !(r is Ready),
            final(self).id() == old(self).id(),
            r matches Polled::Ready(u) ==> u.wf() && u.block()@ == inner@.polled_ready()
                && u.value() == inner.value().unwrap() && u.block().id() == inner.id(),
            r matches Polled::Pending(i) ==> i.wf() && i@ == inner@.polled_pending(waker)
                && i.value() == inner.value() && i.id() == inner.id(),
    {
        host_poll(&mut self.active, inner, waker)
    }

    /// Gives up the host (what dropping it does). A terminated host does
    /// nothing; otherwise the counter goes down by one, the stored waker is
    /// woken when one handle remains, and the value is dropped when none
    /// remains.
    pub fn release<T>(self, inner: &mut Inner<T>) -> (r: Released)
        requires
            self.active() ==> self.id() == old(inner).id() && old(inner).wf() && old(inner)@.roles.hosts == 1,
        ensures
            !self.active() ==> r is Detached && final(inner)@ == old(inner)@
                && final(inner).value() == old(inner).value(),
            self.active() ==> r == old(inner)@.release_outcome()
                && final(inner)@ == old(inner)@.release_host() && final(inner).wf(),
            self.active() && r is Freed ==> final(inner).value() is None,
            self.active() && !(r is Freed) ==> final(inner).value() == old(inner).value(),
            final(inner).id() == old(inner).id(),
    {
        host_release(self.active, inner)
    }

    /// The same host, whose value comes back pinned.
    pub fn from_unpinned(host: HostMut) -> (r: HostPinnedMut)
        ensures
            r.active() == host.active(),
            r.id() == host.id(),
    {
        HostPinnedMut { active: host.active, id: host.id }
    }
}

} // verus!
