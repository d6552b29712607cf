//! The control block that the handles of one shared value point at.

use vstd::prelude::*;
use crate::protocol::{acquire_step, poll_step, release_mut_step, release_step, Acquire, PollStep, Release, ALONE, LOCKED, PAIR};
use crate::state::{Released, Roles, State, NOOP_WAKER};

verus! {

/// The kind of handle that is given up.
#[derive(Clone, Copy, Debug, PartialEq, Eq, Structural)]
pub enum Role {
    /// The host, before it took the block back.
    Host,
    /// A shared share.
    Share,
    /// The mutable share.
    MutShare,
}

/// A control block: the counter word, the waker stored for the host, and
/// the shared value, which is dropped when the last handle is given up.
pub struct Inner<T> {
    count: usize,
    waker: Option<u64>,
    data: Option<T>,
    roles: Ghost<Roles>,
    id: Ghost<int>,
}

impl<T> View for Inner<T> {
    type V = State;

    closed spec fn view(&self) -> State {
        State { count: self.count as nat, waker: self.waker, roles: self.roles@ }
    }
}

impl Role {
    /// The state after a handle of this kind is given up.
    pub open spec fn after(self, s: State) -> State {
        match self {
            Role::Host => s.release_host(),
            Role::Share => s.release_share(),
            Role::MutShare => s.release_mut_share(),
        }
    }

    /// A handle of this kind points at a block in state `s`.
    pub open spec fn present(self, s: State) -> bool {
        match self {
            Role::Host => s.roles.hosts == 1,
            Role::Share => s.roles.shares >= 1,
            Role::MutShare => s.roles.mut_shares == 1,
        }
    }
}

impl<T> Inner<T> {
    /// The shared value; `None` once the block was freed or handed out.
    pub closed spec fn value(&self) -> Option<T> {
        self.data
    }

    /// The identity of the block: the handles made when it is shared carry
    /// the same one, and their operations require it. Nothing is known of
    /// it beyond what those operations state.
    pub closed spec fn id(&self) -> int {
        self.id@
    }

    /// The abstract state is well formed, and the block holds its value
    /// exactly while some handle points at it.
    pub open spec fn wf(&self) -> bool {
        &&& self@.wf()
        &&& (self.value() is Some <==> self@.count > 0)
    }

    /// A block for `value`, owned by a `Unique`.
    pub(crate) fn new(value: T) -> (r: Inner<T>)
        ensures
            r@ == State::fresh(),
            r.value() == Some(value),
            r.wf(),
    {
        Inner {
            count: ALONE,
            waker: None,
            data: Some(value),
            roles: Ghost(State::fresh().roles),
            id: Ghost(arbitrary()),
        }
    }

    /// Takes the value out of the block.
    pub(crate) fn into_value(self) -> (r: T)
        requires
            self.value() is Some,
        ensures
            r == self.value().unwrap(),
    {
        self.data.unwrap()
    }
    /// The counter word.
    pub(crate) fn count(&self) -> (r: usize)
        ensures
            r == self@.count,
    {
        self.count
    }

    /// A shared borrow of the value.
    pub(crate) fn value_ref(&self) -> (r: &T)
        requires
            self.value() is Some,
        ensures
            *r == self.value().unwrap(),
    {
        self.data.as_ref().unwrap()
    }

    /// A mutable borrow of the value; the block is otherwise unchanged.
    pub(crate) fn value_mut(&mut self) -> (r: &mut T)
        requires
            old(self).value() is Some,
        ensures
            *r == old(self).value().unwrap(),
            final(self).value() == Some(*final(r)),
            final(self)@ == old(self)@,
            final(self).id() == old(self).id(),
    {
        self.data.as_mut().unwrap()
    }

    /// The `Unique` that owns the block splits into a host and one share
    /// (a mutable one when `mutable`): the counter becomes `PAIR` and the
    /// no-op waker is stored.
    pub(crate) fn share(&mut self, mutable: bool)
        requires
            old(self).wf(),
            old(self)@.roles.unique,
        ensures
            final(self)@ == old(self)@.shared(mutable),
            final(self).value() == old(self).value(),
            final(self).wf(),
            final(self).id() == old(self).id(),
    {
        self.count = PAIR;
        self.waker = Some(NOOP_WAKER);
        self.roles = Ghost(State::fresh().shared(mutable).roles);
    }

    /// One more shared share: the counter goes up by one.
    pub(crate) fn acquire(&mut self)
        requires
            old(self).wf(),
            old(self)@.count >= 1,
            old(self)@.count < usize::MAX,
            !old(self)@.roles.unique,
            old(self)@.roles.mut_shares == 0,
        ensures
            final(self)@ == old(self)@.acquired(),
            final(self).value() == old(self).value(),
            final(self).wf(),
            final(self).id() == old(self).id(),
    {
        match acquire_step(self.count) {
            Acquire::Retry => {
                proof {
                    assert(false);
                }
            },
            Acquire::Exchange { current, new } => {
                if self.count == current {
                    self.count = new;
                }
            },
        }
        self.roles = Ghost(Roles { shares: self.roles@.shares + 1, ..self.roles@ });
    }

    /// A handle of kind `role` is given up: the counter goes down by one;
    /// when one handle remains the stored waker is woken, and when none
    /// remains the value is dropped.
    pub(crate) fn release(&mut self, role: Role) -> (r: Released)
        requires
            old(self).wf(),
            role.present(old(self)@),
        ensures
            final(self)@ == role.after(old(self)@),
            r == old(self)@.release_outcome(),
            r is Freed ==> final(self).value() is None,
            !(r is Freed) ==> final(self).value() == old(self).value(),
            final(self).wf(),
            final(self).id() == old(self).id(),
    {
        let ghost remaining = role.after(self@).roles;
        let step = match role {
            Role::MutShare => release_mut_step(self.count),
            _ => release_step(self.count),
        };
        let r = match step {
            Release::Retry => {
                proof {
                    assert(false);
                }
                Released::Left
            },
            Release::Free => {
                self.count = LOCKED;
                self.waker = None;
                self.data = None;
                Released::Freed
            },
            Release::Handoff => {
                self.count = LOCKED;
                let woken = self.waker.unwrap();
                self.count = ALONE;
                Released::Woke(woken)
            },
            Release::Exchange { current, new } => {
                if self.count == current {
                    self.count = new;
                }
                Released::Left
            },
        };
        self.roles = Ghost(remaining);
        r
    }

    /// The host is polled with its waker `waker`. With the host alone it
    /// takes the block back and `true` is returned; otherwise the block is
    /// locked, `waker` is stored, the counter is restored and `false` is
    /// returned.
    pub(crate) fn poll(&mut self, waker: u64) -> (ready: bool)
        requires
            old(self).wf(),
            old(self)@.roles.hosts == 1,
        ensures
            ready == (old(self)@.count == 1),
            ready ==> final(self)@ == old(self)@.polled_ready(),
            !ready ==> final(self)@ == old(self)@.polled_pending(waker),
            final(self).value() == old(self).value(),
            final(self).wf(),
            final(self).id() == old(self).id(),
    {
        match poll_step(self.count) {
            PollStep::AwaitUnlock => {
                proof {
                    assert(false);
                }
                false
            },
            PollStep::Ready => {
                self.waker = None;
                self.roles = Ghost(Roles { unique: true, hosts: 0, minting: false, ..self.roles@ });
                true
            },
            PollStep::Lock { current } => {
                if self.count == current {
                    self.count = LOCKED;
                    let same = match self.waker {
                        Some(stored) => stored == waker,
                        None => false,
                    };
                    if !same {
                        self.waker = Some(waker);
                    }
                    self.count = current;
                }
                false
            },
        }
    }

    /// The host gives up the right to read and to hand out shares.
    pub(crate) fn host_to_mut(&mut self)
        requires
            old(self).wf(),
            old(self)@.roles.hosts == 1,
        ensures
            final(self)@ == old(self)@.host_made_mut(),
            final(self)@.waker == old(self)@.waker,
            final(self)@.count == old(self)@.count,
            final(self).value() == old(self).value(),
            final(self).wf(),
            final(self).id() == old(self).id(),
    {
        self.roles = Ghost(Roles { minting: false, ..self.roles@ });
    }

    /// The mutable share becomes a shared share.
    pub(crate) fn mut_share_to_shared(&mut self)
        requires
            old(self).wf(),
            old(self)@.roles.mut_shares == 1,
        ensures
            final(self)@ == old(self)@.mut_share_made_shared(),
            final(self)@.waker == old(self)@.waker,
            final(self)@.count == old(self)@.count,
            final(self).value() == old(self).value(),
            final(self).wf(),
            final(self).id() == old(self).id(),
    {
        self.roles = Ghost(Roles { mut_shares: 0, shares: self.roles@.shares + 1, ..self.roles@ });
    }
}

} // verus!
