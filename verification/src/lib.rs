//! Memory that can be shared with smart-pointer handles and then reacquired
//! by its host once every share is gone.
//!
//! The shared control block carries one counter word. While no handle is in
//! the middle of an operation the word holds the number of live handles that
//! point at the block (the host and every share); the value `0` marks the
//! block as locked by a handle that is swapping the host's waker or handing
//! the block back to the host.
//!
//! * [`protocol`] holds the decisions that every handle operation takes on
//!   the value it observed in the counter word: whether to retry, which
//!   compare-and-exchange to attempt, and when to free the block or wake the
//!   host.
//! * [`state`] holds the abstract state of a control block (counter, stored
//!   waker and the handles alive), its well-formedness, the effect of each
//!   operation, and the laws that relate the operations.
//! * [`inner`] holds the control block itself, whose operations are built
//!   from the decisions of [`protocol`] and proved against [`state`].
//! * [`handles`] holds the handles: [`handles::Unique`], [`handles::Share`],
//!   [`handles::ShareMut`], [`handles::Host`], [`handles::HostMut`],
//!   [`handles::HostPinned`] and [`handles::HostPinnedMut`]. Each handle
//!   operation takes the control block it works on as an explicit argument
//!   and is one atomic step of the protocol.

pub mod protocol;
pub mod state;
pub mod inner;
pub mod handles;

pub use handles::{Host, HostMut, HostPinned, HostPinnedMut, Polled, Share, ShareMut, Unique};
pub use inner::Inner;
pub use state::Released;
