# borrow_count

A value is shared out of a `Unique` into a host and one or more shares; the
host reads it, hands out more shares, and takes the value back once every
share has been given up. One counter word in the shared control block
counts the handles; the value `0` marks it as locked while a handle swaps
the host's waker or hands the block back.

Layout:

* `src/` is the verified library. `protocol` holds the decision that each
  handle operation takes on the counter value it observed; `state` holds
  the abstract state of a control block, the effect of every operation and
  the laws between them; `inner` and `handles` hold the control block and
  the handles, each operation taking the block as an explicit argument and
  being one step of the protocol.
* `app/` holds the handles over real shared memory (a heap block with an
  atomic counter, `UnsafeCell`, wakers, `Future` impls), whose retry loops
  call the decisions of `protocol`.
* `tests/` runs the decisions and the handles on concrete values.
