use borrow_count::protocol::{
    acquire_step, poll_step, release_mut_step, release_step, Acquire, PollStep, Release, ALONE, LOCKED, PAIR,
};

#[test]
fn acquire_retries_on_locked() {
    assert_eq!(acquire_step(LOCKED), Acquire::Retry);
}

#[test]
fn acquire_exchanges_for_one_more() {
    assert_eq!(acquire_step(1), Acquire::Exchange { current: 1, new: 2 });
    assert_eq!(acquire_step(7), Acquire::Exchange { current: 7, new: 8 });
    assert_eq!(
        acquire_step(usize::MAX - 1),
        Acquire::Exchange { current: usize::MAX - 1, new: usize::MAX }
    );
}

#[test]
fn release_decisions() {
    assert_eq!(release_step(LOCKED), Release::Retry);
    assert_eq!(release_step(ALONE), Release::Free);
    assert_eq!(release_step(PAIR), Release::Handoff);
    assert_eq!(release_step(3), Release::Exchange { current: 3, new: 2 });
    assert_eq!(release_step(usize::MAX), Release::Exchange { current: usize::MAX, new: usize::MAX - 1 });
}

#[test]
fn release_mut_decisions() {
    assert_eq!(release_mut_step(0), Release::Retry);
    assert_eq!(release_mut_step(1), Release::Free);
    assert_eq!(release_mut_step(2), Release::Handoff);
}

#[test]
fn poll_decisions() {
    assert_eq!(poll_step(0), PollStep::AwaitUnlock);
    assert_eq!(poll_step(1), PollStep::Ready);
    assert_eq!(poll_step(2), PollStep::Lock { current: 2 });
    assert_eq!(poll_step(9), PollStep::Lock { current: 9 });
}

#[test]
fn counter_constants() {
    assert_eq!((LOCKED, ALONE, PAIR), (0, 1, 2));
}
