use borrow_count::state::NOOP_WAKER;
use borrow_count::{Host, HostMut, HostPinned, HostPinnedMut, Polled, Released, Unique};

fn ready<T>(p: Polled<T>) -> Unique<T> {
    match p {
        Polled::Ready(u) => u,
        Polled::Pending(_) => panic!("expected the host to be ready"),
    }
}

fn pending<T>(p: Polled<T>) -> borrow_count::Inner<T> {
    match p {
        Polled::Pending(i) => i,
        Polled::Ready(_) => panic!("expected the host to be pending"),
    }
}

// The README example, run step by step on one thread: the host is awaited
// first and registers its task's waker, then the share adds one and is
// dropped, which wakes that waker, and the host gives the value back.
#[test]
fn vibe_check() {
    let unique = Unique::new(0);
    let (mut host, mut share, inner) = unique.share_mut();
    let mut inner = pending(host.poll(inner, 1));
    *share.get_mut(&mut inner) += 1;
    assert_eq!(share.release(&mut inner), Released::Woke(1));
    let unique = ready(host.poll(inner, 1));
    assert_eq!(unique.into_inner(), 1)
}

#[test]
fn write_through_mut_share_before_any_poll() {
    let (host, mut share, mut inner) = Unique::new(0).share_pinned_mut();
    let mut host = HostPinnedMut::from_unpinned(host);
    *share.get_mut(&mut inner) = 3;
    assert_eq!(share.release(&mut inner), Released::Woke(NOOP_WAKER));
    assert_eq!(ready(host.poll(inner, 0)).into_inner(), 3);
    assert!(host.is_terminated());
}

#[test]
fn new_then_into_inner() {
    let u = Unique::new(String::from("value"));
    assert_eq!(u.get(), "value");
    assert_eq!(u.into_inner(), "value");
}

#[test]
fn unique_get_mut() {
    let mut u = Unique::new(vec![1, 2]);
    u.get_mut().push(3);
    assert_eq!(u.get(), &vec![1, 2, 3]);
}

#[test]
fn share_counts_two_handles() {
    let (host, share, inner) = Unique::new(5u8).share();
    assert_eq!(host.count(&inner), 2);
    assert_eq!(host.count_checked(&inner), Some(2));
    assert_eq!(*host.get(&inner), 5);
    assert_eq!(*share.get(&inner), 5);
    assert!(!host.is_terminated());
}

#[test]
fn clones_raise_and_releases_lower_the_count() {
    let (host, share, mut inner) = Unique::new(1).share();
    let s2 = share.clone_share(&mut inner);
    let s3 = host.share(&mut inner);
    assert_eq!(host.count(&inner), 4);
    assert_eq!(s3.release(&mut inner), Released::Left);
    assert_eq!(host.count(&inner), 3);
    assert_eq!(s2.release(&mut inner), Released::Left);
    assert_eq!(host.count(&inner), 2);
    assert_eq!(share.release(&mut inner), Released::Woke(NOOP_WAKER));
    assert_eq!(host.count(&inner), 1);
}

#[test]
fn clone_then_release_restores_count() {
    let (host, share, mut inner) = Unique::new(()).share();
    let extra = share.clone_share(&mut inner);
    assert_eq!(host.count(&inner), 3);
    assert_eq!(extra.release(&mut inner), Released::Left);
    assert_eq!(host.count(&inner), 2);
    drop(share);
}

#[test]
fn poll_pending_while_shares_remain() {
    let (mut host, share, inner) = Unique::new(3).share();
    let inner = pending(host.poll(inner, 42));
    assert_eq!(host.count(&inner), 2);
    assert!(!host.is_terminated());
    let mut inner = pending(host.poll(inner, 42));
    assert_eq!(share.release(&mut inner), Released::Woke(42));
    let u = ready(host.poll(inner, 42));
    assert!(host.is_terminated());
    assert_eq!(u.into_inner(), 3);
}

#[test]
fn handoff_wakes_latest_waker() {
    let (mut host, share, inner) = Unique::new(0).share();
    let inner = pending(host.poll(inner, 10));
    let mut inner = pending(host.poll(inner, 11));
    assert_eq!(share.release(&mut inner), Released::Woke(11));
}

#[test]
fn terminated_host_reports_none() {
    let (mut host, share, mut inner) = Unique::new(8).share();
    assert_eq!(share.release(&mut inner), Released::Woke(NOOP_WAKER));
    let u = ready(host.poll(inner, 0));
    let mut again = Unique::new(0).share().2;
    assert!(host.is_terminated());
    assert_eq!(host.count_checked(&again), None);
    assert!(host.get_checked(&again).is_none());
    assert!(host.share_checked(&mut again).is_none());
    assert_eq!(host.release(&mut again), Released::Detached);
    assert_eq!(u.into_inner(), 8);
}

#[test]
fn host_dropped_first_then_shares_free() {
    let (host, share, mut inner) = Unique::new(String::from("x")).share();
    let s2 = share.clone_share(&mut inner);
    assert_eq!(host.release(&mut inner), Released::Left);
    assert_eq!(*s2.get(&inner), "x");
    assert_eq!(s2.release(&mut inner), Released::Woke(NOOP_WAKER));
    assert_eq!(share.release(&mut inner), Released::Freed);
}

#[test]
fn host_dropped_last_frees() {
    let (host, share, mut inner) = Unique::new(1).share();
    assert_eq!(share.release(&mut inner), Released::Woke(NOOP_WAKER));
    assert_eq!(host.release(&mut inner), Released::Freed);
}

#[test]
fn host_dropped_beside_one_share_hands_off() {
    let (host, share, mut inner) = Unique::new(1).share();
    assert_eq!(host.release(&mut inner), Released::Woke(NOOP_WAKER));
    assert_eq!(share.release(&mut inner), Released::Freed);
}

#[test]
fn share_mut_into_share_can_clone() {
    let (mut host, share_mut, mut inner) = Unique::new(2).share_mut();
    assert_eq!(*share_mut.get(&inner), 2);
    let share = share_mut.into_share(&mut inner);
    let s2 = share.clone_share(&mut inner);
    assert_eq!(host.count(&inner), 3);
    assert_eq!(share.release(&mut inner), Released::Left);
    assert_eq!(s2.release(&mut inner), Released::Woke(NOOP_WAKER));
    assert_eq!(ready(host.poll(inner, 5)).into_inner(), 2);
}

#[test]
fn share_mut_release_beside_host_mut() {
    let (host, share_mut, mut inner) = Unique::new(0).share_mut();
    assert_eq!(host.release(&mut inner), Released::Woke(NOOP_WAKER));
    assert_eq!(share_mut.release(&mut inner), Released::Freed);
}

#[test]
fn host_into_host_mut_keeps_count() {
    let (host, share, mut inner) = Unique::new(4).share();
    let mut host_mut: HostMut = host.into_host_mut(&mut inner);
    assert_eq!(host_mut.count(&inner), 2);
    assert_eq!(host_mut.count_checked(&inner), Some(2));
    assert_eq!(share.release(&mut inner), Released::Woke(NOOP_WAKER));
    assert_eq!(ready(host_mut.poll(inner, 3)).into_inner(), 4);
    assert!(host_mut.is_terminated());
}

#[test]
fn pinned_hosts() {
    let (host, share, mut inner) = Unique::new(6).share_pinned();
    let host = HostPinned::from_unpinned(host);
    assert_eq!(host.count(&inner), 2);
    assert_eq!(*host.get(&inner), 6);
    let s2 = host.share(&mut inner);
    assert_eq!(host.get_checked(&inner), Some(&6));
    assert_eq!(host.share_checked(&mut inner).map(|s| s.release(&mut inner)), Some(Released::Left));
    let mut host: HostPinnedMut = host.into_host_mut(&mut inner);
    assert_eq!(host.count(&inner), 3);
    assert_eq!(s2.release(&mut inner), Released::Left);
    assert_eq!(share.release(&mut inner), Released::Woke(NOOP_WAKER));
    assert_eq!(ready(host.poll(inner, 0)).into_inner(), 6);
}

#[test]
fn pinned_mut_share() {
    let (host, mut share, mut inner) = Unique::new(10).share_pinned_mut();
    let mut host = HostPinnedMut::from_unpinned(host);
    *share.get_mut(&mut inner) *= 3;
    let inner = pending(host.poll(inner, 9));
    let mut inner = inner;
    assert_eq!(share.release(&mut inner), Released::Woke(9));
    assert_eq!(host.count_checked(&inner), Some(1));
    assert_eq!(ready(host.poll(inner, 9)).into_inner(), 30);
}

#[test]
fn from_unpinned_keeps_host() {
    let (host, share, mut inner) = Unique::new(1).share();
    let pinned = HostPinned::from_unpinned(host);
    assert_eq!(pinned.count(&inner), 2);
    assert_eq!(share.release(&mut inner), Released::Woke(NOOP_WAKER));
    let (host_mut, _share_mut, inner2) = Unique::new(2).share_mut();
    let pinned_mut = HostPinnedMut::from_unpinned(host_mut);
    assert_eq!(pinned_mut.count(&inner2), 2);
    let _: &Host = &Unique::new(0).share().0;
    drop(inner);
}

#[test]
fn reshare_after_handoff() {
    let (mut host, share, mut inner) = Unique::new(7).share();
    assert_eq!(share.release(&mut inner), Released::Woke(NOOP_WAKER));
    let again = host.share(&mut inner);
    assert_eq!(host.count(&inner), 2);
    assert_eq!(again.release(&mut inner), Released::Woke(NOOP_WAKER));
    assert_eq!(ready(host.poll(inner, 3)).into_inner(), 7);
}

#[test]
fn reshare_after_handoff_then_pending() {
    let (mut host, share, mut inner) = Unique::new(7).share();
    assert_eq!(share.release(&mut inner), Released::Woke(NOOP_WAKER));
    let again = host.share(&mut inner);
    let mut inner = pending(host.poll(inner, 4));
    assert_eq!(host.count(&inner), 2);
    assert_eq!(again.release(&mut inner), Released::Woke(4));
    assert_eq!(ready(host.poll(inner, 4)).into_inner(), 7);
}

#[test]
fn lone_share_clone_after_host_dropped() {
    let (host, share, mut inner) = Unique::new(1).share();
    assert_eq!(host.release(&mut inner), Released::Woke(NOOP_WAKER));
    let s2 = share.clone_share(&mut inner);
    assert_eq!(s2.release(&mut inner), Released::Woke(NOOP_WAKER));
    assert_eq!(share.release(&mut inner), Released::Freed);
}

#[test]
fn all_shares_released_wake_once() {
    let (mut host, share, mut inner) = Unique::new(0).share();
    let s2 = share.clone_share(&mut inner);
    let s3 = host.share(&mut inner);
    let mut inner = pending(host.poll(inner, 12));
    assert_eq!(s3.release(&mut inner), Released::Left);
    assert_eq!(s2.release(&mut inner), Released::Left);
    assert_eq!(share.release(&mut inner), Released::Woke(12));
    assert_eq!(ready(host.poll(inner, 12)).into_inner(), 0);
}
