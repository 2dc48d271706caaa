use adventure::strategy::{Backoff, DefaultBackoff};

#[test]
fn default_backoff_starts_near_its_initial_interval() {
    let mut policy = DefaultBackoff::new();
    let first = policy.next_backoff();
    // the default policy starts at half a second, jittered by half of it
    let ms = first.expect("a fresh policy has budget left");
    assert!((250..=750).contains(&ms), "unexpected first interval: {} ms", ms);
}

#[test]
fn default_backoff_clone_and_reset_give_a_working_policy() {
    let mut policy = DefaultBackoff::new();
    let _ = policy.next_backoff();
    let mut copy = policy.clone();
    copy.reset();
    let ms = copy.next_backoff().expect("a reset policy has budget left");
    assert!(ms > 0);
}
