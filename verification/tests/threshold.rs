use f4::resource::Resource;
use f4::threshold::{Threshold, IDLE_PRIORITY};

#[test]
fn threshold_keeps_its_level() {
    let t = Threshold::new(3);
    assert_eq!(t.value(), 3);
    assert_eq!(IDLE_PRIORITY, 0);
}

#[test]
fn raise_returns_the_level_before() {
    let mut t = Threshold::new(1);
    let previous = t.raise_to(4);
    assert_eq!(previous, 1);
    assert_eq!(t.value(), 4);
    t.restore(previous);
    assert_eq!(t.value(), 1);
}

#[test]
fn claim_mut_runs_at_the_ceiling_and_restores() {
    let mut r: Resource<u32> = Resource::new(5, 2);
    let mut t = Threshold::new(1);
    let seen = r.claim_mut(&mut t, |v, th| {
        *v += 1;
        th.value()
    });
    assert_eq!(seen, 2);
    assert_eq!(t.value(), 1);
    let value = r.claim(&mut t, |v, th| (*v, th.value()));
    assert_eq!(value, (6, 2));
    assert_eq!(t.value(), 1);
    assert_eq!(r.ceiling(), 2);
}
