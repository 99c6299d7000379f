use pathtracer::interval::{accept_hit, accept_root};

#[test]
fn single_hit_accepted_strictly_inside() {
    assert_eq!(accept_hit(5, 1, 10), Some(5));
    assert_eq!(accept_hit(1, 1, 10), None);
    assert_eq!(accept_hit(10, 1, 10), None);
    assert_eq!(accept_hit(0, 1, 10), None);
    assert_eq!(accept_hit(11, 1, 10), None);
}

#[test]
fn nearer_root_wins_when_inside() {
    assert_eq!(accept_root(4, 8, 1, 10), Some(4));
}

#[test]
fn farther_root_taken_when_nearer_is_outside() {
    // nearer root behind the epsilon bound: a ray starting inside a sphere
    assert_eq!(accept_root(0, 8, 1, 10), Some(8));
    assert_eq!(accept_root(1, 8, 1, 10), Some(8));
}

#[test]
fn miss_when_both_roots_are_outside() {
    assert_eq!(accept_root(0, 11, 1, 10), None);
    assert_eq!(accept_root(10, 10, 1, 10), None);
}
