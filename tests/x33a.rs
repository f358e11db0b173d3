use std::hash::Hasher;
use djb_hash::x33a::X33a;

#[test]
fn x33a_it_does_hash_correctly() {
    let mut sut = X33a::new();
    let input = [69, 122];
    sut.write(&input);
    assert_eq!(sut.finish(), 5862308u64);
    let mut sut = X33a::new();
    let input = [70, 89];
    sut.write(&input);
    assert_eq!(sut.finish(), 5862308u64);
    let mut hasher = X33a::new_with_salt(5387);
    let input = "FY";
    hasher.write(&input.as_bytes());
    assert_eq!(hasher.finish(), 5868842u64);
    let mut hasher = X33a::new();
    let input = "abcEzpie";
    hasher.write(&input.as_bytes());
    assert_eq!(hasher.finish(), 7572149288326856u64);
}

#[test]
fn x33a_salted_collision_persists() {
    let mut a = X33a::new_with_salt(5387);
    a.write(&[69, 122]);
    let mut b = X33a::new_with_salt(5387);
    b.write(&[70, 89]);
    assert_eq!(a.finish(), 5868842u64);
    assert_eq!(b.finish(), 5868842u64);
}

#[test]
fn x33a_collision_survives_prefix_and_suffix() {
    let mut a = X33a::new();
    a.write("abcEzpie".as_bytes());
    let mut b = X33a::new();
    b.write("abcFYpie".as_bytes());
    assert_eq!(a.finish(), 7572149288326856u64);
    assert_eq!(b.finish(), 7572149288326856u64);
}

#[test]
fn x33a_same_salt_same_bytes_same_hash() {
    let mut a = X33a::new_with_salt(104729);
    a.write("determinism".as_bytes());
    let mut b = X33a::new_with_salt(104729);
    b.write("determinism".as_bytes());
    assert_eq!(a.finish(), b.finish());
}

#[test]
fn x33a_split_feed_equals_whole_feed() {
    let mut whole = X33a::new();
    whole.write("abcEzpie".as_bytes());
    let mut split = X33a::new();
    split.write("abc".as_bytes());
    split.write("Ezpie".as_bytes());
    assert_eq!(split.finish(), whole.finish());
}

#[test]
fn x33a_empty_feed_keeps_seed() {
    let mut sut = X33a::new_with_salt(0);
    sut.write(&[]);
    assert_eq!(sut.finish(), 0u64);
    let mut sut = X33a::new();
    sut.write(&[]);
    assert_eq!(sut.finish(), 5381u64);
}

#[test]
fn x33a_wraps_around_at_64_bits() {
    let mut sut = X33a::new_with_salt(u64::MAX);
    sut.write(&[0]);
    assert_eq!(sut.finish(), 18446744073709551583u64);
}

#[test]
fn x33a_finish_does_not_change_state() {
    let mut sut = X33a::new();
    sut.write(&[69]);
    let first = sut.finish();
    assert_eq!(sut.finish(), first);
    sut.write(&[122]);
    assert_eq!(sut.finish(), 5862308u64);
}
