use std::hash::Hasher;
use djb_hash::djbx33a::Djbx33a;

#[test]
fn djbx33a_it_does_hash_correctly() {
    let mut sut = Djbx33a::new();
    let input = [69, 122];
    sut.write(&input);
    assert_eq!(sut.finish(), 5862308u64);
    let mut sut = Djbx33a::new();
    let input = [70, 89];
    sut.write(&input);
    assert_eq!(sut.finish(), 5862308u64);
}

#[test]
fn djbx33a_fresh_hasher_finishes_with_seed() {
    let sut = Djbx33a::new();
    assert_eq!(sut.finish(), 5381u64);
}

#[test]
fn djbx33a_matches_x33a_on_text() {
    let mut a = Djbx33a::new();
    let mut b = djb_hash::x33a::X33a::new();
    a.write("hello world".as_bytes());
    b.write("hello world".as_bytes());
    assert_eq!(a.finish(), b.finish());
}
