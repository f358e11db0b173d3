use std::hash::Hasher;
use djb_hash::HasherU32;
use djb_hash::x33a_u32::X33aU32;

#[test]
fn x33a_u32_it_does_hash_correctly() {
    let mut sut = X33aU32::new();
    let input = [69, 122];
    sut.write(&input);
    assert_eq!(sut.finish(), 5862308u64);
    let mut sut = X33aU32::new();
    let input = [70, 89];
    sut.write(&input);
    assert_eq!(sut.finish(), 5862308u64);
    let input = "abcEzpie";
    let mut sut = X33aU32::new_with_salt(5381);
    sut.write(&input.as_bytes());
    assert_eq!(sut.finish(), 1686394568u64);
    assert_eq!(sut.finish_u32(), 1686394568u32);
}

#[test]
fn x33a_u32_wide_result_widens_native() {
    let mut sut = X33aU32::new();
    sut.write("hello world".as_bytes());
    assert_eq!(sut.finish(), sut.finish_u32() as u64);
}

#[test]
fn x33a_u32_wraps_around_at_32_bits() {
    let mut sut = X33aU32::new_with_salt(u32::MAX);
    sut.write(&[255]);
    assert_eq!(sut.finish_u32(), 222u32);
    assert_eq!(sut.finish(), 222u64);
}

#[test]
fn x33a_u32_split_feed_equals_whole_feed() {
    let mut whole = X33aU32::new();
    whole.write("abcEzpie".as_bytes());
    let mut split = X33aU32::new();
    split.write("abcEz".as_bytes());
    split.write("pie".as_bytes());
    assert_eq!(split.finish_u32(), whole.finish_u32());
}

#[test]
fn x33a_u32_empty_feed_keeps_seed() {
    let mut sut = X33aU32::new_with_salt(7);
    sut.write(&[]);
    assert_eq!(sut.finish_u32(), 7u32);
}
