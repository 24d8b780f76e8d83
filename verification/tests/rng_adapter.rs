//! The generic random-number-generator shaped handle: every method only
//! forwards to the entropy source.

use poorentropy::Rng;

#[test]
fn next_u32() {
    let mut rng = Rng;
    let a = rng.next_u32();
    let b = rng.next_u32();
    assert_ne!(a, b);
}

#[test]
fn next_u64() {
    let mut rng = Rng;
    let a = rng.next_u64();
    let b = rng.next_u64();
    assert_ne!(a, b);
}

#[test]
fn fill_bytes() {
    let mut rng = Rng;
    let mut a = vec![0u8; 64];
    let mut b = vec![0u8; 64];
    rng.fill_bytes(&mut a);
    rng.fill_bytes(&mut b);
    assert_ne!(a, b);
}
