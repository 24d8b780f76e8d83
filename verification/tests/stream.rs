//! The byte stream: it never ends, and duplicating a stream begins a
//! fresh sequence instead of replaying buffered bytes.

#[test]
fn stream_yields_nonzero_bytes() {
    let mut stream = poorentropy::bytes();
    let mut all_zero = true;
    for _ in 0..64 {
        if stream.next().unwrap() != 0 {
            all_zero = false;
        }
    }
    assert!(!all_zero, "the stream handed out 64 zero bytes in a row");
}

#[test]
fn stream_never_reports_an_end() {
    let mut stream = poorentropy::bytes();
    for _ in 0..10_000 {
        assert!(stream.next().is_some());
    }
    let (lower, upper) = stream.size_hint();
    assert_eq!(lower, usize::MAX);
    assert!(upper.is_none());
}

#[test]
fn nth_skips_and_returns() {
    let mut stream = poorentropy::bytes();
    // Skipping any distance, including none and far past a buffer refill,
    // always lands on a byte.
    for skip in [0usize, 1, 6, 7, 8, 1000] {
        assert!(stream.nth(skip).is_some());
    }
    for _ in 0..32 {
        assert!(stream.nth(3).is_some());
    }
}

#[test]
fn duplicate_does_not_replay() {
    let mut original = poorentropy::bytes();
    // Consume one byte so the original holds seven buffered, unconsumed bytes.
    let _ = original.next().unwrap();
    let mut upcoming = [0u8; 7];
    let mut duplicate = original.clone();
    let mut duplicated = [0u8; 7];
    for slot in upcoming.iter_mut() {
        *slot = original.next().unwrap();
    }
    for slot in duplicated.iter_mut() {
        *slot = duplicate.next().unwrap();
    }
    assert_ne!(
        upcoming, duplicated,
        "a duplicated stream replayed the original's buffered bytes"
    );
}

#[test]
fn two_fresh_streams_do_not_echo() {
    let mut a = poorentropy::bytes();
    let mut b = poorentropy::bytes();
    let mut from_a = [0u8; 16];
    let mut from_b = [0u8; 16];
    for slot in from_a.iter_mut() {
        *slot = a.next().unwrap();
    }
    for slot in from_b.iter_mut() {
        *slot = b.next().unwrap();
    }
    assert_ne!(from_a, from_b, "two fresh streams echoed each other");
}
