//! Buffer filling: every length is fully populated, the zero length is a
//! no-op, and the word-to-byte layout is exact.

#[test]
fn fill_many_lengths() {
    for len in [0usize, 1, 7, 8, 9, 1024] {
        let mut buf = vec![0u8; len];
        poorentropy::fill(&mut buf);
        assert_eq!(buf.len(), len);
        if len > 0 {
            assert!(
                buf.iter().any(|&b| b != 0),
                "a filled buffer of length {len} came back all zero"
            );
        }
    }
}

#[test]
fn fill_empty_is_noop() {
    let mut buf: Vec<u8> = Vec::new();
    poorentropy::fill(&mut buf);
    assert!(buf.is_empty());
}

#[test]
fn fill_from_words_exact_layout() {
    let words = vec![0x0706050403020100u64, 0x0f0e0d0c0b0a0908u64];
    let mut buf = vec![0xffu8; 11];
    poorentropy::fill_from_words(&mut buf, &words);
    assert_eq!(buf, vec![0, 1, 2, 3, 4, 5, 6, 7, 8, 9, 10]);
}

#[test]
fn fill_from_words_little_endian() {
    let words = vec![0x1122334455667788u64];
    let mut buf = vec![0u8; 8];
    poorentropy::fill_from_words(&mut buf, &words);
    assert_eq!(buf, vec![0x88, 0x77, 0x66, 0x55, 0x44, 0x33, 0x22, 0x11]);
}

#[test]
fn word_to_le_bytes_layout() {
    let bytes = poorentropy::word_to_le_bytes(0x1122334455667788u64);
    assert_eq!(bytes, [0x88, 0x77, 0x66, 0x55, 0x44, 0x33, 0x22, 0x11]);
}

#[test]
fn two_fills_differ() {
    let mut a = vec![0u8; 64];
    let mut b = vec![0u8; 64];
    poorentropy::fill(&mut a);
    poorentropy::fill(&mut b);
    assert_ne!(a, b);
}
