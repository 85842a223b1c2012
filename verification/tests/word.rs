use p2p_chat::hex::NameError;
use p2p_chat::word::Word256;
use std::cmp::Ordering;

fn word(low: u64) -> Word256 {
    Word256 { words: [low, 0, 0, 0] }
}

#[test]
fn hexadecimal_is_read_in_either_case() {
    assert_eq!(Word256::from_hex("ff"), Ok(word(255)));
    assert_eq!(Word256::from_hex("FF"), Ok(word(255)));
    assert_eq!(Word256::from_hex("aBc"), Ok(word(0xabc)));
}

#[test]
fn prefix_is_taken_off() {
    assert_eq!(Word256::from_hex("0x1f"), Ok(word(0x1f)));
    assert_eq!(Word256::from_hex("0X1f"), Err(NameError::InvalidCharacter));
}

#[test]
fn empty_text_is_zero() {
    assert_eq!(Word256::from_hex(""), Ok(word(0)));
    assert_eq!(Word256::from_hex("0x"), Ok(word(0)));
}

#[test]
fn words_are_little_endian() {
    let text = "0000000000000004000000000000000300000000000000020000000000000001";
    assert_eq!(Word256::from_hex(text), Ok(Word256 { words: [1, 2, 3, 4] }));
}

#[test]
fn too_long_text_is_refused() {
    let digits = "1".repeat(64);
    assert_eq!(
        Word256::from_hex(&digits),
        Ok(Word256 { words: [0x1111_1111_1111_1111; 4] })
    );
    assert_eq!(Word256::from_hex(&("0x".to_string() + &digits)), Word256::from_hex(&digits));
    assert_eq!(Word256::from_hex(&"1".repeat(65)), Err(NameError::InvalidLength));
    assert_eq!(Word256::from_hex(&"z".repeat(65)), Err(NameError::InvalidLength));
    assert_eq!(Word256::from_hex(&"\u{e4}".repeat(33)), Err(NameError::InvalidLength));
}

#[test]
fn other_characters_are_refused() {
    assert_eq!(Word256::from_hex("12g4"), Err(NameError::InvalidCharacter));
    assert_eq!(Word256::from_hex("-1"), Err(NameError::InvalidCharacter));
    assert_eq!(Word256::from_hex("\u{e4}"), Err(NameError::InvalidCharacter));
}

#[test]
fn bytes_are_big_endian() {
    let mut bytes = [0u8; 32];
    bytes[0] = 0x80;
    bytes[30] = 1;
    bytes[31] = 2;
    assert_eq!(
        Word256::from_be_bytes(&bytes),
        Word256 { words: [0x102, 0, 0, 0x8000_0000_0000_0000] }
    );
}

#[test]
fn distance_is_exclusive_or() {
    let a = Word256 { words: [0xff, 1, 0, 7] };
    let b = Word256 { words: [0x0f, 0, 2, 5] };
    assert_eq!(a.distance(&b), Word256 { words: [0xf0, 1, 2, 2] });
    assert_eq!(b.distance(&a), a.distance(&b));
    assert_eq!(a.distance(&a), word(0));
}

#[test]
fn distance_meets_triangle_inequality() {
    let (a, b, c) = (word(0b1100), word(0b1010), word(0b0111));
    let (ab, bc, ac) = (a.distance(&b), b.distance(&c), a.distance(&c));
    assert_eq!((ab, bc, ac), (word(0b0110), word(0b1101), word(0b1011)));
    assert!(ac.words[0] <= ab.words[0] + bc.words[0]);
}

#[test]
fn distances_compose() {
    let a = Word256 { words: [0xff, 0, 7, 1] };
    let b = Word256 { words: [0x0f, 1, 5, 3] };
    let c = Word256 { words: [0xf1, 9, 0, 8] };
    assert_eq!(a.distance(&b).distance(&b.distance(&c)), a.distance(&c));
    assert_eq!(a.distance(&c), Word256 { words: [0x0e, 9, 7, 9] });
}

#[test]
fn numbers_compare_by_high_words_first() {
    let small = Word256 { words: [u64::MAX, u64::MAX, u64::MAX, 0] };
    let large = Word256 { words: [0, 0, 0, 1] };
    assert_eq!(small.compare(&large), Ordering::Less);
    assert_eq!(large.compare(&small), Ordering::Greater);
    assert_eq!(large.compare(&large), Ordering::Equal);
}
