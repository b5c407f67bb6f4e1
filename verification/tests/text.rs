use wincap::bytes::push_words;
use wincap::text::{
    decode_utf16_lossy, encode_utf16, push_number, push_str, same_text, wide_null,
};

#[test]
fn numbers_are_written() {
    let mut s = String::new();
    push_number(&mut s, 0, 10, 0, false);
    push_str(&mut s, " ");
    push_number(&mut s, 1920, 10, 0, false);
    push_str(&mut s, " ");
    push_number(&mut s, 0xabc, 16, 8, true);
    push_str(&mut s, " ");
    push_number(&mut s, 0xabc, 16, 0, false);
    assert_eq!(s, "0 1920 00000ABC abc");
}

#[test]
fn text_is_compared() {
    assert!(same_text("hevc", "hevc"));
    assert!(!same_text("hevc", "HEVC"));
    assert!(!same_text("", "x"));
}

#[test]
fn utf16_goes_both_ways() {
    let s = "Pro Audio \u{2014} \u{1F600}\u{FFFD}\u{10FFFF}";
    let units = encode_utf16(s);
    let expected: Vec<u16> = s.encode_utf16().collect();
    assert_eq!(units, expected);
    assert_eq!(decode_utf16_lossy(&units), s);
}

#[test]
fn broken_utf16_is_replaced() {
    let cases: Vec<Vec<u16>> = vec![
        vec![0xD800],
        vec![0xDC00, 0x41],
        vec![0xD83D, 0x41, 0xDE00],
        vec![0xD83D, 0xD83D, 0xDE00],
        vec![0xDBFF, 0xDFFF, 0xD800, 0xDBFF],
        vec![],
    ];
    for units in cases {
        assert_eq!(decode_utf16_lossy(&units), String::from_utf16_lossy(&units));
    }
}

#[test]
fn task_names_end_in_zero() {
    assert_eq!(wide_null("Pro"), vec![80, 114, 111, 0]);
    assert_eq!(wide_null(""), vec![0]);
}

#[test]
fn words_become_bytes() {
    let mut out = vec![9u8];
    push_words(&mut out, &[0x0403_0201, 0xFFFF_FFFF, 5], 2);
    assert_eq!(out, vec![9, 1, 2, 3, 4, 255, 255, 255, 255]);
    let words: Vec<u32> = vec![1.0f32.to_bits(), (-2.5f32).to_bits()];
    let mut out = Vec::new();
    push_words(&mut out, &words, 2);
    assert_eq!(&out[..4], &1.0f32.to_le_bytes()[..]);
    assert_eq!(&out[4..], &(-2.5f32).to_le_bytes()[..]);
}
