use crud_auth::clock::epoch_seconds;
use crud_auth::text::{is_blank, is_white_space};

#[test]
fn white_space_agrees_with_std_on_every_char() {
    for v in 0u32..=0x10FFFF {
        if let Some(c) = char::from_u32(v) {
            assert_eq!(is_white_space(c), c.is_whitespace(), "code point {:#x}", v);
        }
    }
}

#[test]
fn blank_agrees_with_trim() {
    let samples = [
        "", " ", "\t\n\r", "a", " a ", "\u{3000}", "\u{3000}x", "\u{200B}", "\u{85}\u{a0}",
        "Dune", "  Frank Herbert  ", "\u{2028}\u{2029}", "\u{180E}",
    ];
    for s in samples {
        assert_eq!(is_blank(s), s.trim().is_empty(), "{:?}", s);
    }
}

#[test]
fn blank_examples() {
    assert!(is_blank(""));
    assert!(is_blank("   \t"));
    assert!(!is_blank(" x "));
    assert!(!is_blank("\u{200B}"));
}

#[test]
fn epoch_offsets_become_timestamps() {
    assert_eq!(epoch_seconds(Ok((5, 7))), Some((5, 7)));
    assert_eq!(epoch_seconds(Err((5, 0))), Some((-5, 0)));
    assert_eq!(epoch_seconds(Err((5, 250_000_000))), Some((-6, 750_000_000)));
    assert_eq!(epoch_seconds(Ok((u64::MAX, 0))), None);
    assert_eq!(epoch_seconds(Ok((1, 1_000_000_000))), None);
    assert_eq!(epoch_seconds(Err((i64::MAX as u64, 0))), Some((-i64::MAX, 0)));
    assert_eq!(epoch_seconds(Err((i64::MAX as u64, 1))), None);
}
