use win_canvas::text::{decode_utf16_lossy_prefix, is_blank, is_whitespace_char, wide_string};

fn std_wide(s: &str) -> Vec<u16> {
    s.encode_utf16().chain(std::iter::once(0)).collect()
}

#[test]
fn wide_string_ascii() {
    assert_eq!(wide_string("Segoe UI"), std_wide("Segoe UI"));
    assert_eq!(wide_string(""), vec![0]);
    assert_eq!(wide_string("Ab"), vec![0x41, 0x62, 0]);
}

#[test]
fn wide_string_matches_std_on_non_ascii() {
    for s in ["Win Canvas", "café", "日本語", "😀 emoji 𝄞", "\u{FFFF}\u{10000}\u{10FFFF}"] {
        assert_eq!(wide_string(s), std_wide(s), "{}", s);
    }
    assert_eq!(wide_string("😀"), vec![0xD83D, 0xDE00, 0]);
}

#[test]
fn decode_roundtrips_encoding() {
    for s in ["WinCanvasClass", "naïve — test", "😀 x 𝄞", ""] {
        let w = wide_string(s);
        assert_eq!(decode_utf16_lossy_prefix(&w, w.len() - 1), s);
    }
}

#[test]
fn decode_replaces_unpaired_surrogates_like_std() {
    let cases: Vec<Vec<u16>> = vec![
        vec![0xD800],
        vec![0xDC00, 0x41],
        vec![0xD800, 0x41],
        vec![0xD83D, 0xD83D, 0xDE00],
        vec![0x41, 0xDFFF, 0xD800, 0xDC00],
        vec![],
    ];
    for c in cases {
        assert_eq!(decode_utf16_lossy_prefix(&c, c.len()), String::from_utf16_lossy(&c));
    }
}

#[test]
fn decode_stops_at_the_given_length() {
    let buf = vec![0x48, 0x69, 0x21, 0];
    assert_eq!(decode_utf16_lossy_prefix(&buf, 2), "Hi");
    // A pair cut in half by the length decodes as a replacement character.
    let pair = vec![0xD83D, 0xDE00];
    assert_eq!(decode_utf16_lossy_prefix(&pair, 1), "\u{FFFD}");
}

#[test]
fn blank_titles() {
    for s in ["", " ", "\t\r\n", "\u{00A0}\u{3000}", "\u{2000}\u{200A}\u{2028}\u{205F}"] {
        assert!(is_blank(s), "{:?}", s);
        assert_eq!(is_blank(s), s.trim().is_empty());
    }
    for s in ["a", " x ", "\u{200B}", "\u{FEFF}", "_"] {
        assert!(!is_blank(s), "{:?}", s);
        assert_eq!(is_blank(s), s.trim().is_empty());
    }
}

#[test]
fn whitespace_agrees_with_std_on_the_first_planes() {
    for v in 0u32..0x3100 {
        if let Some(c) = char::from_u32(v) {
            assert_eq!(is_whitespace_char(c), c.is_whitespace(), "U+{:04X}", v);
        }
    }
    for v in [0xFEFFu32, 0x1F600, 0x10FFFF] {
        let c = char::from_u32(v).unwrap();
        assert_eq!(is_whitespace_char(c), c.is_whitespace());
    }
}

#[test]
fn the_terminator_is_the_only_nul() {
    for s in ["Win Canvas", "😀", "a\u{10000}b"] {
        let w = wide_string(s);
        assert_eq!(w.iter().filter(|&&u| u == 0).count(), 1);
        assert_eq!(*w.last().unwrap(), 0);
    }
}
