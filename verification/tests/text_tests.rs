use processdumper::text::{starts_with, truncate_to_first_null_char};
use processdumper::utf16::from_utf16_lossy;

fn truncated(text: &str) -> String {
    let mut owned = text.to_owned();
    truncate_to_first_null_char(&mut owned);
    owned
}

#[test]
fn truncate_cuts_at_first_null() {
    assert_eq!(truncated("dwm.exe\0garbage\0more"), "dwm.exe");
    assert_eq!(truncated("\0dwm.exe"), "");
    assert_eq!(truncated("dwm.exe\0"), "dwm.exe");
}

#[test]
fn truncate_leaves_text_without_null() {
    assert_eq!(truncated("dwm.exe"), "dwm.exe");
    assert_eq!(truncated(""), "");
}

#[test]
fn truncate_counts_characters_not_bytes() {
    assert_eq!(truncated("h\u{e9}llo \u{1F600}\0tail"), "h\u{e9}llo \u{1F600}");
}

#[test]
fn starts_with_agrees_with_std() {
    let cases = [
        ("dwm.exe", "dwm.exe"),
        ("dwm.exe", "dwm"),
        ("dwm.exe", ""),
        ("", ""),
        ("", "d"),
        ("dwm", "dwm.exe"),
        ("Dwm.exe", "dwm"),
        ("dwm.exe", "wm"),
        ("\u{e9}t\u{e9}", "\u{e9}"),
        ("\u{e9}t\u{e9}", "e"),
    ];
    for (text, prefix) in cases {
        assert_eq!(starts_with(text, prefix), text.starts_with(prefix), "{text:?} {prefix:?}");
    }
}

#[test]
fn lossy_decoding_agrees_with_std() {
    let cases: Vec<Vec<u16>> = vec![
        vec![],
        "dwm.exe".encode_utf16().collect(),
        "h\u{e9}llo \u{1F600} w\u{f6}rld".encode_utf16().collect(),
        vec![0xD834, 0xDD1E, 0x006d, 0x0075, 0xD800, 0x0069, 0x0063],
        vec![0xD800],
        vec![0xDC00],
        vec![0xDC00, 0xD800],
        vec![0xD800, 0xD800, 0xDC00],
        vec![0xDBFF, 0xDFFF],
        vec![0xD7FF, 0xE000, 0xFFFF, 0],
        vec![0x41, 0, 0x42],
    ];
    for units in cases {
        assert_eq!(from_utf16_lossy(&units), String::from_utf16_lossy(&units), "{units:?}");
    }
}

#[test]
fn lossy_decoding_exact_values() {
    assert_eq!(from_utf16_lossy(&[0x64, 0x77, 0x6d]), "dwm");
    assert_eq!(from_utf16_lossy(&[0xD83D, 0xDE00]), "\u{1F600}");
    assert_eq!(from_utf16_lossy(&[0xD83D, 0x41]), "\u{FFFD}A");
}
