use imbdmlive::wide::{from_wide_lossy, to_wide};

fn std_wide(s: &str) -> Vec<u16> {
    s.encode_utf16().chain(std::iter::once(0u16)).collect()
}

#[test]
fn to_wide_matches_std_encoding() {
    for s in ["BDMLive", "", "IMBDMLIVE", "弹幕", "emoji 😀 and 𝄞", "\u{FFFF}\u{10000}\u{10FFFF}"] {
        assert_eq!(to_wide(s), std_wide(s));
    }
}

#[test]
fn class_name_is_nul_terminated() {
    let w = to_wide("BDMLive");
    assert_eq!(w.len(), 8);
    assert_eq!(w[7], 0);
    assert_eq!(w[0], 'B' as u16);
}

#[test]
fn lossy_decoding_matches_std() {
    let samples: Vec<Vec<u16>> = vec![
        vec![],
        vec![0x48, 0x69],
        vec![0xD83D, 0xDE00],
        vec![0xD83D],
        vec![0xDE00, 0x41],
        vec![0xD83D, 0x41, 0xDE00],
        vec![0xD800, 0xD800, 0xDC00],
        vec![0xFFFD, 0x5F39, 0x5E55],
    ];
    for w in samples {
        assert_eq!(from_wide_lossy(&w), String::from_utf16_lossy(&w));
    }
}

#[test]
fn clipboard_text_round_trips() {
    for s in ["hello", "弹幕姬", "a😀b", ""] {
        let w = to_wide(s);
        let end = w.iter().position(|&u| u == 0).unwrap();
        assert_eq!(end, w.len() - 1);
        assert_eq!(from_wide_lossy(&w[..end]), s);
    }
}

#[test]
fn clipboard_text_with_nul_reads_back_up_to_it() {
    for (s, prefix) in [("ab\0cd", "ab"), ("\0x", ""), ("弹幕\0😀", "弹幕")] {
        let w = to_wide(s);
        let end = w.iter().position(|&u| u == 0).unwrap();
        assert_eq!(from_wide_lossy(&w[..end]), prefix);
    }
}
