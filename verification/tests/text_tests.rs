use aruaru_pro::text::{is_blank, split_chars, trimmed, white_space};

#[test]
fn white_space_is_unicodes_white_space() {
    for u in 0..=0x10ffffu32 {
        if let Some(c) = char::from_u32(u) {
            assert_eq!(white_space(c), c.is_whitespace(), "U+{u:04X}");
        }
    }
}

#[test]
fn blank_means_nothing_left_after_trim() {
    for s in ["", " ", "\t\n\u{3000}", " a ", "あ", "\u{85}"] {
        assert_eq!(is_blank(s), s.trim().is_empty(), "{s:?}");
    }
}

#[test]
fn trimmed_is_str_trim() {
    for s in ["", "  a b  ", "\u{2003}x\u{2029}", "   ", "x"] {
        let cs: Vec<char> = s.chars().collect();
        let t: String = trimmed(&cs).into_iter().collect();
        assert_eq!(t, s.trim());
    }
}

#[test]
fn split_is_str_split() {
    for s in ["", ";", "a;b", ";a;;b;", "abc"] {
        let cs: Vec<char> = s.chars().collect();
        let pieces: Vec<String> = split_chars(&cs, ';').into_iter().map(|p| p.into_iter().collect()).collect();
        let expected: Vec<String> = s.split(';').map(|p| p.to_string()).collect();
        assert_eq!(pieces, expected);
    }
}
