use windows_tty::wide::{terminated, win32_string};

#[test]
fn ascii_is_one_unit_each_and_a_zero() {
    assert_eq!(win32_string("cmd"), vec![99, 109, 100, 0]);
    assert_eq!(win32_string(""), vec![0]);
}

#[test]
fn characters_beyond_one_unit_become_pairs() {
    assert_eq!(win32_string("\u{1F600}"), vec![0xD83D, 0xDE00, 0]);
    assert_eq!(win32_string("\u{10000}"), vec![0xD800, 0xDC00, 0]);
    assert_eq!(win32_string("\u{10FFFF}"), vec![0xDBFF, 0xDFFF, 0]);
    assert_eq!(win32_string("\u{FFFF}"), vec![0xFFFF, 0]);
}

#[test]
fn the_text_can_be_read_back() {
    for text in ["C:\\Users\\Jo Smith", "äöü", "漢字 \u{1F600}x\u{10FFFF}", "\u{E000}\u{D7FF}"] {
        let wide = win32_string(text);
        assert_eq!(String::from_utf16(&wide[..wide.len() - 1]).unwrap(), text);
        let units: Vec<u16> = text.encode_utf16().collect();
        assert_eq!(&wide[..wide.len() - 1], &units[..]);
    }
}

#[test]
fn the_string_ends_at_the_first_zero() {
    let wide = win32_string("a\u{1F600}\u{100}b");
    assert_eq!(wide.iter().position(|unit| *unit == 0), Some(wide.len() - 1));
}

#[test]
fn units_are_kept_and_ended() {
    // a surrogate on its own is kept as well
    assert_eq!(terminated(vec![0xD800, 7]), vec![0xD800, 7, 0]);
}
