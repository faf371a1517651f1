use win_webauthn::wide::to_utf16;

#[test]
fn ascii_text_is_one_unit_per_char_and_terminated() {
    assert_eq!(to_utf16("abc"), vec![0x61, 0x62, 0x63, 0]);
}

#[test]
fn empty_text_is_only_the_terminator() {
    assert_eq!(to_utf16(""), vec![0]);
}

#[test]
fn bmp_character_is_one_unit() {
    assert_eq!(to_utf16("é€"), vec![0x00E9, 0x20AC, 0]);
}

#[test]
fn supplementary_character_is_a_surrogate_pair() {
    assert_eq!(to_utf16("a😀"), vec![0x61, 0xD83D, 0xDE00, 0]);
    assert_eq!(to_utf16("\u{10FFFF}"), vec![0xDBFF, 0xDFFF, 0]);
    assert_eq!(to_utf16("\u{10000}"), vec![0xD800, 0xDC00, 0]);
}

#[test]
fn matches_std_encoding() {
    let s = "Passkeys für alle 🔑 – ok";
    let mut expected: Vec<u16> = s.encode_utf16().collect();
    expected.push(0);
    assert_eq!(to_utf16(s), expected);
}

#[test]
fn terminator_is_the_only_zero_without_nul() {
    let w = to_utf16("no nul here 😀");
    assert_eq!(w.last(), Some(&0));
    assert_eq!(w.iter().filter(|u| **u == 0).count(), 1);
}
