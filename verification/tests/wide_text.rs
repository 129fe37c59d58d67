use newtoast_core::util::wide::{
    encode_wide, encode_wide_nul, parse_hstr_wide, text_units, HostString,
};

#[test]
fn encode_wide_keeps_ascii_units() {
    assert_eq!(encode_wide("NT.dll"), vec![0x4E, 0x54, 0x2E, 0x64, 0x6C, 0x6C]);
}

#[test]
fn encode_wide_of_empty_text_is_empty() {
    assert_eq!(encode_wide(""), Vec::<u16>::new());
}

#[test]
fn encode_wide_uses_one_unit_below_the_surrogates() {
    assert_eq!(encode_wide("\u{00E9}\u{4E2D}\u{FFFD}"), vec![0x00E9, 0x4E2D, 0xFFFD]);
    assert_eq!(encode_wide("\u{D7FF}\u{E000}"), vec![0xD7FF, 0xE000]);
}

#[test]
fn encode_wide_uses_a_surrogate_pair_above_the_plane() {
    assert_eq!(encode_wide("\u{10000}"), vec![0xD800, 0xDC00]);
    assert_eq!(encode_wide("\u{1F600}"), vec![0xD83D, 0xDE00]);
    assert_eq!(encode_wide("\u{10FFFF}"), vec![0xDBFF, 0xDFFF]);
}

#[test]
fn encode_wide_agrees_with_the_standard_encoder() {
    let text = "C:\\Programme\\d\u{00F6}tnet\\host\u{1F600}\\fxr";
    let expected: Vec<u16> = text.encode_utf16().collect();
    assert_eq!(encode_wide(text), expected);
}

#[test]
fn encode_wide_nul_appends_the_terminator() {
    assert_eq!(encode_wide_nul("ab"), vec![0x61, 0x62, 0]);
    assert_eq!(encode_wide_nul(""), vec![0]);
}

#[test]
fn text_units_stop_at_the_first_terminator() {
    let buffer = vec![0x61, 0x62, 0, 0x63, 0];
    assert_eq!(text_units(&buffer, 5), vec![0x61, 0x62]);
}

#[test]
fn text_units_stop_at_the_given_length() {
    let buffer = vec![0x61, 0x62, 0x63, 0x64];
    assert_eq!(text_units(&buffer, 2), vec![0x61, 0x62]);
    assert_eq!(text_units(&buffer, 0), Vec::<u16>::new());
}

#[test]
fn text_units_take_a_short_buffer_whole() {
    let buffer = vec![0x61, 0x62];
    assert_eq!(text_units(&buffer, 100), vec![0x61, 0x62]);
}

#[test]
fn parse_hstr_wide_of_null_is_nothing() {
    assert_eq!(parse_hstr_wide(&HostString::null()), None);
    let stray = HostString { address: 0, units: vec![0x61] };
    assert_eq!(parse_hstr_wide(&stray), None);
}

#[test]
fn parse_hstr_wide_decodes_the_units() {
    let s = HostString { address: 0x1000, units: vec![0x47, 0x61, 0x6D, 0x65] };
    assert_eq!(parse_hstr_wide(&s), Some("Game".to_string()));
}

#[test]
fn parse_hstr_wide_of_an_empty_string_is_empty_text() {
    let s = HostString { address: 0x1000, units: vec![] };
    assert_eq!(parse_hstr_wide(&s), Some(String::new()));
}

#[test]
fn parse_hstr_wide_cuts_at_a_terminator() {
    let s = HostString { address: 8, units: vec![0x61, 0, 0x62] };
    assert_eq!(parse_hstr_wide(&s), Some("a".to_string()));
}

#[test]
fn parse_hstr_wide_joins_a_surrogate_pair() {
    let s = HostString { address: 8, units: vec![0xD83D, 0xDE00] };
    assert_eq!(parse_hstr_wide(&s), Some("\u{1F600}".to_string()));
}

#[test]
fn parse_hstr_wide_replaces_a_lone_high_surrogate() {
    let s = HostString { address: 8, units: vec![0xD800] };
    assert_eq!(parse_hstr_wide(&s), Some("\u{FFFD}".to_string()));
    let s = HostString { address: 8, units: vec![0xD800, 0x41] };
    assert_eq!(parse_hstr_wide(&s), Some("\u{FFFD}A".to_string()));
}

#[test]
fn parse_hstr_wide_replaces_a_lone_low_surrogate() {
    let s = HostString { address: 8, units: vec![0x41, 0xDC00, 0x42] };
    assert_eq!(parse_hstr_wide(&s), Some("A\u{FFFD}B".to_string()));
}

#[test]
fn parse_hstr_wide_replaces_each_unpaired_surrogate_by_itself() {
    let s = HostString { address: 8, units: vec![0xDC00, 0xD800] };
    assert_eq!(parse_hstr_wide(&s), Some("\u{FFFD}\u{FFFD}".to_string()));
    let s = HostString { address: 8, units: vec![0xD800, 0xD800, 0xDC00] };
    assert_eq!(parse_hstr_wide(&s), Some("\u{FFFD}\u{10000}".to_string()));
}

#[test]
fn decoding_an_encoded_text_gives_the_text_back() {
    let text = "NTF.Sp\u{00EF}el\u{1F3AE}, Ass\u{4E2D}mbly";
    let s = HostString { address: 0x20, units: encode_wide(text) };
    assert_eq!(parse_hstr_wide(&s), Some(text.to_string()));
}
