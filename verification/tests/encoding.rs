use chatgpt_timezone_launcher::encoding::{
    encode_utf16_str, parse_u32, utf16_buffer_to_string, utf16_to_string_lossy, wide,
};

#[test]
fn wide_strings_are_nul_terminated_utf16() {
    assert_eq!(wide("TZ"), vec![b'T' as u16, b'Z' as u16, 0]);
    let expected: Vec<u16> = "时区 😀".encode_utf16().chain(Some(0)).collect();
    assert_eq!(wide("时区 😀"), expected);
    assert_eq!(wide(""), vec![0]);
    assert_eq!(encode_utf16_str("a😀"), vec![0x61, 0xD83D, 0xDE00]);
}

#[test]
fn utf16_buffers_stop_at_the_first_nul() {
    let mut buffer: Vec<u16> = "ChatGPT.exe".encode_utf16().collect();
    buffer.extend([0, b'x' as u16, b'y' as u16]);
    assert_eq!(utf16_buffer_to_string(&buffer), "ChatGPT.exe");
    let full: Vec<u16> = "Codex.exe".encode_utf16().collect();
    assert_eq!(utf16_buffer_to_string(&full), "Codex.exe");
    assert_eq!(utf16_buffer_to_string(&[0, 65]), "");
}

#[test]
fn lone_surrogates_become_replacement_characters() {
    let units = [0xD83D, 0x41, 0xDE00, 0xD83D, 0xDE00];
    assert_eq!(utf16_to_string_lossy(&units), String::from_utf16_lossy(&units));
    assert_eq!(utf16_to_string_lossy(&units), "\u{FFFD}A\u{FFFD}😀");
    let tail = [0x42, 0xD800];
    assert_eq!(utf16_to_string_lossy(&tail), "B\u{FFFD}");
}

#[test]
fn wide_text_reads_back_unchanged() {
    for text in ["", "Asia/Shanghai", "C:\\Program Files\\Codex 时区\\ChatGPT.exe", "𝄞x"] {
        assert_eq!(utf16_buffer_to_string(&wide(text)), text);
    }
}

#[test]
fn decimal_parsing_matches_std() {
    for text in ["0", "42", "+42", "4294967295", "4294967296", "", "+", "-1", "1a", "007"] {
        assert_eq!(parse_u32(text), text.parse::<u32>().ok(), "{text:?}");
    }
}
