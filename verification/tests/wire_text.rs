use chat_app::bt::{Bt, FrameSymbol};
use chat_app::pty::{parse_initial_msg, HandlerError};
use chat_app::text::{
    chars_of, decimal_string, is_whitespace, join, parse_u16, split_lines, split_whitespace,
    string_from_chars, trim_chars,
};
use chat_app::types::{PUBLIC_ROOM_ID, PUBLIC_ROOM_ID_STR};
use chat_app::wire::{frame_data, header_size, parse_frame, TCP_FRAME_SIZE_HEADER};

fn chars(s: &str) -> Vec<char> {
    s.chars().collect()
}

fn words(s: &str) -> Vec<String> {
    split_whitespace(&chars(s)).iter().map(|w| w.iter().collect()).collect()
}

#[test]
fn frame_data_writes_big_endian_size_first() {
    assert_eq!(frame_data(&[7, 8, 9]), vec![0, 0, 0, 3, 7, 8, 9]);
    assert_eq!(frame_data(&[]), vec![0, 0, 0, 0]);
    let big = vec![1u8; 0x0102];
    let framed = frame_data(&big);
    assert_eq!(&framed[..4], &[0, 0, 1, 2]);
    assert_eq!(framed.len(), 4 + 0x0102);
}

#[test]
fn header_size_reads_big_endian() {
    assert_eq!(TCP_FRAME_SIZE_HEADER, 4);
    assert_eq!(header_size(&[0, 0, 0, 5]), 5);
    assert_eq!(header_size(&[1, 2, 3, 4]), 0x01020304);
    assert_eq!(header_size(&[0xff, 0xff, 0xff, 0xff]), 0xffff_ffff);
}

#[test]
fn parse_frame_reads_back_a_frame() {
    let mut buf = frame_data(b"hello");
    buf.extend_from_slice(b"rest");
    let (payload, used) = parse_frame(&buf).unwrap();
    assert_eq!(payload, b"hello".to_vec());
    assert_eq!(used, 9);
}

#[test]
fn parse_frame_waits_for_complete_frames() {
    assert_eq!(parse_frame(&[0, 0, 0]), None);
    assert_eq!(parse_frame(&[0, 0, 0, 3, 1, 2]), None);
    assert_eq!(parse_frame(&[0, 0, 0, 0]), Some((vec![], 4)));
}

#[test]
fn parse_initial_msg_reads_two_numbers() {
    assert_eq!(parse_initial_msg(Some("80 24")), Ok((80, 24)));
    assert_eq!(parse_initial_msg(Some("  120\t40\n")), Ok((120, 40)));
    assert_eq!(parse_initial_msg(Some("+5 7 extra")), Ok((5, 7)));
    assert_eq!(parse_initial_msg(Some("65535 0")), Ok((65535, 0)));
}

#[test]
fn parse_initial_msg_refuses_bad_messages() {
    let bad = Err(HandlerError::InvalidDimentionsMessage);
    assert_eq!(parse_initial_msg(None), bad);
    assert_eq!(parse_initial_msg(Some("")), bad);
    assert_eq!(parse_initial_msg(Some("80")), bad);
    assert_eq!(parse_initial_msg(Some("x 24")), bad);
    assert_eq!(parse_initial_msg(Some("80 -1")), bad);
    assert_eq!(parse_initial_msg(Some("70000 24")), bad);
    assert_eq!(parse_initial_msg(Some("+ 24")), bad);
}

#[test]
fn dimensions_written_then_read_give_the_same_size() {
    for (x, y) in [(0u16, 0u16), (80, 24), (65535, 1), (1000, 9)] {
        let msg = format!("{} {}", x, y);
        assert_eq!(parse_initial_msg(Some(&msg)), Ok((x, y)));
    }
}

#[test]
fn parse_u16_matches_std() {
    for s in ["0", "42", "+42", "65535", "65536", "", "+", "4a", "007", "-3", "99999999999"] {
        assert_eq!(parse_u16(&chars(s)), s.parse::<u16>().ok(), "input {:?}", s);
    }
}

#[test]
fn decimal_string_matches_format() {
    for n in [0u32, 7, 10, 99, 12345, u32::MAX] {
        assert_eq!(decimal_string(n), format!("{}", n));
    }
    for n in [0u16, 1, 65535] {
        assert_eq!(parse_u16(&chars(&decimal_string(n as u32))), Some(n));
    }
}

#[test]
fn whitespace_follows_unicode() {
    for c in [' ', '\t', '\n', '\r', '\u{a0}', '\u{2003}', '\u{3000}', '\u{85}'] {
        assert!(is_whitespace(c));
        assert_eq!(is_whitespace(c), c.is_whitespace());
    }
    for c in ['a', '0', '_', '\u{200b}'] {
        assert_eq!(is_whitespace(c), c.is_whitespace());
    }
}

#[test]
fn split_whitespace_matches_std() {
    for s in ["", "   ", "a b", "  a\t\tb  c\n", "one"] {
        let ours = words(s);
        let std_words: Vec<String> = s.split_whitespace().map(|w| w.to_string()).collect();
        assert_eq!(ours, std_words);
    }
}

#[test]
fn trim_matches_std() {
    for s in ["", "  ", " a b ", "\ta\n", "abc"] {
        let t: String = trim_chars(&chars(s)).iter().collect();
        assert_eq!(t, s.trim());
    }
}

#[test]
fn split_lines_matches_std() {
    for s in ["", "a", "a\nb", "a\r\nb\n", "\n\n", "x\r"] {
        let ours: Vec<String> =
            split_lines(&chars(s)).iter().map(|l| l.iter().collect()).collect();
        let std_lines: Vec<String> = s.lines().map(|l| l.to_string()).collect();
        assert_eq!(ours, std_lines, "input {:?}", s);
    }
}

#[test]
fn join_puts_separator_between_lines() {
    let lines = vec!["a".to_string(), "b".to_string(), "c".to_string()];
    assert_eq!(join(&lines, "\n"), "a\nb\nc");
    assert_eq!(join(&lines, ""), "abc");
    assert_eq!(join(&[], "-"), "");
}

#[test]
fn chars_roundtrip() {
    let v = chars_of("héllo");
    assert_eq!(v, vec!['h', 'é', 'l', 'l', 'o']);
    assert_eq!(string_from_chars(&v), "héllo");
}

#[test]
fn public_room_id_matches_its_text() {
    let parsed = uuid::Uuid::parse_str(PUBLIC_ROOM_ID_STR).unwrap();
    assert_eq!(parsed.as_u128(), PUBLIC_ROOM_ID);
}

#[test]
fn bt_names_first_located_frame() {
    let symbols = vec![
        FrameSymbol { file: None, line: Some(3) },
        FrameSymbol { file: Some("src/a.rs".to_string()), line: None },
        FrameSymbol { file: Some("src/server.rs".to_string()), line: Some(42) },
        FrameSymbol { file: Some("src/other.rs".to_string()), line: Some(7) },
    ];
    let bt = Bt::new(symbols, None, "trace".to_string());
    assert_eq!(bt.text(), "\nlocation: src/server.rs:42");
}

#[test]
fn bt_adds_backtrace_when_asked() {
    let symbols = vec![FrameSymbol { file: Some("f.rs".to_string()), line: Some(12) }];
    let bt = Bt::new(symbols, Some("1".to_string()), "frames".to_string());
    assert_eq!(bt.text(), "\nlocation: f.rs:12\nbacktrace: \nframes");
    let symbols = vec![FrameSymbol { file: Some("f.rs".to_string()), line: Some(12) }];
    let bt = Bt::new(symbols, Some("full".to_string()), "frames".to_string());
    assert_eq!(bt.text(), "\nlocation: f.rs:12");
}

#[test]
fn bt_without_location() {
    let bt = Bt::new(vec![], Some("1".to_string()), "frames".to_string());
    assert_eq!(bt.text(), "(location unknown)");
}

fn sym(file: &str, line: Option<u32>) -> FrameSymbol {
    FrameSymbol { file: Some(file.to_string()), line }
}

#[test]
fn frames_skip_the_two_innermost() {
    let frames = vec![
        vec![sym("capture.rs", Some(1))],
        vec![sym("bt.rs", Some(2))],
        vec![sym("inlined.rs", None), sym("server.rs", Some(42))],
        vec![sym("main.rs", Some(9))],
    ];
    let bt = Bt::from_frames(frames, None, "trace".to_string());
    assert_eq!(bt.text(), "\nlocation: server.rs:42");
}

#[test]
fn frames_with_only_the_capture_have_no_location() {
    let frames = vec![vec![sym("capture.rs", Some(1))], vec![sym("bt.rs", Some(2))]];
    let bt = Bt::from_frames(frames, Some("1".to_string()), "trace".to_string());
    assert_eq!(bt.text(), "(location unknown)");
    let bt = Bt::from_frames(vec![vec![sym("a.rs", Some(3))]], None, String::new());
    assert_eq!(bt.text(), "(location unknown)");
    let frames = vec![vec![], vec![], vec![sym("c.rs", Some(5))], vec![]];
    let bt = Bt::from_frames(frames, Some("1".to_string()), "frames".to_string());
    assert_eq!(bt.text(), "\nlocation: c.rs:5\nbacktrace: \nframes");
}

#[test]
fn captured_location_has_the_location_form() {
    let text = Bt::capture(None).text();
    assert!(text == "(location unknown)" || text.starts_with("\nlocation: "));
    assert!(!text.contains("\nbacktrace: \n"));
    let full = Bt::capture(Some("1".to_string())).text();
    assert!(full == "(location unknown)" || full.contains("\nbacktrace: \n"));
}
