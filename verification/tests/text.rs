use mcp_runner::text::{
    decimal_string, has_text, join_strings, parse_u64, push_decimal_int, same_text, split_lines,
    split_text, trim_end, trim_end_of, whitespace,
};

#[test]
fn white_space_is_that_of_unicode() {
    for c in '\0'..=char::MAX {
        assert_eq!(whitespace(c), c.is_whitespace(), "{:?}", c);
    }
}

#[test]
fn lines_end_as_in_std() {
    for s in ["", "\n", "a", "a\n", "a\r\nb", "a\rb\r\n\r\n", "\r", "a\r", "\r\r\n", "x\n\ny\n\n"] {
        assert_eq!(split_lines(s), s.lines().collect::<Vec<_>>(), "{:?}", s);
        assert_eq!(split_text(s, '\n'), s.split('\n').collect::<Vec<_>>(), "{:?}", s);
        assert_eq!(trim_end(s), s.trim_end(), "{:?}", s);
        assert_eq!(trim_end_of(s, '\r'), s.trim_end_matches('\r'), "{:?}", s);
    }
}

#[test]
fn text_is_found_as_in_std() {
    for s in ["", "a", "aab", "abab", "\u{e9}t\u{e9}"] {
        for p in ["", "a", "ab", "aab", "bab", "\u{e9}", "abc"] {
            assert_eq!(has_text(s, p), s.contains(p), "{:?} {:?}", s, p);
            assert_eq!(same_text(s, p), s == p, "{:?} {:?}", s, p);
        }
    }
}

#[test]
fn numbers_are_written_and_read() {
    for n in [0, 7, 10, 99, 100, 4711, u64::MAX] {
        assert_eq!(decimal_string(n), n.to_string());
        assert_eq!(parse_u64(&decimal_string(n)), Some(n));
    }
    for i in [0, -1, 42, i32::MAX, i32::MIN] {
        let mut s = String::from("x");
        push_decimal_int(&mut s, i);
        assert_eq!(s, format!("x{}", i));
    }
    for s in ["", "+", "-0", "1a", "+7", "007", "18446744073709551616", "99999999999999999999"] {
        assert_eq!(parse_u64(s), s.parse::<u64>().ok(), "{:?}", s);
    }
}

#[test]
fn strings_are_joined() {
    let list: Vec<String> = ["a", "", "b"].iter().map(|s| s.to_string()).collect();
    assert_eq!(join_strings(&list, ", "), "a, , b");
    assert_eq!(join_strings(&Vec::new(), ", "), "");
}
