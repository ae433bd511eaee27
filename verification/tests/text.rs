use ao_chat_client::text::{
    find_char, is_ascii_space, is_space, same_text, split_char, split_lines, split_words,
    starts_with, trim,
};

#[test]
fn ascii_space_is_what_std_calls_ascii_whitespace() {
    for code in 0..=0x10FFFFu32 {
        if let Some(c) = char::from_u32(code) {
            assert_eq!(is_ascii_space(c), c.is_ascii_whitespace(), "U+{:04X}", code);
        }
    }
}

#[test]
fn space_is_what_std_calls_whitespace() {
    for code in 0..=0x10FFFFu32 {
        if let Some(c) = char::from_u32(code) {
            assert_eq!(is_space(c), c.is_whitespace(), "U+{:04X}", code);
        }
    }
}

#[test]
fn vertical_tab_is_space_but_not_ascii_space() {
    assert!(is_space('\u{B}'));
    assert!(!is_ascii_space('\u{B}'));
}

#[test]
fn find_char_gives_first_index_or_length() {
    assert_eq!(find_char("a=b=c", '=', 0), 1);
    assert_eq!(find_char("a=b=c", '=', 1), 1);
    assert_eq!(find_char("a=b=c", '=', 2), 3);
    assert_eq!(find_char("a=b=c", '=', 4), 5);
    assert_eq!(find_char("a=b=c", '=', 5), 5);
    assert_eq!(find_char("", '=', 0), 0);
}

#[test]
fn find_char_counts_characters_not_bytes() {
    assert_eq!(find_char("äö=ü", '=', 0), 2);
}

#[test]
fn words_are_runs_between_ascii_whitespace() {
    assert_eq!(split_words("  a\tbc\n d \r\u{C}e "), vec!["a", "bc", "d", "e"]);
    assert_eq!(split_words(""), Vec::<&str>::new());
    assert_eq!(split_words(" \t\n"), Vec::<&str>::new());
    assert_eq!(split_words("one"), vec!["one"]);
}

#[test]
fn words_are_not_cut_at_other_whitespace() {
    assert_eq!(split_words("a\u{A0}b c\u{B}d"), vec!["a\u{A0}b", "c\u{B}d"]);
}

#[test]
fn words_agree_with_std() {
    for s in ["", " ", "a", " a", "a ", "a b", "  a  b  ", "ä ö\tü", "\u{2003}x y\u{2003}", "a\nb\r\nc"] {
        assert_eq!(split_words(s), s.split_ascii_whitespace().collect::<Vec<_>>(), "{:?}", s);
    }
}

#[test]
fn trim_drops_whitespace_at_both_ends() {
    assert_eq!(trim("  hi there \n"), "hi there");
    assert_eq!(trim("\u{3000}\u{A0}x\u{2028}"), "x");
    assert_eq!(trim("x"), "x");
    assert_eq!(trim(""), "");
    assert_eq!(trim(" \t "), "");
}

#[test]
fn trim_agrees_with_std() {
    for s in ["", " ", "a", " a", "a ", " a b ", "\u{85}a\u{85}", "\u{B}a", "a\u{1680}", "  "] {
        assert_eq!(trim(s), s.trim(), "{:?}", s);
    }
}

#[test]
fn split_char_gives_one_piece_more_than_cuts() {
    assert_eq!(split_char("a\nb", '\n'), vec!["a", "b"]);
    assert_eq!(split_char("a\nb\n", '\n'), vec!["a", "b", ""]);
    assert_eq!(split_char("\n", '\n'), vec!["", ""]);
    assert_eq!(split_char("", '\n'), vec![""]);
    assert_eq!(split_char("KEY=a=b", '='), vec!["KEY", "a", "b"]);
}

#[test]
fn split_char_agrees_with_std() {
    for s in ["", "=", "a", "a=", "=a", "a=b", "a==b", "==", "ä=ö"] {
        assert_eq!(split_char(s, '='), s.split('=').collect::<Vec<_>>(), "{:?}", s);
    }
}

#[test]
fn lines_end_with_line_feed_or_carriage_return_and_line_feed() {
    assert_eq!(split_lines("a\r\nb\n\nc"), vec!["a", "b", "", "c"]);
    assert_eq!(split_lines("a\n"), vec!["a"]);
    assert_eq!(split_lines(""), Vec::<&str>::new());
    assert_eq!(split_lines("\n"), vec![""]);
}

#[test]
fn lines_keep_a_lone_carriage_return() {
    assert_eq!(split_lines("a\rb"), vec!["a\rb"]);
    assert_eq!(split_lines("x\r"), vec!["x\r"]);
    assert_eq!(split_lines("x\r\r\ny"), vec!["x\r", "y"]);
}

#[test]
fn lines_agree_with_std() {
    for s in ["", "\n", "a", "a\n", "a\nb", "a\r\nb", "a\r", "\r\n", "\r", "a\n\n", "ä\r\nö\n", "a\r\r\n"] {
        assert_eq!(split_lines(s), s.lines().collect::<Vec<_>>(), "{:?}", s);
    }
}

#[test]
fn starts_with_compares_the_front() {
    assert!(starts_with("CHARNAME=x", "CHARNAME"));
    assert!(starts_with("CHARNAME", "CHARNAME"));
    assert!(starts_with("x", ""));
    assert!(!starts_with("CHARNAM", "CHARNAME"));
    assert!(!starts_with(" CHARNAME", "CHARNAME"));
}

#[test]
fn same_text_compares_all_characters() {
    assert!(same_text("tell", "tell"));
    assert!(same_text("", ""));
    assert!(!same_text("tell", "tel"));
    assert!(!same_text("tell", "telL"));
}
