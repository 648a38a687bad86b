use nets_monitor::text::{
    chars_of, contains, has_prefix, lowercase, parse_i32, parse_u16, push_decimal,
    push_signed_decimal, push_text, same_chars, slice_of, spells, spells_ignoring_case, split_on,
    split_whitespace, str_eq, string_of, trimmed, trimmed_end, trimmed_start, CharSet,
};

fn strings(pieces: Vec<Vec<char>>) -> Vec<String> {
    pieces.iter().map(string_of).collect()
}

#[test]
fn texts_convert_both_ways() {
    assert_eq!(chars_of("aß€😀"), vec!['a', 'ß', '€', '😀']);
    assert_eq!(string_of(&vec!['a', 'ß', '€', '😀']), "aß€😀");
    assert_eq!(string_of(&chars_of("")), "");
    assert!(str_eq("abc", "abc"));
    assert!(!str_eq("abc", "abd"));
    assert!(!str_eq("abc", "ab"));
    assert!(spells(&chars_of("LISTEN"), "LISTEN"));
    assert!(!spells(&chars_of("LISTEN"), "listen"));
    assert!(same_chars(&chars_of("x"), &chars_of("x")));
    assert!(!same_chars(&chars_of("x"), &chars_of("xy")));
    assert_eq!(string_of(&slice_of(&chars_of("abcdef"), 2, 4)), "cd");
}

#[test]
fn words_are_cut_at_white_space() {
    assert_eq!(strings(split_whitespace(&chars_of("  a\tbc \r\n d  "))), vec!["a", "bc", "d"]);
    assert_eq!(strings(split_whitespace(&chars_of("one"))), vec!["one"]);
    assert!(split_whitespace(&chars_of("")).is_empty());
    assert!(split_whitespace(&chars_of(" \u{a0}\u{3000}\u{2009} ")).is_empty());
    assert_eq!(strings(split_whitespace(&chars_of("a\u{2028}b\u{85}c"))), vec!["a", "b", "c"]);
    assert_eq!(strings(split_whitespace(&chars_of("a\u{200b}b"))), vec!["a\u{200b}b"]);
    let sample = " x  yy\tzzz\u{1680}w ";
    let expected: Vec<String> = sample.split_whitespace().map(|s| s.to_string()).collect();
    assert_eq!(strings(split_whitespace(&chars_of(sample))), expected);
}

#[test]
fn splitting_keeps_empty_pieces() {
    assert_eq!(strings(split_on(&chars_of("a,b,,c,"), ',')), vec!["a", "b", "", "c", ""]);
    assert_eq!(strings(split_on(&chars_of(""), ',')), vec![""]);
    assert_eq!(strings(split_on(&chars_of(","), ',')), vec!["", ""]);
    assert_eq!(strings(split_on(&chars_of("abc"), ',')), vec!["abc"]);
}

#[test]
fn trimming_takes_runs_off_the_ends() {
    assert_eq!(string_of(&trimmed(&chars_of("\"\"x\"y\""), CharSet::Just('"'))), "x\"y");
    assert_eq!(string_of(&trimmed(&chars_of("  x y \t"), CharSet::Whitespace)), "x y");
    assert_eq!(string_of(&trimmed(&chars_of("[[a]b]"), CharSet::OneOf('[', ']'))), "a]b");
    assert_eq!(string_of(&trimmed(&chars_of("\"\"\""), CharSet::Just('"'))), "");
    assert_eq!(string_of(&trimmed_start(&chars_of("[[a]]"), CharSet::Just('['))), "a]]");
    assert_eq!(string_of(&trimmed_end(&chars_of("[[a]]"), CharSet::Just(']'))), "[[a");
    assert_eq!(string_of(&trimmed_end(&chars_of("a/b/c"), CharSet::NoneOf('/', '\\'))), "a/b/");
    assert_eq!(string_of(&trimmed_start(&chars_of("abc:d"), CharSet::AllBut(':'))), ":d");
    assert_eq!(string_of(&trimmed(&chars_of(" ab "), CharSet::Visible)), " ab ");
}

#[test]
fn prefixes_and_substrings() {
    assert!(has_prefix(&chars_of("regex(a)"), &chars_of("regex(")));
    assert!(has_prefix(&chars_of("abc"), &chars_of("")));
    assert!(!has_prefix(&chars_of("reg"), &chars_of("regex(")));
    assert!(!has_prefix(&chars_of("Regex(a)"), &chars_of("regex(")));
    assert!(contains(&chars_of("my-nginx-build"), &chars_of("nginx")));
    assert!(contains(&chars_of("abc"), &chars_of("")));
    assert!(contains(&chars_of("abc"), &chars_of("abc")));
    assert!(contains(&chars_of("aab"), &chars_of("ab")));
    assert!(!contains(&chars_of("abc"), &chars_of("abcd")));
    assert!(!contains(&chars_of("abc"), &chars_of("ac")));
    assert!(!contains(&chars_of(""), &chars_of("a")));
}

#[test]
fn case_is_folded_for_ascii_letters_only() {
    assert_eq!(string_of(&lowercase(&chars_of("Chrome.EXE [Z@`{] ÄÖ"))), "chrome.exe [z@`{] ÄÖ");
    assert!(spells_ignoring_case(&chars_of("TcP"), "tcp"));
    assert!(spells_ignoring_case(&chars_of("udp"), "UDP"));
    assert!(!spells_ignoring_case(&chars_of("tcp6"), "tcp"));
    assert!(!spells_ignoring_case(&chars_of("t\u{441}p"), "tcp"));
}

#[test]
fn numerals_are_written_without_leading_zeros() {
    let mut out = String::from("n=");
    push_decimal(&mut out, 0);
    push_text(&mut out, ",");
    push_decimal(&mut out, 7);
    push_text(&mut out, ",");
    push_decimal(&mut out, 65535);
    push_text(&mut out, ",");
    push_decimal(&mut out, u64::MAX);
    push_text(&mut out, ",");
    push_signed_decimal(&mut out, -1);
    push_text(&mut out, ",");
    push_signed_decimal(&mut out, i64::MIN);
    push_text(&mut out, ",");
    push_signed_decimal(&mut out, i64::MAX);
    assert_eq!(
        out,
        "n=0,7,65535,18446744073709551615,-1,-9223372036854775808,9223372036854775807"
    );
    for n in [0u64, 9, 10, 99, 100, 101, 999, 1000, 12345678901234567890] {
        let mut text = String::new();
        push_decimal(&mut text, n);
        assert_eq!(text, n.to_string());
    }
}

#[test]
fn numbers_are_read_as_the_standard_library_reads_them() {
    for text in [
        "0", "00", "007", "80", "+80", "65535", "65536", "065535", "-0", "-1", "", "+", "-", "++1",
        "1 ", " 1", "1a", "٣", "99999999999999999999999999",
    ] {
        assert_eq!(parse_u16(&chars_of(text)), text.parse::<u16>().ok(), "{:?}", text);
    }
    for text in [
        "0", "-0", "+0", "42", "-42", "+42", "2147483647", "2147483648", "-2147483648",
        "-2147483649", "0002147483647", "", "+", "-", "--1", "+-1", "1_000", "0x10",
        "99999999999999999999999999", "-99999999999999999999999999",
    ] {
        assert_eq!(parse_i32(&chars_of(text)), text.parse::<i32>().ok(), "{:?}", text);
    }
}
