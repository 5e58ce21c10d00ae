use whatsapp_sender::format::format_text;
use whatsapp_sender::template::MessageHandler;
use whatsapp_sender::text::{
    chars_of, ends_with, is_digit_char, is_whitespace_char, push_decimal, push_range, push_text,
    same_text, string_of,
};

fn format(message: &str) -> String {
    MessageHandler::new().format_message(message)
}

fn patterns() -> (regex::Regex, regex::Regex, regex::Regex) {
    (
        regex::Regex::new(r"\s+").unwrap(),
        regex::Regex::new(r"(\n)(\S)").unwrap(),
        regex::Regex::new(r"\n{3,}").unwrap(),
    )
}

/// The four steps, one after the other: whitespace runs collapse, to one
/// space or to the line breaks they hold; a line break before a word gets a
/// second one; three or more line breaks are cut to two; the ends are
/// trimmed.
fn stepwise(patterns: &(regex::Regex, regex::Regex, regex::Regex), message: &str) -> String {
    let message = patterns.0.replace_all(message, |run: &regex::Captures| {
        let breaks = run[0].chars().filter(|c| *c == '\n').count();
        if breaks == 0 {
            " ".to_string()
        } else {
            "\n".repeat(breaks)
        }
    });
    let message = patterns.1.replace_all(&message, "$1\n$2");
    let message = patterns.2.replace_all(&message, "\n\n");
    message.trim().to_string()
}

const SAMPLES: [&str; 18] = [
    "",
    " ",
    "a",
    "  Hello   world  ",
    "Hello\nworld",
    "Hello\n\n\n\nworld",
    "line one\n\nline two\n   \n\n\nline three\n",
    "\t tabs\tand\r\nbreaks \u{a0}\u{2003} wide \u{3000}",
    "\n\n\n",
    "a \n b",
    "Olá {nome}, tudo bem?\n\nAguardo seu retorno!",
    "x\u{85}y\u{1680}z\u{2028}w\u{2029}v\u{202f}u\u{205f}t",
    "zero\u{200b}width and\u{feff}bom stay",
    "\u{180e}not white\u{180e}",
    "trailing \n",
    " \n leading",
    "one\n\ntwo\n\nthree",
    "a b\n\nc d",
];

#[test]
fn format_keeps_paragraph_breaks() {
    assert_eq!(format("a\n\nb"), "a\n\nb");
    assert_eq!(format("Hello\n\n\n\nworld"), "Hello\n\nworld");
    assert_eq!(format("first paragraph\n\n\nsecond paragraph"), "first paragraph\n\nsecond paragraph");
    assert_eq!(format("a \n \t \n b"), "a\n\nb");
    assert_eq!(format("one\n\ntwo\n\n\n\n\nthree"), "one\n\ntwo\n\nthree");
}

#[test]
fn format_gives_a_lone_line_break_its_pair() {
    assert_eq!(format("Hello\nworld"), "Hello\n\nworld");
    assert_eq!(format("a \r\n b"), "a\n\nb");
}

#[test]
fn format_collapses_whitespace_without_line_break_to_one_space() {
    assert_eq!(format("  Hello   world  "), "Hello world");
    assert_eq!(format("a\t \u{3000}b"), "a b");
    assert_eq!(format("a b"), "a b");
    assert_eq!(format("\t a \r\n b \u{3000} c\n"), "a\n\nb c");
}

#[test]
fn format_trims_both_ends() {
    assert_eq!(format("\n\n a \n\n"), "a");
    assert_eq!(format("  a"), "a");
    assert_eq!(format("a\n"), "a");
    assert_eq!(format(""), "");
    assert_eq!(format(" \n\t "), "");
    assert_eq!(format("\n\n\n"), "");
}

#[test]
fn format_leaves_a_formatted_message_alone() {
    assert_eq!(format("already fine"), "already fine");
    assert_eq!(format("one\n\ntwo three"), "one\n\ntwo three");
    assert_eq!(
        format("Olá {nome}, tudo bem?\n\nAguardo seu retorno!"),
        "Olá {nome}, tudo bem?\n\nAguardo seu retorno!"
    );
}

#[test]
fn format_never_leaves_three_line_breaks_or_two_spaces() {
    for sample in SAMPLES {
        let out = format(sample);
        assert!(!out.contains("\n\n\n"), "message {:?}", sample);
        assert!(!out.contains("  "), "message {:?}", sample);
        assert_eq!(out.trim(), out, "message {:?}", sample);
    }
}

#[test]
fn format_is_idempotent() {
    for sample in SAMPLES {
        let once = format(sample);
        assert_eq!(format(&once), once, "message {:?}", sample);
    }
}

#[test]
fn format_agrees_with_the_four_steps() {
    let patterns = patterns();
    for sample in SAMPLES {
        assert_eq!(format(sample), stepwise(&patterns, sample), "message {:?}", sample);
    }
}

#[test]
fn format_agrees_with_the_four_steps_on_all_short_texts() {
    let patterns = patterns();
    let alphabet = [' ', '\n', 'a', '\t', '\u{a0}'];
    for len in 0..=6usize {
        let mut count: usize = 1;
        for _ in 0..len {
            count *= alphabet.len();
        }
        for code in 0..count {
            let mut text = String::new();
            let mut rest = code;
            for _ in 0..len {
                text.push(alphabet[rest % alphabet.len()]);
                rest /= alphabet.len();
            }
            let once = format(&text);
            assert_eq!(once, stepwise(&patterns, &text), "message {:?}", text);
            assert_eq!(format(&once), once, "message {:?}", text);
        }
    }
}

#[test]
fn format_text_is_format_message() {
    for sample in SAMPLES {
        assert_eq!(format_text(sample), format(sample));
    }
}

#[test]
fn whitespace_is_what_std_calls_whitespace() {
    let mut code: u32 = 0;
    while code <= 0x10FFFF {
        if let Some(c) = char::from_u32(code) {
            assert_eq!(is_whitespace_char(c), c.is_whitespace(), "U+{:04X}", code);
        }
        code += 1;
    }
}

#[test]
fn whitespace_is_what_the_regex_crate_calls_whitespace() {
    let white = regex::Regex::new(r"^\s$").unwrap();
    let mut code: u32 = 0;
    let mut buffer = [0u8; 4];
    while code <= 0x10FFFF {
        if let Some(c) = char::from_u32(code) {
            let text: &str = c.encode_utf8(&mut buffer);
            assert_eq!(is_whitespace_char(c), white.is_match(text), "U+{:04X}", code);
        }
        code += if code < 0x3100 { 1 } else { 61 };
    }
}

#[test]
fn digits_are_the_ascii_digits() {
    let mut code: u32 = 0;
    while code <= 0x10FFFF {
        if let Some(c) = char::from_u32(code) {
            assert_eq!(is_digit_char(c), c.is_digit(10), "U+{:04X}", code);
        }
        code += 1;
    }
}

#[test]
fn chars_and_strings_convert_both_ways() {
    assert_eq!(chars_of("aé\n"), vec!['a', 'é', '\n']);
    assert_eq!(string_of(&vec!['a', 'é', '\n']), "aé\n");
    assert_eq!(string_of(&Vec::new()), "");
}

#[test]
fn push_helpers_append() {
    let mut out = String::from("x");
    push_text(&mut out, "yz");
    assert_eq!(out, "xyz");
    push_range(&mut out, &vec!['a', 'b', 'c', 'd'], 1, 3);
    assert_eq!(out, "xyzbc");
    push_decimal(&mut out, 0);
    push_decimal(&mut out, 7);
    push_decimal(&mut out, 10);
    push_decimal(&mut out, 1234567890);
    assert_eq!(out, "xyzbc07101234567890");
}

#[test]
fn push_decimal_agrees_with_to_string() {
    for n in [0usize, 1, 9, 10, 11, 99, 100, 101, 999, 1000, 65535, usize::MAX] {
        let mut out = String::new();
        push_decimal(&mut out, n);
        assert_eq!(out, n.to_string());
    }
}

#[test]
fn same_text_compares_characters() {
    assert!(same_text("", ""));
    assert!(same_text("añb", "añb"));
    assert!(!same_text("a", "b"));
    assert!(!same_text("a", "ab"));
    assert!(!same_text("ab", "a"));
}

#[test]
fn ends_with_compares_the_tail() {
    assert!(ends_with("file.xlsx", ".xlsx"));
    assert!(ends_with("file.xlsx", ""));
    assert!(ends_with(".xlsx", ".xlsx"));
    assert!(!ends_with("xlsx", ".xlsx"));
    assert!(!ends_with("file.xlsx", ".xls"));
    assert!(!ends_with("", "a"));
}
