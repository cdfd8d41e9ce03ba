use sys_info::number::{is_decimal, parse_u64, parse_u8, write_u8};
use sys_info::text::{
    chomped, copy_range, find, find_blank, folded, head_of, same, same_folded, space, split,
    split_lines, split_once, split_sections, strip_prefix, to_chars, to_text, to_texts, trimmed,
    unquoted,
};

fn strings(parts: &Vec<Vec<char>>) -> Vec<String> {
    parts.iter().map(|p| p.iter().collect()).collect()
}

const SAMPLES: [&str; 24] = [
    "",
    "a",
    "\n",
    "\n\n",
    "\n\n\n",
    "\n\n\n\n",
    "a\nb",
    "a\nb\n",
    "a\r\nb\r\n",
    "a\rb\r",
    "a\r\r\nb",
    "\r\n",
    "\r",
    "a\n\nb",
    "a\n\nb\n\n",
    "a\n\n\nb",
    "\n\na\n\n\n\nb\n",
    "  padded  ",
    "\t tab \u{a0}\u{2003}\u{3000}",
    "\u{85}x\u{1680}y\u{2028}\u{2029}\u{202f}\u{205f}",
    "\u{200b}zero width\u{200b}",
    "key : value : more",
    "a  b   c ",
    "héllo wörld\nnaïve\n",
];

#[test]
fn characters_round_trip() {
    for s in SAMPLES {
        let chars = to_chars(s);
        assert_eq!(chars, s.chars().collect::<Vec<char>>());
        assert_eq!(to_text(&chars), s);
    }
    assert_eq!(to_text(&vec!['a', 'é', '\n', '𝄞']), "aé\n𝄞");
    assert_eq!(to_texts(&vec![vec!['a', 'b'], vec![], vec!['c']]), vec!["ab", "", "c"]);
}

#[test]
fn lines_are_the_lines_of_std() {
    for s in SAMPLES {
        let expected: Vec<String> = s.lines().map(|l| l.to_string()).collect();
        assert_eq!(strings(&split_lines(&to_chars(s))), expected, "text {:?}", s);
    }
}

#[test]
fn sections_are_the_pieces_between_blank_lines() {
    for s in SAMPLES {
        let expected: Vec<String> = s.split("\n\n").map(|l| l.to_string()).collect();
        assert_eq!(strings(&split_sections(&to_chars(s))), expected, "text {:?}", s);
    }
}

#[test]
fn pieces_are_the_split_of_std() {
    for s in SAMPLES {
        for c in [' ', '\n', ':', 'a'] {
            let expected: Vec<String> = s.split(c).map(|l| l.to_string()).collect();
            assert_eq!(strings(&split(&to_chars(s), c)), expected, "text {:?} at {:?}", s, c);
        }
    }
}

#[test]
fn trimming_is_the_trim_of_std() {
    for s in SAMPLES {
        assert_eq!(to_text(&trimmed(&to_chars(s))), s.trim(), "text {:?}", s);
    }
}

#[test]
fn white_space_is_the_white_space_of_std() {
    let mut code: u32 = 0;
    while code <= 0x11000 {
        if let Some(c) = char::from_u32(code) {
            assert_eq!(space(c), c.is_whitespace(), "character {:x}", code);
        }
        code += 1;
    }
}

#[test]
fn folding_is_the_ascii_lower_case() {
    let mut code: u32 = 0;
    while code <= 0x2200 {
        if let Some(c) = char::from_u32(code) {
            assert_eq!(folded(c), c.to_ascii_lowercase() as u32, "character {:x}", code);
        }
        code += 1;
    }
    assert!(same_folded(&to_chars("CPU MHz"), "cpu mhz"));
    assert!(same_folded(&to_chars("cpu mhz"), "CPU MHZ"));
    assert!(!same_folded(&to_chars("cpu mhz "), "cpu mhz"));
    assert!(!same_folded(&to_chars("cpu_mhz"), "cpu mhz"));
    // The Kelvin sign is no ASCII letter.
    assert!(!same_folded(&to_chars("\u{212a}"), "k"));
    assert!(same(&to_chars("abc"), "abc"));
    assert!(!same(&to_chars("abc"), "abC"));
    assert!(!same(&to_chars("abc"), "ab"));
    assert!(same(&to_chars(""), ""));
}

#[test]
fn splitting_once_is_the_split_once_of_std() {
    for s in SAMPLES {
        for c in [':', ' ', '=', '\n'] {
            let expected = s.split_once(c).map(|(a, b)| (a.to_string(), b.to_string()));
            let got = split_once(&to_chars(s), c).map(|(a, b)| (to_text(&a), to_text(&b)));
            assert_eq!(got, expected, "text {:?} at {:?}", s, c);
            let head = s.split(c).next().unwrap();
            assert_eq!(to_text(&head_of(&to_chars(s), c)), head);
        }
    }
}

#[test]
fn finding_characters() {
    let chars = to_chars("ab:cd:\n\nx");
    assert_eq!(find(&chars, 0, ':'), 2);
    assert_eq!(find(&chars, 2, ':'), 2);
    assert_eq!(find(&chars, 3, ':'), 5);
    assert_eq!(find(&chars, 6, ':'), 9);
    assert_eq!(find(&chars, 9, ':'), 9);
    assert_eq!(find_blank(&chars, 0), 6);
    assert_eq!(find_blank(&chars, 6), 6);
    assert_eq!(find_blank(&chars, 7), 9);
    assert_eq!(find_blank(&to_chars("a\n"), 0), 2);
    assert_eq!(copy_range(&chars, 3, 5), vec!['c', 'd']);
    assert_eq!(copy_range(&chars, 4, 4), Vec::<char>::new());
}

#[test]
fn quotes_line_feeds_and_prefixes() {
    let cases = [
        ("\"a\"", "a"),
        ("\"\"", ""),
        ("\"", "\""),
        ("", ""),
        ("a", "a"),
        ("\"a", "\"a"),
        ("a\"", "a\""),
        ("\"\"a\"\"", "\"a\""),
        ("'a'", "'a'"),
        ("\"a\" ", "\"a\" "),
    ];
    for (input, expected) in cases {
        assert_eq!(to_text(&unquoted(&to_chars(input))), expected, "text {:?}", input);
    }
    for s in SAMPLES {
        let expected = s.strip_suffix('\n').unwrap_or(s);
        assert_eq!(to_text(&chomped(&to_chars(s))), expected, "text {:?}", s);
        for prefix in ["", "a", "a\n", "\n\n", "key : ", "héllo"] {
            let expected = s.strip_prefix(prefix).map(|r| r.to_string());
            let got = strip_prefix(&to_chars(s), prefix).map(|r| to_text(&r));
            assert_eq!(got, expected, "text {:?} prefix {:?}", s, prefix);
        }
    }
}

#[test]
fn numbers_are_what_std_reads() {
    let samples = [
        "0", "7", "255", "256", "+1", "+", "", "-1", "00", "18446744073709551615",
        "18446744073709551616", "1e3", "1.5", ".5", "5.", "inf", "nan", " 1", "1 ", "x",
    ];
    for s in samples {
        let chars = to_chars(s);
        assert_eq!(parse_u64(&chars), s.parse::<u64>().ok(), "number {:?}", s);
        assert_eq!(parse_u8(&chars), s.parse::<u8>().ok(), "number {:?}", s);
        assert_eq!(is_decimal(&chars), s.parse::<f64>().is_ok(), "number {:?}", s);
    }
}

#[test]
fn written_numbers_read_back() {
    let mut n: u8 = 0;
    loop {
        let digits = write_u8(n);
        assert_eq!(to_text(&digits), n.to_string());
        assert_eq!(parse_u8(&digits), Some(n));
        if n == 255 {
            break;
        }
        n += 1;
    }
}
