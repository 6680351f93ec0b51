use serum_rust_cli::text::{same_text, starts_with, trim};

const SAMPLES: [&str; 16] = [
    "",
    " ",
    "a",
    " a",
    "a ",
    "  a b  ",
    "\t\n\r x \u{b}\u{c}",
    "\u{3000}wide\u{3000}",
    "\u{a0}nbsp\u{a0}",
    "\u{200b}zero width\u{200b}",
    "\u{2028}line\u{2029}",
    "\u{85}next\u{1680}",
    "日本語 ",
    " žluťoučký kůň",
    "\n\n\n",
    "no-space",
];

#[test]
fn trim_is_the_standard_trim() {
    for sample in SAMPLES {
        assert_eq!(trim(sample), sample.trim(), "{:?}", sample);
    }
}

#[test]
fn starts_with_is_the_standard_prefix_test() {
    for text in SAMPLES {
        for prefix in SAMPLES {
            assert_eq!(starts_with(text, prefix), text.starts_with(prefix), "{:?} {:?}", text, prefix);
        }
    }
    assert!(starts_with("https://x", "http"));
    assert!(!starts_with("htt", "http"));
    assert!(starts_with("http", ""));
}

#[test]
fn same_text_compares_characters() {
    for a in SAMPLES {
        for b in SAMPLES {
            assert_eq!(same_text(a, b), a == b, "{:?} {:?}", a, b);
        }
    }
}

#[test]
fn whitespace_is_the_white_space_property() {
    let stated = |c: char| {
        let code = c as u32;
        (0x09..=0x0d).contains(&code)
            || code == 0x20
            || code == 0x85
            || code == 0xa0
            || code == 0x1680
            || (0x2000..=0x200a).contains(&code)
            || code == 0x2028
            || code == 0x2029
            || code == 0x202f
            || code == 0x205f
            || code == 0x3000
    };
    for code in 0..=0x10ffffu32 {
        if let Some(c) = char::from_u32(code) {
            assert_eq!(c.is_whitespace(), stated(c), "{:#x}", code);
        }
    }
    for code in [0x08u32, 0x09, 0x0d, 0x0e, 0x20, 0x85, 0xa0, 0x1680, 0x2000, 0x200a, 0x200b, 0x3000] {
        let c = char::from_u32(code).unwrap();
        let text = format!("{}x{}", c, c);
        assert_eq!(trim(&text) == "x", stated(c), "{:#x}", code);
    }
}
