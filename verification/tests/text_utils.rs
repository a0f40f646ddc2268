use badgelib::param::Color;
use badgelib::text::{
    chars_of, contains, decimal_string, is_whitespace, millify, millify_iec, starts_with, stars, trim,
};

#[test]
fn millify_counts() {
    let cases: [(u64, &str); 11] = [
        (0, "0"),
        (999, "999"),
        (1000, "1k"),
        (1234, "1.2k"),
        (1999, "1.9k"),
        (999_999, "999.9k"),
        (1_000_000, "1M"),
        (1_234_567, "1.2M"),
        (5_000_000_000, "5G"),
        (1_500_000_000_000_000, "1.5P"),
        (u64::MAX, "18.4E"),
    ];
    for (v, text) in cases {
        assert_eq!(millify(v), text, "{v}");
    }
}

#[test]
fn millify_byte_sizes() {
    let cases: [(u64, &str); 7] = [
        (0, "0 B"),
        (1023, "1023 B"),
        (1024, "1 KiB"),
        (1536, "1.5 KiB"),
        (1_234_567, "1.1 MiB"),
        (1 << 30, "1 GiB"),
        (u64::MAX, "15.9 EiB"),
    ];
    for (v, text) in cases {
        assert_eq!(millify_iec(v), text, "{v}");
    }
}

#[test]
fn decimal_digits() {
    assert_eq!(decimal_string(0), "0");
    assert_eq!(decimal_string(10), "10");
    assert_eq!(decimal_string(u64::MAX), u64::MAX.to_string());
}

#[test]
fn whitespace_matches_std() {
    for c in (0u32..0x11000).filter_map(char::from_u32) {
        assert_eq!(is_whitespace(c), c.is_whitespace(), "{:?}", c);
    }
}

#[test]
fn trim_matches_std() {
    for s in ["", "  ", " a ", "\u{3000}x\u{a0}", "a b", "\tx\n", "\u{85}y\u{2028}"] {
        assert_eq!(trim(s), s.trim());
    }
}

#[test]
fn substring_search() {
    let v = chars_of("v1.0.0-beta");
    assert!(contains(&v, "beta"));
    assert!(contains(&v, ""));
    assert!(!contains(&v, "rc"));
    assert!(!contains(&v, "v1.0.0-beta2"));
    assert!(starts_with(&v, "v1"));
    assert!(!starts_with(&v, "1"));
    assert!(!starts_with(&chars_of("v"), "v0."));
}

#[test]
fn star_lines() {
    assert_eq!(stars(0, false), "\u{2606}\u{2606}\u{2606}\u{2606}\u{2606}");
    assert_eq!(stars(3, true), "\u{2605}\u{2605}\u{2605}\u{bd}\u{2606}");
    assert_eq!(stars(4, true), "\u{2605}\u{2605}\u{2605}\u{2605}\u{bd}");
    assert_eq!(stars(5, false), "\u{2605}\u{2605}\u{2605}\u{2605}\u{2605}");
    assert_eq!(stars(6, true), "\u{2605}\u{2605}\u{2605}\u{2605}\u{2605}\u{2605}\u{bd}");
}

#[test]
fn color_forms() {
    assert_eq!(Color::Red.to_hex(), "ef4444");
    assert_eq!(Color::Red.to_css(), "#ef4444");
    assert_eq!(Color::Rgb(1, 171, 255).to_css(), "#01abff");
    assert_eq!(Color::parse("red"), Some(Color::Red));
    assert_eq!(Color::parse("#EF4444"), Some(Color::Rgb(0xef, 0x44, 0x44)));
    assert_eq!(Color::parse("fb7185"), Some(Color::Rgb(0xfb, 0x71, 0x85)));
    assert_eq!(Color::parse(""), None);
    assert_eq!(Color::parse("zzzzzz"), None);
    assert_eq!(Color::parse("Red"), None);
    for c in [Color::Black, Color::Cyan, Color::Pink, Color::Rgb(0, 128, 255)] {
        let back = Color::parse(&c.to_hex()).unwrap();
        assert_eq!(back.rgb(), c.rgb());
    }
}
