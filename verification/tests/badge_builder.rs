use badgelib::badge::{BadgeParts, GradientError};
use badgelib::clock::UtcTime;
use badgelib::{Badge, Color, Period, Style};

#[test]
fn test_color_and_gradient_replace_each_other() {
    let solid = Badge::new().value_gradient(vec![Color::Red, Color::Blue]).value_color(Color::Green);
    assert_eq!(solid.get_value_color(), Some(Color::Green));
    assert_eq!(solid.get_value_gradient(), None);

    let gradient = Badge::new().value_color(Color::Green).value_gradient(vec![Color::Red, Color::Blue]);
    assert_eq!(gradient.get_value_color(), None);
    assert_eq!(gradient.get_value_gradient(), Some(&vec![Color::Red, Color::Blue]));
}

#[test]
fn test_for_version() {
    // Test empty/unknown values
    let rs = Badge::new().for_version("pkg", "");
    assert_eq!(rs.get_value(), Some("unknown"));
    assert_eq!(rs.get_label(), Some("pkg"));

    // Test version with v prefix
    let rs = Badge::new().for_version("pkg", "v1.0.0");
    assert_eq!(rs.get_value(), Some("v1.0.0"));
    assert_eq!(rs.get_value_color(), Some(Color::Blue));

    // Test version without v prefix
    let rs = Badge::new().for_version("pkg", "1.0.0");
    assert_eq!(rs.get_value(), Some("v1.0.0"));
    assert_eq!(rs.get_value_color(), Some(Color::Blue));

    // Test version without v prefix
    let rs = Badge::new().for_version("pkg", "1.0.0");
    assert_eq!(rs.get_value(), Some("v1.0.0"));
    assert_eq!(rs.get_value_color(), Some(Color::Blue));

    // Test beta version
    let rs = Badge::new().for_version("pkg", "v1.0.0-beta");
    assert_eq!(rs.get_value_color(), Some(Color::Cyan));

    // Test v0 version
    let rs = Badge::new().for_version("pkg", "v0.1.0");
    assert_eq!(rs.get_value_color(), Some(Color::Orange));
}

#[test]
fn version_normalizes_case_whitespace_and_missing_values() {
    let rs = Badge::new().for_version("pkg", "  V2.0.0-RC1 ");
    assert_eq!(rs.get_value(), Some("v2.0.0-rc1"));
    assert_eq!(rs.get_value_color(), Some(Color::Cyan));

    for missing in ["unknown", "None", "  ", "UNKNOWN"] {
        let rs = Badge::new().for_version("pkg", missing);
        assert_eq!(rs.get_value(), Some("unknown"));
        assert_eq!(rs.get_value_color(), Some(Color::Blue));
    }

    for (text, color) in [
        ("1.0.0-alpha.1", Color::Cyan),
        ("3.0.0-canary", Color::Cyan),
        ("0.9.0-dev", Color::Cyan),
        ("0.9.0", Color::Orange),
        ("10.0.0", Color::Blue),
    ] {
        let rs = Badge::new().for_version("pkg", text);
        assert_eq!(rs.get_value_color(), Some(color), "{text}");
    }
}

#[test]
fn version_text_is_idempotent() {
    for text in ["", "unknown", "1.2", "v1.2", " v0.1 ", "none", "x"] {
        let once = badgelib::badge::version_text(text);
        let twice = badgelib::badge::version_text(once.as_str());
        assert_eq!(once, twice);
        assert!(once == "unknown" || once.starts_with('v'));
    }
}

#[test]
fn soft_presets_keep_label_and_background() {
    let rs = Badge::new().label("crate").value_color(Color::Pink).for_version("pkg", "1.0.0");
    assert_eq!(rs.get_label(), Some("crate"));
    assert_eq!(rs.get_value_color(), Some(Color::Pink));

    let rs = Badge::new()
        .value_gradient(vec![Color::Red, Color::Blue])
        .for_license("MIT");
    assert_eq!(rs.get_label(), Some("license"));
    assert_eq!(rs.get_value(), Some("MIT"));
    assert_eq!(rs.get_value_color(), None);
    assert_eq!(rs.get_value_gradient(), Some(&vec![Color::Red, Color::Blue]));

    let rs = Badge::new().for_license("Apache-2.0");
    assert_eq!(rs.get_value_color(), Some(Color::Blue));
}

#[test]
fn hard_presets_replace_background() {
    let rs = Badge::new()
        .label("ci")
        .value_gradient(vec![Color::Red, Color::Blue])
        .for_ci_status("build", true);
    assert_eq!(rs.get_label(), Some("ci"));
    assert_eq!(rs.get_value(), Some("passing"));
    assert_eq!(rs.get_value_color(), Some(Color::Green));
    assert_eq!(rs.get_value_gradient(), None);

    let rs = Badge::new().for_ci_status("build", false);
    assert_eq!(rs.get_label(), Some("build"));
    assert_eq!(rs.get_value(), Some("failing"));
    assert_eq!(rs.get_value_color(), Some(Color::Red));

    let rs = Badge::new().value_color(Color::Pink).for_count("stars", 1234);
    assert_eq!(rs.get_value(), Some("1.2k"));
    assert_eq!(rs.get_value_color(), Some(Color::Blue));

    let rs = Badge::new().for_size("size", 1_234_567);
    assert_eq!(rs.get_value(), Some("1.1 MiB"));
    assert_eq!(rs.get_value_color(), Some(Color::Blue));
}

#[test]
fn downloads_by_period() {
    let cases = [
        (Period::Week, "1.2M/week"),
        (Period::Month, "1.2M/month"),
        (Period::Year, "1.2M/year"),
        (Period::Total, "1.2M"),
    ];
    for (period, text) in cases {
        let rs = Badge::new().for_downloads(period, 1_234_567);
        assert_eq!(rs.get_label(), Some("downloads"));
        assert_eq!(rs.get_value(), Some(text));
        assert_eq!(rs.get_value_color(), Some(Color::Green));
    }
}

#[test]
fn relative_time_text_and_color() {
    let cases: [(i64, &str, Color); 13] = [
        (0, "today", Color::Green),
        (1, "yesterday", Color::Green),
        (2, "2 days ago", Color::Green),
        (7, "7 days ago", Color::Green),
        (8, "8 days ago", Color::Lime),
        (30, "30 days ago", Color::Lime),
        (31, "1 months ago", Color::Yellow),
        (180, "6 months ago", Color::Yellow),
        (181, "6 months ago", Color::Orange),
        (365, "12 months ago", Color::Orange),
        (366, "1 years ago", Color::Red),
        (-1, "0 years ago", Color::Red),
        (-400, "-1 years ago", Color::Red),
    ];
    for (days, text, color) in cases {
        let rs = Badge::new().for_days_ago("updated", days);
        assert_eq!(rs.get_value(), Some(text), "{days}");
        assert_eq!(rs.get_value_color(), Some(color), "{days}");
    }
    let rs = Badge::new().for_days_ago("updated", i64::MIN);
    let expected = format!("{} years ago", i64::MIN / 365);
    assert_eq!(rs.get_value(), Some(expected.as_str()));
}

#[test]
fn duration_counts_whole_days_until_now() {
    let now = UtcTime::from_timestamp(1_700_000_000, 500).unwrap();
    let past = UtcTime::from_timestamp(1_700_000_000 - 3 * 86_400 - 10, 0).unwrap();
    let rs = Badge::new().for_duration("updated", past, now);
    assert_eq!(rs.get_label(), Some("updated"));
    assert_eq!(rs.get_value(), Some("3 days ago"));
    assert_eq!(rs.get_value_color(), Some(Color::Green));

    let long_ago = UtcTime::from_timestamp(1_700_000_000 - 800 * 86_400, 0).unwrap();
    let rs = Badge::new().for_duration("updated", long_ago, now);
    assert_eq!(rs.get_value(), Some("2 years ago"));
    assert_eq!(rs.get_value_color(), Some(Color::Red));

    let rs = Badge::new().for_duration("updated", now, now);
    assert_eq!(rs.get_value(), Some("today"));
}

#[test]
fn utc_time_whole_days() {
    let later = UtcTime::from_timestamp(10 * 86_400 + 5, 0).unwrap();
    let earlier = UtcTime::from_timestamp(0, 0).unwrap();
    assert_eq!(later.days_since(&earlier), 10);
    assert_eq!(earlier.days_since(&later), -10);
    let almost = UtcTime::from_timestamp(86_400 - 1, 999_999_999).unwrap();
    assert_eq!(almost.days_since(&earlier), 0);
    assert!(UtcTime::from_timestamp(i64::MAX, 0).is_none());
    assert!(UtcTime::from_timestamp(0, 2_000_000_000).is_none());
    assert_eq!(later.secs(), 864_005);
    assert_eq!(almost.nanos(), 999_999_999);
}

#[test]
fn parts_round_trip_and_gradient_check() {
    let badge = Badge::new()
        .label("l")
        .label_gradient(vec![Color::Red, Color::Blue])
        .value("v")
        .logo("rust")
        .logo_color(Color::White)
        .radius(7);
    let parts = badge.clone().into_parts();
    let back = Badge::from_parts(parts).unwrap();
    assert_eq!(back.get_label(), Some("l"));
    assert_eq!(back.get_label_gradient(), Some(&vec![Color::Red, Color::Blue]));
    assert_eq!(back.get_label_color(), None);
    assert_eq!(back.get_value(), Some("v"));
    assert_eq!(back.get_logo(), Some("rust"));
    assert_eq!(back.get_logo_color(), Some(Color::White));
    assert_eq!(back.get_radius(), Some(7));
    assert_eq!(back.get_style(), Style::Flat);

    let mut parts = Badge::new().into_parts();
    parts.value_gradient = Some(vec![Color::Red]);
    let err = Badge::from_parts(parts).unwrap_err();
    assert_eq!(err, GradientError);
    assert_eq!(err.message(), "a gradient requires at least two colors");

    let parts = BadgeParts {
        label: None,
        label_color: Some(Color::Red),
        label_gradient: Some(vec![]),
        value: None,
        value_color: None,
        value_gradient: None,
        logo: None,
        logo_color: None,
        radius: None,
        style: Style::Square,
    };
    assert!(Badge::from_parts(parts).is_err());
    assert_eq!(badgelib::badge::default_cache(), 86400);
}

#[test]
fn setters_and_defaults() {
    let b = Badge::new();
    assert_eq!(b.get_label(), None);
    assert_eq!(b.get_value(), None);
    assert_eq!(b.get_style(), Style::Flat);
    let d = Badge::default();
    assert_eq!(d.get_radius(), None);
    let b = b.label_gradient(vec![Color::Red, Color::Green]).label_color(Color::Gray);
    assert_eq!(b.get_label_color(), Some(Color::Gray));
    assert_eq!(b.get_label_gradient(), None);
    let b = b.for_value("rating", "4.5/5", Color::Lime);
    assert_eq!(b.get_label(), Some("rating"));
    assert_eq!(b.get_value(), Some("4.5/5"));
    assert_eq!(b.get_value_color(), Some(Color::Lime));
}
