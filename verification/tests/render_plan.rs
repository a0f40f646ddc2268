use badgelib::badge::gradient_text_color;
use badgelib::param::text_color;
use badgelib::{Badge, Color, Style};

#[test]
fn default_badge_uses_black_label_and_blue_value() {
    let plan = Badge::new().label("build").value("passing").svg_plan(false);
    assert_eq!(plan.label_background, "#000000");
    assert_eq!(plan.value_background, "#3b82f6");
    assert_eq!(plan.label_text_color, "#ffffff");
    assert_eq!(plan.value_text_color, "#ffffff");
    assert_eq!(plan.title, "build: passing");
    assert!(plan.has_text);
    assert!(!plan.mono);
    assert!(plan.gloss);
    assert_eq!(plan.radius, 3);
    assert!(plan.label_stops.is_empty());
    assert!(plan.value_stops.is_empty());
}

#[test]
fn value_gradient_plan() {
    let badge = Badge::new()
        .label("build")
        .value("passing")
        .value_gradient(vec![Color::Red, Color::Orange, Color::Cyan]);
    let plan = badge.svg_plan(false);
    assert_eq!(plan.value_background, "url(#vg)");
    assert_eq!(plan.value_stops, vec!["#ef4444", "#f97316", "#06b6d4"]);
    assert_eq!(plan.label_background, "#000000");
    assert_eq!(badge.get_value_color(), None);
}

#[test]
fn mono_and_trimmed_texts() {
    let plan = Badge::new().value("  only value ").svg_plan(false);
    assert!(plan.mono);
    assert!(!plan.has_text);
    assert_eq!(plan.title, "only value");
    assert_eq!(plan.value_text, "only value");

    let plan = Badge::new().label("   ").value("x").logo("rust").svg_plan(true);
    assert!(plan.mono);
    assert!(plan.has_icon);

    let plan = Badge::new().label_color(Color::Red).value("x").svg_plan(true);
    assert!(!plan.mono);

    let plan = Badge::new().label_color(Color::Red).svg_plan(true);
    assert!(plan.mono);
}

#[test]
fn radius_is_clamped() {
    assert_eq!(Badge::new().radius(200).svg_plan(false).radius, 12);
    assert_eq!(Badge::new().radius(5).svg_plan(false).radius, 5);
    let mut parts = Badge::new().into_parts();
    parts.style = Style::Square;
    let square = Badge::from_parts(parts).unwrap();
    let plan = square.svg_plan(false);
    assert_eq!(plan.radius, 0);
    assert!(!plan.gloss);
}

#[test]
fn gradient_text_is_black_only_on_bright_gradients() {
    assert_eq!(gradient_text_color(&vec![Color::Yellow, Color::Lime]), Color::Black);
    assert_eq!(gradient_text_color(&vec![Color::Yellow, Color::Blue]), Color::White);
    assert_eq!(text_color(&Color::White), Color::Black);
    assert_eq!(text_color(&Color::Black), Color::White);
    let plan = Badge::new()
        .label_gradient(vec![Color::Yellow, Color::Lime])
        .label("l")
        .svg_plan(false);
    assert_eq!(plan.label_text_color, "#000000");
    assert_eq!(plan.label_background, "url(#lg)");
    assert_eq!(plan.label_stops, vec!["#eab308", "#84cc16"]);
}
