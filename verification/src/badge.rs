//! The badge: its model, its builders and presets.

use vstd::prelude::*;

use crate::clock::{chrono_whole_days, UtcTime};
use crate::param::{spec_css, spec_text_color, text_color, Color, Period, Style};
use crate::text::{
    chars_of, chars_eq_str, contains, lowercase, millify, millify_iec, push_signed_decimal,
    spec_contains, spec_millify, spec_millify_iec, spec_starts_with, spec_trim, signed_decimal,
    starts_with, to_lowercase, trim, trim_chars,
};

verus! {

/// The abstract content of a badge.
pub struct BadgeModel {
    pub label: Option<Seq<char>>,
    pub label_color: Option<Color>,
    pub label_gradient: Option<Seq<Color>>,
    pub value: Option<Seq<char>>,
    pub value_color: Option<Color>,
    pub value_gradient: Option<Seq<Color>>,
    pub logo: Option<Seq<char>>,
    pub logo_color: Option<Color>,
    pub radius: Option<u8>,
    pub style: Style,
}

/// A gradient has at least two colors.
pub open spec fn valid_gradient(g: Option<Seq<Color>>) -> bool {
    g matches Some(colors) ==> colors.len() >= 2
}

/// The view of an optional string.
pub open spec fn text_view(o: Option<String>) -> Option<Seq<char>> {
    match o {
        Some(s) => Some(s@),
        None => None,
    }
}

/// The view of an optional list of colors.
pub open spec fn colors_view(o: Option<Vec<Color>>) -> Option<Seq<Color>> {
    match o {
        Some(v) => Some(v@),
        None => None,
    }
}

/// `o` when it holds a value, else `Some(x)`.
pub open spec fn or_some<T>(o: Option<T>, x: T) -> Option<T> {
    match o {
        Some(v) => Some(v),
        None => Some(x),
    }
}

impl BadgeModel {
    /// Both gradients, where set, have at least two colors.
    pub open spec fn wf(self) -> bool {
        valid_gradient(self.label_gradient) && valid_gradient(self.value_gradient)
    }

    /// The badge that `Badge::new` returns.
    pub open spec fn empty() -> BadgeModel {
        BadgeModel {
            label: None,
            label_color: None,
            label_gradient: None,
            value: None,
            value_color: None,
            value_gradient: None,
            logo: None,
            logo_color: None,
            radius: None,
            style: Style::Flat,
        }
    }

    pub open spec fn with_label(self, label: Seq<char>) -> BadgeModel {
        BadgeModel { label: Some(label), ..self }
    }

    pub open spec fn with_label_color(self, c: Color) -> BadgeModel {
        BadgeModel { label_color: Some(c), label_gradient: None, ..self }
    }

    pub open spec fn with_label_gradient(self, g: Seq<Color>) -> BadgeModel {
        BadgeModel { label_color: None, label_gradient: Some(g), ..self }
    }

    pub open spec fn with_value(self, value: Seq<char>) -> BadgeModel {
        BadgeModel { value: Some(value), ..self }
    }

    pub open spec fn with_value_color(self, c: Color) -> BadgeModel {
        BadgeModel { value_color: Some(c), value_gradient: None, ..self }
    }

    pub open spec fn with_value_gradient(self, g: Seq<Color>) -> BadgeModel {
        BadgeModel { value_color: None, value_gradient: Some(g), ..self }
    }

    pub open spec fn with_logo(self, logo: Seq<char>) -> BadgeModel {
        BadgeModel { logo: Some(logo), ..self }
    }

    pub open spec fn with_logo_color(self, c: Color) -> BadgeModel {
        BadgeModel { logo_color: Some(c), ..self }
    }

    pub open spec fn with_radius(self, r: u8) -> BadgeModel {
        BadgeModel { radius: Some(r), ..self }
    }

    /// A preset that keeps a label and a value background set before it:
    /// the label becomes `label` only where none is set, the value becomes
    /// `value`, and the value color becomes `color` only where neither a
    /// value color nor a value gradient is set.
    pub open spec fn preset_soft(self, label: Seq<char>, value: Seq<char>, color: Color) -> BadgeModel {
        BadgeModel {
            label: or_some(self.label, label),
            value: Some(value),
            value_color: if self.value_color is None && self.value_gradient is None {
                Some(color)
            } else {
                self.value_color
            },
            ..self
        }
    }

    /// A preset that keeps a label set before it but sets the value and its
    /// solid color, replacing any value gradient.
    pub open spec fn preset_hard(self, label: Seq<char>, value: Seq<char>, color: Color) -> BadgeModel {
        BadgeModel {
            label: or_some(self.label, label),
            value: Some(value),
            value_color: Some(color),
            value_gradient: None,
            ..self
        }
    }
}

/// A configurable badge that can be rendered as SVG or JSON.
///
/// Builder methods consume and return the badge, so they can be chained.
/// Without customization, labels use black and values use blue.
#[derive(Debug)]
pub struct Badge {
    label: Option<String>,
    label_color: Option<Color>,
    label_gradient: Option<Vec<Color>>,
    value: Option<String>,
    value_color: Option<Color>,
    value_gradient: Option<Vec<Color>>,
    logo: Option<String>,
    logo_color: Option<Color>,
    radius: Option<u8>,
    style: Style,
}

impl View for Badge {
    type V = BadgeModel;

    closed spec fn view(&self) -> BadgeModel {
        BadgeModel {
            label: text_view(self.label),
            label_color: self.label_color,
            label_gradient: colors_view(self.label_gradient),
            value: text_view(self.value),
            value_color: self.value_color,
            value_gradient: colors_view(self.value_gradient),
            logo: text_view(self.logo),
            logo_color: self.logo_color,
            radius: self.radius,
            style: self.style,
        }
    }
}

fn clone_text(o: &Option<String>) -> (r: Option<String>)
    ensures
        text_view(r) == text_view(*o),
{
    match o {
        Some(s) => Some(s.clone()),
        None => None,
    }
}

fn copy_colors(v: &Vec<Color>) -> (r: Vec<Color>)
    ensures
        r@ == v@,
{
    let mut out: Vec<Color> = Vec::new();
    let mut i: usize = 0;
    while i < v.len()
        invariant
            i <= v@.len(),
            out@ == v@.subrange(0, i as int),
        decreases v.len() - i,
    {
        out.push(v[i]);
        proof {
            assert(v@.subrange(0, i + 1) == v@.subrange(0, i as int).push(v@[i as int]));
        }
        i = i + 1;
    }
    proof {
        assert(v@.subrange(0, v@.len() as int) =~= v@);
    }
    out
}

fn clone_colors(o: &Option<Vec<Color>>) -> (r: Option<Vec<Color>>)
    ensures
        colors_view(r) == colors_view(*o),
{
    match o {
        Some(v) => Some(copy_colors(v)),
        None => None,
    }
}

impl Default for Badge {
    fn default() -> (r: Self)
        ensures
            r@ == BadgeModel::empty(),
    {
        Badge::new()
    }
}

impl Clone for Badge {
    fn clone(&self) -> (r: Self)
        ensures
            r@ == self@,
    {
        proof {
            use_type_invariant(self);
        }
        Badge {
            label: clone_text(&self.label),
            label_color: self.label_color,
            label_gradient: clone_colors(&self.label_gradient),
            value: clone_text(&self.value),
            value_color: self.value_color,
            value_gradient: clone_colors(&self.value_gradient),
            logo: clone_text(&self.logo),
            logo_color: self.logo_color,
            radius: self.radius,
            style: self.style,
        }
    }
}

/// The value shown by a version badge, from the lowercased version: after
/// trimming, an empty text, `unknown` or `none` becomes `unknown`, a text that
/// starts with `v` stays as it is, and any other text gets a leading `v`.
pub open spec fn spec_version_text(lowered: Seq<char>) -> Seq<char> {
    let t = spec_trim(lowered);
    if t.len() == 0 || t == "unknown"@ || t == "none"@ {
        "unknown"@
    } else if spec_starts_with(t, "v"@) {
        t
    } else {
        seq!['v'] + t
    }
}

/// The color of a version badge: cyan for pre-releases (`alpha`, `beta`,
/// `canary`, `rc` or `dev` anywhere in the text), orange for `v0.` versions,
/// blue otherwise.
pub open spec fn spec_version_color(text: Seq<char>) -> Color {
    if spec_contains(text, "alpha"@) || spec_contains(text, "beta"@) || spec_contains(
        text,
        "canary"@,
    ) || spec_contains(text, "rc"@) || spec_contains(text, "dev"@) {
        Color::Cyan
    } else if spec_starts_with(text, "v0."@) {
        Color::Orange
    } else {
        Color::Blue
    }
}

/// The value shown by a version badge, from the already lowercased version
/// text: see [`spec_version_text`].
pub fn version_text(lowered: &str) -> (r: String)
    ensures
        r@ == spec_version_text(lowered@),
{
    let v = chars_of(lowered);
    let t = trim_chars(&v);
    let tv = chars_of(t.as_str());
    if tv.len() == 0 || chars_eq_str(&tv, "unknown") || chars_eq_str(&tv, "none") {
        String::from_str("unknown")
    } else if starts_with(&tv, "v") {
        t
    } else {
        let mut out = String::from_str("v");
        proof {
            reveal_strlit("v");
        }
        out.append(t.as_str());
        out
    }
}

/// The color of a version badge with the given value: see
/// [`spec_version_color`].
pub fn version_color(text: &str) -> (r: Color)
    ensures
        r == spec_version_color(text@),
{
    let v = chars_of(text);
    if contains(&v, "alpha") || contains(&v, "beta") || contains(&v, "canary") || contains(
        &v,
        "rc",
    ) || contains(&v, "dev") {
        Color::Cyan
    } else if starts_with(&v, "v0.") {
        Color::Orange
    } else {
        Color::Blue
    }
}

/// The value of a downloads badge: the compact count, followed by `/week`,
/// `/month` or `/year` unless the period is the total.
pub open spec fn spec_downloads_text(period: Period, value: nat) -> Seq<char> {
    match period {
        Period::Week => spec_millify(value) + "/week"@,
        Period::Month => spec_millify(value) + "/month"@,
        Period::Year => spec_millify(value) + "/year"@,
        Period::Total => spec_millify(value),
    }
}

/// The value of a downloads badge: see [`spec_downloads_text`].
pub fn downloads_text(period: Period, value: u64) -> (r: String)
    ensures
        r@ == spec_downloads_text(period, value as nat),
{
    let mut out = millify(value);
    match period {
        Period::Week => out.append("/week"),
        Period::Month => out.append("/month"),
        Period::Year => out.append("/year"),
        Period::Total => {},
    }
    out
}

/// The value and color of a badge for something that happened `days` days
/// ago (a negative count is treated as lying in the future).
pub open spec fn spec_days_ago(days: int) -> (Seq<char>, Color) {
    if days == 0 {
        ("today"@, Color::Green)
    } else if days == 1 {
        ("yesterday"@, Color::Green)
    } else if 2 <= days <= 7 {
        (signed_decimal(days) + " days ago"@, Color::Green)
    } else if 8 <= days <= 30 {
        (signed_decimal(days) + " days ago"@, Color::Lime)
    } else if 31 <= days <= 180 {
        (signed_decimal(days / 30) + " months ago"@, Color::Yellow)
    } else if 181 <= days <= 365 {
        (signed_decimal(days / 30) + " months ago"@, Color::Orange)
    } else {
        (signed_decimal(trunc_div(days, 365)) + " years ago"@, Color::Red)
    }
}

/// Integer division rounded toward zero.
pub open spec fn trunc_div(a: int, b: int) -> int {
    if a >= 0 {
        a / b
    } else {
        -((-a) / b)
    }
}

/// The value and color of a badge for something that happened `days` days
/// ago: see [`spec_days_ago`].
pub fn days_ago(days: i64) -> (r: (String, Color))
    ensures
        r.0@ == spec_days_ago(days as int).0,
        r.1 == spec_days_ago(days as int).1,
{
    let mut out = String::new();
    if days == 0 {
        (String::from_str("today"), Color::Green)
    } else if days == 1 {
        (String::from_str("yesterday"), Color::Green)
    } else if 2 <= days && days <= 30 {
        push_signed_decimal(&mut out, days);
        out.append(" days ago");
        (out, if days <= 7 { Color::Green } else { Color::Lime })
    } else if 31 <= days && days <= 365 {
        push_signed_decimal(&mut out, days / 30);
        out.append(" months ago");
        (out, if days <= 180 { Color::Yellow } else { Color::Orange })
    } else {
        let years: i64 = if days >= 0 { days / 365 } else { 0 - ((0 - (days as i128)) / 365) as i64 };
        assert(years == trunc_div(days as int, 365));
        push_signed_decimal(&mut out, years);
        out.append(" years ago");
        (out, Color::Red)
    }
}

/// The text color on a gradient: black only where every color of the
/// gradient takes black text.
pub open spec fn spec_gradient_text_color(colors: Seq<Color>) -> Color {
    if forall|i: int| 0 <= i < colors.len() ==> spec_text_color(#[trigger] colors[i]) == Color::Black {
        Color::Black
    } else {
        Color::White
    }
}

/// The text color on a gradient: see [`spec_gradient_text_color`].
pub fn gradient_text_color(colors: &Vec<Color>) -> (r: Color)
    ensures
        r == spec_gradient_text_color(colors@),
{
    let mut i: usize = 0;
    while i < colors.len()
        invariant
            i <= colors@.len(),
            forall|k: int| 0 <= k < i ==> spec_text_color(#[trigger] colors@[k]) == Color::Black,
        decreases colors.len() - i,
    {
        if text_color(&colors[i]) != Color::Black {
            return Color::White;
        }
        i = i + 1;
    }
    Color::Black
}

/// The CSS colors of a gradient's stops, in order.
pub open spec fn spec_stops(g: Option<Seq<Color>>) -> Seq<Seq<char>> {
    match g {
        Some(colors) => colors.map_values(|c: Color| spec_css(c)),
        None => Seq::empty(),
    }
}

fn stops(g: &Option<Vec<Color>>) -> (r: Vec<String>)
    ensures
        r@.map_values(|s: String| s@) == spec_stops(colors_view(*g)),
{
    let mut out: Vec<String> = Vec::new();
    match g {
        Some(colors) => {
            let mut i: usize = 0;
            while i < colors.len()
                invariant
                    i <= colors@.len(),
                    out@.map_values(|s: String| s@) == colors@.subrange(0, i as int).map_values(
                        |c: Color| spec_css(c),
                    ),
                decreases colors.len() - i,
            {
                let css = colors[i].to_css();
                let ghost prev = out@;
                let ghost css_view = css@;
                out.push(css);
                proof {
                    assert(colors@.subrange(0, i + 1).map_values(|c: Color| spec_css(c))
                        =~= colors@.subrange(0, i as int).map_values(|c: Color| spec_css(c)).push(
                        spec_css(colors@[i as int]),
                    ));
                    assert(out@.map_values(|s: String| s@) =~= prev.map_values(|s: String| s@).push(
                        css_view,
                    ));
                }
                i = i + 1;
            }
            proof {
                assert(colors@.subrange(0, colors@.len() as int) =~= colors@);
            }
            out
        },
        None => {
            proof {
                assert(out@.map_values(|s: String| s@) =~= Seq::<Seq<char>>::empty());
            }
            out
        },
    }
}

/// What rendering a badge decides, apart from the geometry: the texts, which
/// parts are drawn, their fills and text colors, and the corner radius.
pub struct SvgPlan {
    /// The accessible title: `label: value`, or the value alone without a label.
    pub title: String,
    /// The trimmed label text.
    pub label_text: String,
    /// The trimmed value text.
    pub value_text: String,
    /// The label text is not empty.
    pub has_text: bool,
    /// A logo is drawn.
    pub has_icon: bool,
    /// The badge is drawn as a single part, without a label part.
    pub mono: bool,
    /// A light gloss is drawn over the badge.
    pub gloss: bool,
    /// The label part's fill: a CSS color, or `url(#lg)` for its gradient.
    pub label_background: String,
    /// The value part's fill: a CSS color, or `url(#vg)` for its gradient.
    pub value_background: String,
    /// The CSS color of the label text.
    pub label_text_color: String,
    /// The CSS color of the value text.
    pub value_text_color: String,
    /// The corner radius in steps of a twelfth of the font size, at most 12.
    pub radius: u8,
    /// The CSS colors of the label gradient's stops; empty without a gradient.
    pub label_stops: Vec<String>,
    /// The CSS colors of the value gradient's stops; empty without a gradient.
    pub value_stops: Vec<String>,
}

/// The abstract content of an [`SvgPlan`].
pub struct SvgPlanModel {
    pub title: Seq<char>,
    pub label_text: Seq<char>,
    pub value_text: Seq<char>,
    pub has_text: bool,
    pub has_icon: bool,
    pub mono: bool,
    pub gloss: bool,
    pub label_background: Seq<char>,
    pub value_background: Seq<char>,
    pub label_text_color: Seq<char>,
    pub value_text_color: Seq<char>,
    pub radius: u8,
    pub label_stops: Seq<Seq<char>>,
    pub value_stops: Seq<Seq<char>>,
}

impl View for SvgPlan {
    type V = SvgPlanModel;

    open spec fn view(&self) -> SvgPlanModel {
        SvgPlanModel {
            title: self.title@,
            label_text: self.label_text@,
            value_text: self.value_text@,
            has_text: self.has_text,
            has_icon: self.has_icon,
            mono: self.mono,
            gloss: self.gloss,
            label_background: self.label_background@,
            value_background: self.value_background@,
            label_text_color: self.label_text_color@,
            value_text_color: self.value_text_color@,
            radius: self.radius,
            label_stops: self.label_stops@.map_values(|s: String| s@),
            value_stops: self.value_stops@.map_values(|s: String| s@),
        }
    }
}

/// The text of an optional string, empty when there is none.
pub open spec fn text_or_empty(o: Option<Seq<char>>) -> Seq<char> {
    match o {
        Some(s) => s,
        None => Seq::empty(),
    }
}

/// The color of an optional color, `d` when there is none.
pub open spec fn color_or(o: Option<Color>, d: Color) -> Color {
    match o {
        Some(c) => c,
        None => d,
    }
}

/// The text color over a part with an optional gradient and a solid color.
pub open spec fn part_text_color(gradient: Option<Seq<Color>>, solid: Color) -> Color {
    match gradient {
        Some(g) => spec_gradient_text_color(g),
        None => spec_text_color(solid),
    }
}

/// What rendering `m` decides, given whether a logo is drawn.
pub open spec fn spec_svg_plan(m: BadgeModel, has_icon: bool) -> SvgPlanModel {
    let ltext = spec_trim(text_or_empty(m.label));
    let rtext = spec_trim(text_or_empty(m.value));
    let has_text = ltext.len() > 0;
    let lb = color_or(m.label_color, Color::Black);
    let rb = color_or(m.value_color, Color::Blue);
    let radius = match m.radius {
        Some(r) => r,
        None => if m.style == Style::Flat {
            3u8
        } else {
            0u8
        },
    };
    SvgPlanModel {
        title: if has_text {
            ltext + ": "@ + rtext
        } else {
            rtext
        },
        label_text: ltext,
        value_text: rtext,
        has_text,
        has_icon,
        mono: (!has_text && !has_icon) || (has_icon && !has_text && m.label_color is None
            && m.label_gradient is None) || (ltext.len() == 0 && rtext.len() == 0),
        gloss: m.style == Style::Flat,
        label_background: if m.label_gradient is Some {
            "url(#lg)"@
        } else {
            spec_css(lb)
        },
        value_background: if m.value_gradient is Some {
            "url(#vg)"@
        } else {
            spec_css(rb)
        },
        label_text_color: spec_css(part_text_color(m.label_gradient, lb)),
        value_text_color: spec_css(part_text_color(m.value_gradient, rb)),
        radius: if radius > 12 {
            12u8
        } else {
            radius
        },
        label_stops: spec_stops(m.label_gradient),
        value_stops: spec_stops(m.value_gradient),
    }
}

fn trimmed_or_empty(o: &Option<String>) -> (r: String)
    ensures
        r@ == spec_trim(text_or_empty(text_view(*o))),
{
    match o {
        Some(s) => trim(s.as_str()),
        None => {
            let e = String::new();
            proof {
                assert(spec_trim(Seq::<char>::empty()) =~= Seq::<char>::empty());
            }
            e
        },
    }
}

fn part_text_css(gradient: &Option<Vec<Color>>, solid: Color) -> (r: String)
    ensures
        r@ == spec_css(part_text_color(colors_view(*gradient), solid)),
{
    let c = match gradient {
        Some(g) => gradient_text_color(g),
        None => text_color(&solid),
    };
    c.to_css()
}

/// The view of an optional string slice.
pub open spec fn str_view(o: Option<&str>) -> Option<Seq<char>> {
    match o {
        Some(s) => Some(s@),
        None => None,
    }
}

/// The view of an optional list of colors, by reference.
pub open spec fn colors_ref_view(o: Option<&Vec<Color>>) -> Option<Seq<Color>> {
    match o {
        Some(v) => Some(v@),
        None => None,
    }
}

fn as_str_opt(o: &Option<String>) -> (r: Option<&str>)
    ensures
        str_view(r) == text_view(*o),
{
    match o {
        Some(s) => Some(s.as_str()),
        None => None,
    }
}

fn as_ref_opt(o: &Option<Vec<Color>>) -> (r: Option<&Vec<Color>>)
    ensures
        colors_ref_view(r) == colors_view(*o),
{
    match o {
        Some(v) => Some(v),
        None => None,
    }
}

/// A gradient with fewer than two colors was given.
#[derive(Clone, Copy, Debug, PartialEq, Eq, Structural)]
pub struct GradientError;

impl GradientError {
    /// The message of the error.
    pub fn message(&self) -> (r: String)
        ensures
            r@ == "a gradient requires at least two colors"@,
    {
        String::from_str("a gradient requires at least two colors")
    }
}

/// Whether a list of colors makes a gradient: it has at least two colors.
pub fn is_valid_gradient(colors: &Vec<Color>) -> (r: bool)
    ensures
        r == (colors@.len() >= 2),
{
    colors.len() >= 2
}

/// Every setting of a badge, as plain values.
pub struct BadgeParts {
    pub label: Option<String>,
    pub label_color: Option<Color>,
    pub label_gradient: Option<Vec<Color>>,
    pub value: Option<String>,
    pub value_color: Option<Color>,
    pub value_gradient: Option<Vec<Color>>,
    pub logo: Option<String>,
    pub logo_color: Option<Color>,
    pub radius: Option<u8>,
    pub style: Style,
}

impl View for BadgeParts {
    type V = BadgeModel;

    open spec fn view(&self) -> BadgeModel {
        BadgeModel {
            label: text_view(self.label),
            label_color: self.label_color,
            label_gradient: colors_view(self.label_gradient),
            value: text_view(self.value),
            value_color: self.value_color,
            value_gradient: colors_view(self.value_gradient),
            logo: text_view(self.logo),
            logo_color: self.logo_color,
            radius: self.radius,
            style: self.style,
        }
    }
}

/// The number of seconds a served badge may be cached by default: one day.
pub fn default_cache() -> (r: u32)
    ensures
        r == 86400,
{
    86400
}

fn label_or(o: Option<String>, s: &str) -> (r: Option<String>)
    ensures
        text_view(r) == or_some(text_view(o), s@),
{
    match o {
        Some(l) => Some(l),
        None => some_string(s),
    }
}

fn some_string(s: &str) -> (r: Option<String>)
    ensures
        text_view(r) == Some(s@),
{
    Some(String::from_str(s))
}

impl Badge {
    #[verifier::type_invariant]
    closed spec fn inv(self) -> bool {
        self@.wf()
    }

    /// Creates a badge with default colors and no text or logo.
    pub fn new() -> (r: Self)
        ensures
            r@ == BadgeModel::empty(),
    {
        Badge {
            label: None,
            label_color: None,
            label_gradient: None,
            value: None,
            value_color: None,
            value_gradient: None,
            logo: None,
            logo_color: None,
            radius: None,
            style: Style::Flat,
        }
    }

    /// Sets the text shown on the left side of the badge.
    pub fn label(self, label: &str) -> (r: Self)
        ensures
            r@ == self@.with_label(label@),
    {
        proof {
            use_type_invariant(&self);
        }
        Badge { label: some_string(label), ..self }
    }

    /// Sets the background color of the label, replacing any label gradient.
    pub fn label_color(self, color: Color) -> (r: Self)
        ensures
            r@ == self@.with_label_color(color),
    {
        proof {
            use_type_invariant(&self);
        }
        Badge { label_color: Some(color), label_gradient: None, ..self }
    }

    /// Sets a left-to-right gradient background for the label, replacing any
    /// label color. Colors are distributed evenly and at least two are
    /// required.
    pub fn label_gradient(self, colors: Vec<Color>) -> (r: Self)
        requires
            colors@.len() >= 2,
        ensures
            r@ == self@.with_label_gradient(colors@),
    {
        proof {
            use_type_invariant(&self);
        }
        Badge { label_color: None, label_gradient: Some(colors), ..self }
    }

    /// Sets the text shown on the right side of the badge.
    pub fn value(self, value: &str) -> (r: Self)
        ensures
            r@ == self@.with_value(value@),
    {
        proof {
            use_type_invariant(&self);
        }
        Badge { value: some_string(value), ..self }
    }

    /// Sets the background color of the value, replacing any value gradient.
    pub fn value_color(self, color: Color) -> (r: Self)
        ensures
            r@ == self@.with_value_color(color),
    {
        proof {
            use_type_invariant(&self);
        }
        Badge { value_color: Some(color), value_gradient: None, ..self }
    }

    /// Sets a left-to-right gradient background for the value, replacing any
    /// value color. Colors are distributed evenly and at least two are
    /// required.
    pub fn value_gradient(self, colors: Vec<Color>) -> (r: Self)
        requires
            colors@.len() >= 2,
        ensures
            r@ == self@.with_value_gradient(colors@),
    {
        proof {
            use_type_invariant(&self);
        }
        Badge { value_color: None, value_gradient: Some(colors), ..self }
    }

    /// Adds a logo by its Simple Icons slug.
    pub fn logo(self, logo: &str) -> (r: Self)
        ensures
            r@ == self@.with_logo(logo@),
    {
        proof {
            use_type_invariant(&self);
        }
        Badge { logo: some_string(logo), ..self }
    }

    /// Sets the logo color.
    pub fn logo_color(self, color: Color) -> (r: Self)
        ensures
            r@ == self@.with_logo_color(color),
    {
        proof {
            use_type_invariant(&self);
        }
        Badge { logo_color: Some(color), ..self }
    }

    /// Sets the corner radius, clamped to `12` during rendering.
    pub fn radius(self, radius: u8) -> (r: Self)
        ensures
            r@ == self@.with_radius(radius),
    {
        proof {
            use_type_invariant(&self);
        }
        Badge { radius: Some(radius), ..self }
    }

    /// A badge with the given settings, where both gradients that are set
    /// have at least two colors; a [`GradientError`] otherwise.
    pub fn from_parts(parts: BadgeParts) -> (r: Result<Badge, GradientError>)
        ensures
            r is Ok <==> parts@.wf(),
            r matches Ok(b) ==> b@ == parts@,
    {
        let label_ok = match &parts.label_gradient {
            Some(g) => is_valid_gradient(g),
            None => true,
        };
        let value_ok = match &parts.value_gradient {
            Some(g) => is_valid_gradient(g),
            None => true,
        };
        if !label_ok || !value_ok {
            return Err(GradientError);
        }
        Ok(
            Badge {
                label: parts.label,
                label_color: parts.label_color,
                label_gradient: parts.label_gradient,
                value: parts.value,
                value_color: parts.value_color,
                value_gradient: parts.value_gradient,
                logo: parts.logo,
                logo_color: parts.logo_color,
                radius: parts.radius,
                style: parts.style,
            },
        )
    }

    /// Every setting of the badge, as plain values.
    pub fn into_parts(self) -> (r: BadgeParts)
        ensures
            r@ == self@,
            r@.wf(),
    {
        proof {
            use_type_invariant(&self);
        }
        BadgeParts {
            label: self.label,
            label_color: self.label_color,
            label_gradient: self.label_gradient,
            value: self.value,
            value_color: self.value_color,
            value_gradient: self.value_gradient,
            logo: self.logo,
            logo_color: self.logo_color,
            radius: self.radius,
            style: self.style,
        }
    }

    /// The label text, if one is set.
    pub fn get_label(&self) -> (r: Option<&str>)
        ensures
            str_view(r) == self@.label,
    {
        as_str_opt(&self.label)
    }

    /// The label color, if one is set.
    pub fn get_label_color(&self) -> (r: Option<Color>)
        ensures
            r == self@.label_color,
    {
        self.label_color
    }

    /// The label gradient, if one is set.
    pub fn get_label_gradient(&self) -> (r: Option<&Vec<Color>>)
        ensures
            colors_ref_view(r) == self@.label_gradient,
    {
        as_ref_opt(&self.label_gradient)
    }

    /// The value text, if one is set.
    pub fn get_value(&self) -> (r: Option<&str>)
        ensures
            str_view(r) == self@.value,
    {
        as_str_opt(&self.value)
    }

    /// The value color, if one is set.
    pub fn get_value_color(&self) -> (r: Option<Color>)
        ensures
            r == self@.value_color,
    {
        self.value_color
    }

    /// The value gradient, if one is set.
    pub fn get_value_gradient(&self) -> (r: Option<&Vec<Color>>)
        ensures
            colors_ref_view(r) == self@.value_gradient,
    {
        as_ref_opt(&self.value_gradient)
    }

    /// The logo slug, if one is set.
    pub fn get_logo(&self) -> (r: Option<&str>)
        ensures
            str_view(r) == self@.logo,
    {
        as_str_opt(&self.logo)
    }

    /// The logo color, if one is set.
    pub fn get_logo_color(&self) -> (r: Option<Color>)
        ensures
            r == self@.logo_color,
    {
        self.logo_color
    }

    /// The corner radius, if one is set.
    pub fn get_radius(&self) -> (r: Option<u8>)
        ensures
            r == self@.radius,
    {
        self.radius
    }

    /// The badge style.
    pub fn get_style(&self) -> (r: Style)
        ensures
            r == self@.style,
    {
        self.style
    }

    /// What rendering the badge decides, apart from the geometry, given
    /// whether a logo is drawn: see [`spec_svg_plan`].
    pub fn svg_plan(&self, has_icon: bool) -> (r: SvgPlan)
        ensures
            r@ == spec_svg_plan(self@, has_icon),
    {
        proof {
            use_type_invariant(self);
        }
        let ltext = trimmed_or_empty(&self.label);
        let rtext = trimmed_or_empty(&self.value);
        let has_text = !ltext.as_str().is_empty();
        let rtext_empty = rtext.as_str().is_empty();
        let title = if has_text {
            let mut t = ltext.clone();
            t.append(": ");
            t.append(rtext.as_str());
            t
        } else {
            rtext.clone()
        };
        let mono = (!has_text && !has_icon) || (has_icon && !has_text && self.label_color.is_none()
            && self.label_gradient.is_none()) || (!has_text && rtext_empty);
        let lb = match self.label_color {
            Some(c) => c,
            None => Color::Black,
        };
        let rb = match self.value_color {
            Some(c) => c,
            None => Color::Blue,
        };
        let label_background = if self.label_gradient.is_some() {
            String::from_str("url(#lg)")
        } else {
            lb.to_css()
        };
        let value_background = if self.value_gradient.is_some() {
            String::from_str("url(#vg)")
        } else {
            rb.to_css()
        };
        let base: u8 = match self.radius {
            Some(r) => r,
            None => if self.style == Style::Flat {
                3
            } else {
                0
            },
        };
        SvgPlan {
            title,
            label_text: ltext,
            value_text: rtext,
            has_text,
            has_icon,
            mono,
            gloss: self.style == Style::Flat,
            label_background,
            value_background,
            label_text_color: part_text_css(&self.label_gradient, lb),
            value_text_color: part_text_css(&self.value_gradient, rb),
            radius: if base > 12 {
                12
            } else {
                base
            },
            label_stops: stops(&self.label_gradient),
            value_stops: stops(&self.value_gradient),
        }
    }

    /// Applies a preset that keeps a label and a value background set before
    /// it: see [`BadgeModel::preset_soft`].
    fn preset_soft(self, label: &str, value: String, color: Color) -> (r: Self)
        ensures
            r@ == self@.preset_soft(label@, value@, color),
    {
        proof {
            use_type_invariant(&self);
        }
        let keep = self.value_color.is_some() || self.value_gradient.is_some();
        let value_color = if keep { self.value_color } else { Some(color) };
        Badge { label: label_or(self.label, label), value: Some(value), value_color, ..self }
    }

    /// Configures a badge with a label (kept where one is set before), a
    /// value and a solid value color, replacing any value gradient.
    pub fn for_value(self, label: &str, value: &str, color: Color) -> (r: Self)
        ensures
            r@ == self@.preset_hard(label@, value@, color),
    {
        proof {
            use_type_invariant(&self);
        }
        Badge {
            label: label_or(self.label, label),
            value: some_string(value),
            value_color: Some(color),
            value_gradient: None,
            ..self
        }
    }

    /// Configures a version badge and chooses a color based on the version.
    ///
    /// A missing version becomes `unknown`, and versions without a leading
    /// `v` receive one. Pre-release versions are cyan and `v0` versions are
    /// orange. A label or value background set before is kept.
    pub fn for_version(self, label: &str, value: &str) -> (r: Self)
        ensures
            r@ == self@.preset_soft(
                label@,
                spec_version_text(lowercase(value@)),
                spec_version_color(spec_version_text(lowercase(value@))),
            ),
    {
        let lowered = to_lowercase(value);
        let text = version_text(lowered.as_str());
        let color = version_color(text.as_str());
        self.preset_soft(label, text, color)
    }

    /// Configures a blue license badge; a label or value background set
    /// before is kept.
    pub fn for_license(self, license: &str) -> (r: Self)
        ensures
            r@ == self@.preset_soft("license"@, license@, Color::Blue),
    {
        self.preset_soft("license", String::from_str(license), Color::Blue)
    }

    /// Configures a green downloads badge with a compact count; a label or
    /// value background set before is kept.
    pub fn for_downloads(self, period: Period, value: u64) -> (r: Self)
        ensures
            r@ == self@.preset_soft(
                "downloads"@,
                spec_downloads_text(period, value as nat),
                Color::Green,
            ),
    {
        let text = downloads_text(period, value);
        self.preset_soft("downloads", text, Color::Green)
    }

    /// Configures a CI badge as green `passing` or red `failing`.
    pub fn for_ci_status(self, label: &str, status: bool) -> (r: Self)
        ensures
            r@ == self@.preset_hard(
                label@,
                if status {
                    "passing"@
                } else {
                    "failing"@
                },
                if status {
                    Color::Green
                } else {
                    Color::Red
                },
            ),
    {
        let value = if status { "passing" } else { "failing" };
        let color = if status { Color::Green } else { Color::Red };
        self.for_value(label, value, color)
    }

    /// Configures a blue badge with a compact decimal count such as `1.2k`.
    pub fn for_count(self, label: &str, value: u64) -> (r: Self)
        ensures
            r@ == self@.preset_hard(label@, spec_millify(value as nat), Color::Blue),
    {
        let text = millify(value);
        self.for_value(label, text.as_str(), Color::Blue)
    }

    /// Configures a blue badge with an IEC byte size such as `1.2 MiB`.
    pub fn for_size(self, label: &str, value: u64) -> (r: Self)
        ensures
            r@ == self@.preset_hard(label@, spec_millify_iec(value as nat), Color::Blue),
    {
        let text = millify_iec(value);
        self.for_value(label, text.as_str(), Color::Blue)
    }

    /// Configures a relative-time badge for something that happened `days`
    /// days ago: see [`spec_days_ago`].
    pub fn for_days_ago(self, label: &str, days: i64) -> (r: Self)
        ensures
            r@ == self@.preset_hard(
                label@,
                spec_days_ago(days as int).0,
                spec_days_ago(days as int).1,
            ),
    {
        let (text, color) = days_ago(days);
        self.for_value(label, text.as_str(), color)
    }

    /// Configures a relative-time badge for the UTC time `value`, seen at
    /// the time `now`: the whole days from `value` to `now`, as chrono counts
    /// them, decide the text and color, as [`Badge::for_days_ago`] says.
    pub fn for_duration(self, label: &str, value: UtcTime, now: UtcTime) -> (r: Self)
        ensures
            r@ == self@.preset_hard(
                label@,
                spec_days_ago(
                    chrono_whole_days(
                        now.spec_secs(),
                        now.spec_nanos(),
                        value.spec_secs(),
                        value.spec_nanos(),
                    ) as int,
                ).0,
                spec_days_ago(
                    chrono_whole_days(
                        now.spec_secs(),
                        now.spec_nanos(),
                        value.spec_secs(),
                        value.spec_nanos(),
                    ) as int,
                ).1,
            ),
    {
        let days = now.days_since(&value);
        self.for_days_ago(label, days)
    }
}

} // verus!
