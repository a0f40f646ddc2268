//! Properties of the badge builders, presets and rendering decisions that
//! hold for all inputs.

use vstd::prelude::*;

use crate::badge::{spec_svg_plan, spec_version_text, BadgeModel};
use crate::param::{spec_css, spec_text_color, Color, Style};
use crate::text::{
    iec_unit, metric_unit, spec_is_whitespace, spec_stars, spec_starts_with, spec_trim, trim_end,
    trim_start,
};

verus! {

/// Setting a value color after a value gradient gives the same badge as
/// setting the color alone, and the other way round: the last background
/// setter wins, and a badge never keeps both.
pub proof fn law_value_background_last_wins(m: BadgeModel, c: Color, g: Seq<Color>)
    ensures
        m.with_value_gradient(g).with_value_color(c) == m.with_value_color(c),
        m.with_value_color(c).with_value_gradient(g) == m.with_value_gradient(g),
        m.with_value_color(c).value_gradient is None,
        m.with_value_gradient(g).value_color is None,
{
}

/// The same for the label: the last of a label color and a label gradient
/// wins.
pub proof fn law_label_background_last_wins(m: BadgeModel, c: Color, g: Seq<Color>)
    ensures
        m.with_label_gradient(g).with_label_color(c) == m.with_label_color(c),
        m.with_label_color(c).with_label_gradient(g) == m.with_label_gradient(g),
        m.with_label_color(c).label_gradient is None,
        m.with_label_gradient(g).label_color is None,
{
}

/// The version, license and downloads presets keep a label and a value
/// background that were set before them, and touch nothing but the label,
/// value and value color.
pub proof fn law_soft_preset_keeps_choices(
    m: BadgeModel,
    label: Seq<char>,
    value: Seq<char>,
    color: Color,
)
    ensures
        ({
            let r = m.preset_soft(label, value, color);
            &&& m.label is Some ==> r.label == m.label
            &&& m.label is None ==> r.label == Some(label)
            &&& r.value == Some(value)
            &&& (m.value_color is Some || m.value_gradient is Some) ==> r.value_color
                == m.value_color
            &&& (m.value_color is None && m.value_gradient is None) ==> r.value_color == Some(
                color,
            )
            &&& r.value_gradient == m.value_gradient
            &&& r.label_color == m.label_color && r.label_gradient == m.label_gradient
            &&& r.logo == m.logo && r.logo_color == m.logo_color
            &&& r.radius == m.radius && r.style == m.style
        }),
{
}

/// The CI, count, size and relative-time presets keep a label set before
/// them, and always set the value and a solid value color.
pub proof fn law_hard_preset_sets_value_color(
    m: BadgeModel,
    label: Seq<char>,
    value: Seq<char>,
    color: Color,
)
    ensures
        ({
            let r = m.preset_hard(label, value, color);
            &&& m.label is Some ==> r.label == m.label
            &&& m.label is None ==> r.label == Some(label)
            &&& r.value == Some(value)
            &&& r.value_color == Some(color)
            &&& r.value_gradient is None
            &&& r.label_color == m.label_color && r.label_gradient == m.label_gradient
            &&& r.logo == m.logo && r.logo_color == m.logo_color
            &&& r.radius == m.radius && r.style == m.style
        }),
{
}

proof fn lemma_trim_start_shape(s: Seq<char>)
    ensures
        trim_start(s).len() > 0 ==> !spec_is_whitespace(trim_start(s)[0]),
        trim_start(s).len() <= s.len(),
    decreases s.len(),
{
    if s.len() > 0 && spec_is_whitespace(s[0]) {
        lemma_trim_start_shape(s.drop_first());
    }
}

proof fn lemma_trim_end_shape(s: Seq<char>)
    ensures
        trim_end(s).len() > 0 ==> !spec_is_whitespace(trim_end(s).last()),
        trim_end(s).len() <= s.len(),
        trim_end(s) == s.subrange(0, trim_end(s).len() as int),
    decreases s.len(),
{
    if s.len() > 0 && spec_is_whitespace(s.last()) {
        let t = s.drop_last();
        lemma_trim_end_shape(t);
        let k = trim_end(t).len() as int;
        assert(t.subrange(0, k) =~= s.subrange(0, k));
    } else {
        assert(s.subrange(0, s.len() as int) =~= s);
    }
}

/// A text without whitespace at either end is its own trim.
proof fn lemma_trim_fixed(s: Seq<char>)
    requires
        s.len() > 0 ==> !spec_is_whitespace(s[0]) && !spec_is_whitespace(s.last()),
    ensures
        spec_trim(s) == s,
{
}

/// Trimming twice is trimming once, and a trimmed text has no whitespace at
/// either end.
pub proof fn lemma_trim_trimmed(s: Seq<char>)
    ensures
        spec_trim(spec_trim(s)) == spec_trim(s),
        spec_trim(s).len() > 0 ==> !spec_is_whitespace(spec_trim(s)[0]),
        spec_trim(s).len() > 0 ==> !spec_is_whitespace(spec_trim(s).last()),
{
    lemma_trim_start_shape(s);
    let a = trim_start(s);
    lemma_trim_end_shape(a);
    let t = trim_end(a);
    if t.len() > 0 {
        assert(t[0] == a[0]);
    }
    lemma_trim_fixed(t);
}

/// The value of a version badge is `unknown` or begins with `v`.
pub proof fn law_version_text_shape(lowered: Seq<char>)
    ensures
        spec_version_text(lowered) == "unknown"@ || spec_starts_with(
            spec_version_text(lowered),
            "v"@,
        ),
{
    reveal_strlit("v");
    let t = spec_trim(lowered);
    let r = spec_version_text(lowered);
    if !(t.len() == 0 || t == "unknown"@ || t == "none"@) && !spec_starts_with(t, "v"@) {
        assert(r == seq!['v'] + t);
        assert(r.subrange(0, 1) =~= "v"@);
    }
}

/// Normalizing the value of a version badge twice gives the same value as
/// normalizing it once: `unknown` stays `unknown`, and a value that got its
/// leading `v` gets no second one.
pub proof fn law_version_text_idempotent(lowered: Seq<char>)
    ensures
        spec_version_text(spec_version_text(lowered)) == spec_version_text(lowered),
{
    reveal_strlit("v");
    reveal_strlit("unknown");
    reveal_strlit("none");
    lemma_trim_trimmed(lowered);
    let t = spec_trim(lowered);
    let r = spec_version_text(lowered);
    if t.len() == 0 || t == "unknown"@ || t == "none"@ {
        assert(r == "unknown"@);
        lemma_trim_fixed(r);
        assert(spec_trim(r) == r);
    } else if spec_starts_with(t, "v"@) {
        assert(r == t);
    } else {
        assert(r == seq!['v'] + t);
        assert(r[0] == 'v');
        assert(r.last() == t.last());
        lemma_trim_fixed(r);
        assert(spec_trim(r) == r);
        assert(r.subrange(0, 1) =~= "v"@);
        assert(spec_starts_with(r, "v"@));
        assert(r != "unknown"@ && r != "none"@) by {
            assert("unknown"@[0] == 'u');
            assert("none"@[0] == 'n');
        }
    }
}

/// Without customization, labels are drawn on black and values on blue,
/// each with its readable text color.
pub proof fn law_default_colors(has_icon: bool)
    ensures
        ({
            let p = spec_svg_plan(BadgeModel::empty(), has_icon);
            &&& p.label_background == spec_css(Color::Black)
            &&& p.value_background == spec_css(Color::Blue)
            &&& p.label_text_color == spec_css(spec_text_color(Color::Black))
            &&& p.value_text_color == spec_css(spec_text_color(Color::Blue))
        }),
{
}

/// The rendered corner radius is the radius that was set, clamped to 12;
/// without one it is 3 for the flat style and 0 for the square style.
pub proof fn law_radius_clamped(m: BadgeModel, has_icon: bool)
    ensures
        spec_svg_plan(m, has_icon).radius <= 12,
        m.radius matches Some(r) ==> spec_svg_plan(m, has_icon).radius == if r > 12 {
            12
        } else {
            r
        },
        m.radius is None ==> spec_svg_plan(m, has_icon).radius == if m.style == Style::Flat {
            3u8
        } else {
            0u8
        },
{
}

/// A rendered gradient has one stop per color, each the color's CSS form,
/// and so at least two stops; a part without a gradient has none.
pub proof fn law_gradient_stops(m: BadgeModel, has_icon: bool)
    requires
        m.wf(),
    ensures
        ({
            let p = spec_svg_plan(m, has_icon);
            &&& m.value_gradient matches Some(g) ==> {
                &&& p.value_stops.len() == g.len()
                &&& p.value_stops.len() >= 2
                &&& forall|i: int| 0 <= i < g.len() ==> p.value_stops[i] == spec_css(g[i])
                &&& p.value_background == "url(#vg)"@
            }
            &&& m.value_gradient is None ==> p.value_stops.len() == 0
            &&& m.label_gradient matches Some(g) ==> {
                &&& p.label_stops.len() == g.len()
                &&& p.label_stops.len() >= 2
                &&& forall|i: int| 0 <= i < g.len() ==> p.label_stops[i] == spec_css(g[i])
                &&& p.label_background == "url(#lg)"@
            }
            &&& m.label_gradient is None ==> p.label_stops.len() == 0
        }),
{
}

/// A compact count uses the largest metric unit that fits: the whole part
/// shown is at least 1 and below 1000 for every count a `u64` holds.
pub proof fn law_millify_unit_fits(v: u64)
    ensures
        v >= 1000 ==> 1 <= v as nat / metric_unit(v as nat).0 < 1000,
{
}

/// A byte size uses the largest binary unit that fits: the whole part shown
/// is at least 1 and below 1024 for every size a `u64` holds.
pub proof fn law_millify_iec_unit_fits(v: u64)
    ensures
        v >= 1024 ==> 1 <= v as nat / iec_unit(v as nat).0 < 1024,
{
}

/// A star line has five marks, or as many as the full stars and the half
/// mark where those are more.
pub proof fn law_stars_length(full: nat, half: bool)
    ensures
        spec_stars(full, half).len() == if full + (if half { 1nat } else { 0nat }) < 5 {
            5
        } else {
            full + (if half { 1nat } else { 0nat })
        },
{
}

/// A badge without label text and without a logo is drawn as a single part,
/// titled with its value alone.
pub proof fn law_no_label_is_mono(m: BadgeModel)
    ensures
        spec_svg_plan(m, false).has_text == false ==> spec_svg_plan(m, false).mono
            && spec_svg_plan(m, false).title == spec_svg_plan(m, false).value_text,
{
}

} // verus!
