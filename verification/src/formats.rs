//! Properties of the texts and colors that badges show, stated over their
//! inputs: the numbers read back from the digits shown, the unit symbols that
//! go with each unit size, the period suffixes, the pre-release colors and
//! the text color on gradients.

use vstd::prelude::*;

use crate::badge::{
    spec_days_ago, spec_downloads_text, spec_gradient_text_color, spec_svg_plan,
    spec_version_color, spec_version_text, text_or_empty, BadgeModel,
};
use crate::laws::lemma_trim_trimmed;
use crate::param::{spec_css, spec_text_color, Color, Period};
use crate::text::{
    decimal, empty_star, full_star, half_mark, iec_unit, metric_unit, spec_is_whitespace,
    spec_millify, spec_millify_iec, spec_stars, spec_trim, trim_end, trim_start,
};

verus! {

// ---------------------------------------------------------------------------
// Decimal digits
// ---------------------------------------------------------------------------

/// The number that a sequence of decimal digits spells.
pub open spec fn digits_value(s: Seq<char>) -> nat
    decreases s.len(),
{
    if s.len() == 0 {
        0
    } else {
        digits_value(s.drop_last()) * 10 + ((s.last() as int - 48) as nat)
    }
}

/// `c` is one of `0` to `9`.
pub open spec fn is_digit(c: char) -> bool {
    '0' <= c && c <= '9'
}

/// The decimal form of a number is made of digits, begins with `0` only for
/// zero itself, and reads back as the number.
pub proof fn law_decimal_reads_back(n: nat)
    ensures
        digits_value(decimal(n)) == n,
        decimal(n).len() >= 1,
        forall|i: int| 0 <= i < decimal(n).len() ==> is_digit(#[trigger] decimal(n)[i]),
        decimal(n)[0] == '0' ==> n == 0,
    decreases n,
{
    if n < 10 {
        let s = decimal(n);
        assert(s.drop_last() =~= Seq::<char>::empty());
        assert(digits_value(s.drop_last()) == 0);
        assert((s.last() as int - 48) == n);
    } else {
        law_decimal_reads_back(n / 10);
        let p = decimal(n / 10);
        let s = decimal(n);
        assert(s == p.push(((n % 10) as int + 48) as char));
        assert(s.drop_last() == p);
        assert(s[0] == p[0]);
        assert((s.last() as int - 48) == n % 10);
        assert(digits_value(s) == digits_value(p) * 10 + n % 10);
        assert forall|i: int| 0 <= i < s.len() implies is_digit(#[trigger] s[i]) by {
            if i < p.len() {
                assert(s[i] == p[i]);
            }
        }
    }
}

// ---------------------------------------------------------------------------
// Relative time
// ---------------------------------------------------------------------------

/// From two to thirty days, the badge shows the number of days.
pub proof fn law_days_ago_days(days: int)
    requires
        2 <= days <= 30,
    ensures
        spec_days_ago(days).0 == decimal(days as nat) + " days ago"@,
        spec_days_ago(days).1 == if days <= 7 {
            Color::Green
        } else {
            Color::Lime
        },
{
}

/// From a month to a year, the badge shows the number `months` of whole
/// 30-day months that have passed.
pub proof fn law_days_ago_months(days: int, months: nat)
    requires
        31 <= days <= 365,
        30 * months <= days < 30 * (months + 1),
    ensures
        spec_days_ago(days).0 == decimal(months) + " months ago"@,
        spec_days_ago(days).1 == if days <= 180 {
            Color::Yellow
        } else {
            Color::Orange
        },
{
    assert(days / 30 == months) by (nonlinear_arith)
        requires
            30 * months <= days < 30 * (months + 1),
    ;
}

/// After a year, the badge shows the number `years` of whole 365-day years
/// that have passed, however many there are, in red.
pub proof fn law_days_ago_years(days: int, years: nat)
    requires
        days > 365,
        365 * years <= days < 365 * (years + 1),
    ensures
        spec_days_ago(days).0 == decimal(years) + " years ago"@,
        spec_days_ago(days).1 == Color::Red,
        digits_value(decimal(years)) == years,
{
    assert(days / 365 == years) by (nonlinear_arith)
        requires
            365 * years <= days < 365 * (years + 1),
    ;
    law_decimal_reads_back(years);
}

// ---------------------------------------------------------------------------
// Downloads
// ---------------------------------------------------------------------------

/// Whatever the count, a weekly, monthly or yearly downloads badge shows the
/// compact count followed by `/week`, `/month` or `/year`, and a total one
/// shows the compact count alone.
pub proof fn law_downloads_suffix(v: nat)
    ensures
        spec_downloads_text(Period::Total, v) == spec_millify(v),
        spec_downloads_text(Period::Week, v) == spec_millify(v) + "/week"@,
        spec_downloads_text(Period::Month, v) == spec_millify(v) + "/month"@,
        spec_downloads_text(Period::Year, v) == spec_millify(v) + "/year"@,
        spec_downloads_text(Period::Week, v) == spec_downloads_text(Period::Total, v) + "/week"@,
        spec_downloads_text(Period::Month, v) == spec_downloads_text(Period::Total, v)
            + "/month"@,
        spec_downloads_text(Period::Year, v) == spec_downloads_text(Period::Total, v) + "/year"@,
{
}

// ---------------------------------------------------------------------------
// Units
// ---------------------------------------------------------------------------

/// `1000` to the power `k`.
pub open spec fn pow1000(k: nat) -> nat
    decreases k,
{
    if k == 0 {
        1
    } else {
        1000 * pow1000((k - 1) as nat)
    }
}

/// `1024` to the power `k`.
pub open spec fn pow1024(k: nat) -> nat
    decreases k,
{
    if k == 0 {
        1
    } else {
        1024 * pow1024((k - 1) as nat)
    }
}

/// The symbol of the metric unit `1000^k`, for `k` from 1 to 6.
pub open spec fn metric_prefix(k: nat) -> char {
    seq!['k', 'M', 'G', 'T', 'P', 'E'][k - 1]
}

/// The symbol of the binary unit `1024^k`, for `k` from 1 to 6.
pub open spec fn binary_prefix(k: nat) -> char {
    seq!['K', 'M', 'G', 'T', 'P', 'E'][k - 1]
}

proof fn lemma_powers()
    ensures
        pow1000(1) == 1_000,
        pow1000(2) == 1_000_000,
        pow1000(3) == 1_000_000_000,
        pow1000(4) == 1_000_000_000_000,
        pow1000(5) == 1_000_000_000_000_000,
        pow1000(6) == 1_000_000_000_000_000_000,
        pow1000(7) == 1_000_000_000_000_000_000_000,
        pow1024(1) == 0x400,
        pow1024(2) == 0x10_0000,
        pow1024(3) == 0x4000_0000,
        pow1024(4) == 0x100_0000_0000,
        pow1024(5) == 0x4_0000_0000_0000,
        pow1024(6) == 0x1000_0000_0000_0000,
        pow1024(7) == 0x40_0000_0000_0000_0000,
{
    reveal_with_fuel(pow1000, 8);
    reveal_with_fuel(pow1024, 8);
}

/// A count from `1000^k` up to below `1000^(k+1)` is shown in the unit
/// `1000^k` with that unit's symbol (`k`, `M`, `G`, `T`, `P`, `E`), which
/// ends the text; the text begins with the digits of the whole units.
pub proof fn law_metric_unit(v: nat, k: nat)
    requires
        1 <= k <= 6,
        pow1000(k) <= v,
        k < 6 ==> v < pow1000(k + 1),
    ensures
        metric_unit(v) == (pow1000(k), metric_prefix(k)),
        spec_millify(v).last() == metric_prefix(k),
        spec_millify(v).subrange(0, decimal(v / pow1000(k)).len() as int) == decimal(
            v / pow1000(k),
        ),
{
    lemma_powers();
    let base = pow1000(k);
    assert(metric_unit(v) == (base, metric_prefix(k)));
    let d = decimal(v / base);
    let s = spec_millify(v);
    assert(s.subrange(0, d.len() as int) =~= d);
}

/// A size from `1024^k` bytes up to below `1024^(k+1)` is shown in the unit
/// `1024^k` with that unit's symbol (`KiB`, `MiB`, `GiB`, `TiB`, `PiB`,
/// `EiB`), which ends the text; the text begins with the digits of the whole
/// units.
pub proof fn law_binary_unit(v: nat, k: nat)
    requires
        1 <= k <= 6,
        pow1024(k) <= v,
        k < 6 ==> v < pow1024(k + 1),
    ensures
        iec_unit(v) == (pow1024(k), binary_prefix(k)),
        spec_millify_iec(v).len() >= 4,
        spec_millify_iec(v).subrange(
            spec_millify_iec(v).len() - 4,
            spec_millify_iec(v).len() as int,
        ) == seq![' ', binary_prefix(k), 'i', 'B'],
        spec_millify_iec(v).subrange(0, decimal(v / pow1024(k)).len() as int) == decimal(
            v / pow1024(k),
        ),
{
    lemma_powers();
    let base = pow1024(k);
    assert(iec_unit(v) == (base, binary_prefix(k)));
    let d = decimal(v / base);
    let s = spec_millify_iec(v);
    let n = s.len() as int;
    assert(s.subrange(n - 4, n) =~= seq![' ', binary_prefix(k), 'i', 'B']);
    assert(s.subrange(0, d.len() as int) =~= d);
}

proof fn lemma_whole_and_tenth(v: nat, base: nat, whole: nat, tenth: nat)
    requires
        base > 0,
        whole * base <= v < (whole + 1) * base,
        tenth * base <= (v - whole * base) * 10 < (tenth + 1) * base,
    ensures
        v / base == whole,
        (v % base) * 10 / base == tenth,
{
    assert(v / base == whole) by (nonlinear_arith)
        requires
            base > 0,
            whole * base <= v < (whole + 1) * base,
    ;
    assert(v % base == v - whole * base) by (nonlinear_arith)
        requires
            base > 0,
            v / base == whole,
    ;
    let r = (v - whole * base) as nat;
    assert(r * 10 / base == tenth) by (nonlinear_arith)
        requires
            base > 0,
            tenth * base <= r * 10 < (tenth + 1) * base,
    ;
}

/// The digits after the whole units and before the unit symbol: nothing
/// when the first decimal is zero, else `.` and that decimal.
pub open spec fn tenth_text(tenth: nat) -> Seq<char> {
    if tenth == 0 {
        Seq::empty()
    } else {
        seq!['.', (tenth + 48) as char]
    }
}

/// A count of at least 1000, in the unit `1000^k` (as in
/// [`law_metric_unit`]), is shown as its `whole` units, then `.` and the
/// first decimal `tenth` of the units when that decimal is not zero (the
/// rest is cut off, not rounded), then the unit symbol.
pub proof fn law_millify_shape(v: nat, k: nat, whole: nat, tenth: nat)
    requires
        1 <= k <= 6,
        pow1000(k) <= v,
        k < 6 ==> v < pow1000(k + 1),
        whole * pow1000(k) <= v < (whole + 1) * pow1000(k),
        tenth * pow1000(k) <= (v - whole * pow1000(k)) * 10 < (tenth + 1) * pow1000(k),
    ensures
        spec_millify(v) == (decimal(whole) + tenth_text(tenth)).push(metric_prefix(k)),
{
    law_metric_unit(v, k);
    lemma_whole_and_tenth(v, pow1000(k), whole, tenth);
}

/// A size of at least 1024 bytes, in the unit `1024^k` (as in
/// [`law_binary_unit`]), is shown as its `whole` units, then `.` and the
/// first decimal `tenth` of the units when that decimal is not zero (the
/// rest is cut off, not rounded), then a space and the unit symbol.
pub proof fn law_millify_iec_shape(v: nat, k: nat, whole: nat, tenth: nat)
    requires
        1 <= k <= 6,
        pow1024(k) <= v,
        k < 6 ==> v < pow1024(k + 1),
        whole * pow1024(k) <= v < (whole + 1) * pow1024(k),
        tenth * pow1024(k) <= (v - whole * pow1024(k)) * 10 < (tenth + 1) * pow1024(k),
    ensures
        spec_millify_iec(v) == decimal(whole) + tenth_text(tenth) + seq![
            ' ',
            binary_prefix(k),
            'i',
            'B',
        ],
{
    law_binary_unit(v, k);
    lemma_whole_and_tenth(v, pow1024(k), whole, tenth);
}

/// Counts below 1000 are shown as their plain digits, and sizes below 1024
/// bytes as their plain digits and ` B`.
pub proof fn law_small_numbers_exact(v: nat)
    ensures
        v < 1000 ==> spec_millify(v) == decimal(v) && digits_value(spec_millify(v)) == v,
        v < 1024 ==> spec_millify_iec(v) == decimal(v) + seq![' ', 'B'],
{
    law_decimal_reads_back(v);
}

// ---------------------------------------------------------------------------
// Version colors
// ---------------------------------------------------------------------------

/// A pre-release marker of version texts.
pub open spec fn is_prerelease_marker(marker: Seq<char>) -> bool {
    marker == "alpha"@ || marker == "beta"@ || marker == "canary"@ || marker == "rc"@ || marker
        == "dev"@
}

/// A version text that holds `alpha`, `beta`, `canary`, `rc` or `dev`
/// anywhere, at position `i`, is shown in cyan.
pub proof fn law_prerelease_is_cyan(text: Seq<char>, marker: Seq<char>, i: int)
    requires
        is_prerelease_marker(marker),
        0 <= i,
        i + marker.len() <= text.len(),
        text.subrange(i, i + marker.len()) == marker,
    ensures
        spec_version_color(text) == Color::Cyan,
{
    assert(crate::text::occurs_at(text, marker, i));
}

/// A version text with the letters `r` and `c` side by side anywhere is shown
/// in cyan, as a release candidate.
pub proof fn law_release_candidate_is_cyan(text: Seq<char>, i: int)
    requires
        0 <= i,
        i + 1 < text.len(),
        text[i] == 'r',
        text[i + 1] == 'c',
    ensures
        spec_version_color(text) == Color::Cyan,
{
    reveal_strlit("rc");
    assert(text.subrange(i, i + 2) =~= "rc"@);
    law_prerelease_is_cyan(text, "rc"@, i);
}

// ---------------------------------------------------------------------------
// Text color on gradients
// ---------------------------------------------------------------------------

/// A gradient takes white text as soon as any of its colors, the first one
/// included, takes white text; it takes black text when all of them do.
pub proof fn law_gradient_text_color(g: Seq<Color>, i: int)
    ensures
        0 <= i < g.len() && spec_text_color(g[i]) == Color::White ==> spec_gradient_text_color(g)
            == Color::White,
        (forall|j: int| 0 <= j < g.len() ==> spec_text_color(#[trigger] g[j]) == Color::Black)
            ==> spec_gradient_text_color(g) == Color::Black,
{
}

/// On a value gradient, the value text is drawn white as soon as any color
/// of the gradient takes white text.
pub proof fn law_value_gradient_text(m: BadgeModel, has_icon: bool, g: Seq<Color>, i: int)
    requires
        m.value_gradient == Some(g),
        0 <= i < g.len(),
        spec_text_color(g[i]) == Color::White,
    ensures
        spec_svg_plan(m, has_icon).value_text_color == spec_css(Color::White),
{
    law_gradient_text_color(g, i);
}

/// On a label gradient, the label text is drawn white as soon as any color
/// of the gradient takes white text.
pub proof fn law_label_gradient_text(m: BadgeModel, has_icon: bool, g: Seq<Color>, i: int)
    requires
        m.label_gradient == Some(g),
        0 <= i < g.len(),
        spec_text_color(g[i]) == Color::White,
    ensures
        spec_svg_plan(m, has_icon).label_text_color == spec_css(Color::White),
{
    law_gradient_text_color(g, i);
}

// ---------------------------------------------------------------------------
// Trimming
// ---------------------------------------------------------------------------

proof fn lemma_trim_start_bound(s: Seq<char>) -> (a: int)
    ensures
        0 <= a <= s.len(),
        trim_start(s) == s.subrange(a, s.len() as int),
        forall|k: int| 0 <= k < a ==> spec_is_whitespace(#[trigger] s[k]),
        a < s.len() ==> !spec_is_whitespace(s[a]),
    decreases s.len(),
{
    if s.len() > 0 && spec_is_whitespace(s[0]) {
        let t = s.drop_first();
        let b = lemma_trim_start_bound(t);
        assert(t.subrange(b, t.len() as int) =~= s.subrange(b + 1, s.len() as int));
        assert forall|k: int| 0 <= k < b + 1 implies spec_is_whitespace(#[trigger] s[k]) by {
            if k > 0 {
                assert(s[k] == t[k - 1]);
            }
        }
        if b + 1 < s.len() {
            assert(s[b + 1] == t[b]);
        }
        b + 1
    } else {
        assert(s.subrange(0, s.len() as int) =~= s);
        0
    }
}

proof fn lemma_trim_end_bound(s: Seq<char>) -> (b: int)
    ensures
        0 <= b <= s.len(),
        trim_end(s) == s.subrange(0, b),
        forall|k: int| b <= k < s.len() ==> spec_is_whitespace(#[trigger] s[k]),
        b > 0 ==> !spec_is_whitespace(s[b - 1]),
    decreases s.len(),
{
    if s.len() > 0 && spec_is_whitespace(s.last()) {
        let t = s.drop_last();
        let b = lemma_trim_end_bound(t);
        assert(t.subrange(0, b) =~= s.subrange(0, b));
        assert forall|k: int| b <= k < s.len() implies spec_is_whitespace(#[trigger] s[k]) by {
            if k < t.len() {
                assert(s[k] == t[k]);
            }
        }
        if b > 0 {
            assert(s[b - 1] == t[b - 1]);
        }
        b
    } else {
        assert(s.subrange(0, s.len() as int) =~= s);
        s.len() as int
    }
}

/// Trimming removes exactly the whitespace at both ends: the result is the
/// part of the text from its first to its last character that is not
/// whitespace, and everything cut away is whitespace.
pub proof fn law_trim_cuts_only_whitespace(s: Seq<char>)
    ensures
        exists|a: int, b: int|
            {
                &&& 0 <= a <= b <= s.len()
                &&& spec_trim(s) == s.subrange(a, b)
                &&& forall|k: int| 0 <= k < a ==> spec_is_whitespace(#[trigger] s[k])
                &&& forall|k: int| b <= k < s.len() ==> spec_is_whitespace(#[trigger] s[k])
                &&& a < b ==> !spec_is_whitespace(s[a]) && !spec_is_whitespace(s[b - 1])
            },
{
    let a = lemma_trim_start_bound(s);
    let t = s.subrange(a, s.len() as int);
    let b = lemma_trim_end_bound(t);
    assert(t.subrange(0, b) =~= s.subrange(a, a + b));
    assert forall|k: int| a + b <= k < s.len() implies spec_is_whitespace(#[trigger] s[k]) by {
        assert(s[k] == t[k - a]);
    }
    if b > 0 {
        assert(s[a] == t[0]);
        assert(s[a + b - 1] == t[b - 1]);
    }
    assert(0 <= a <= a + b <= s.len());
}

// ---------------------------------------------------------------------------
// Version texts
// ---------------------------------------------------------------------------

/// The value of a version badge ignores whitespace around the version; an
/// empty version, `unknown` and `none` become `unknown`; a version that
/// starts with `v` is kept; any other version gets a `v` in front.
pub proof fn law_version_text_cases(lowered: Seq<char>)
    ensures
        spec_version_text(lowered) == spec_version_text(spec_trim(lowered)),
        ({
            let t = spec_trim(lowered);
            &&& (t.len() == 0 || t == "unknown"@ || t == "none"@) ==> spec_version_text(lowered)
                == "unknown"@
            &&& (t.len() > 0 && t[0] == 'v') ==> spec_version_text(lowered) == t
            &&& (t.len() > 0 && t[0] != 'v' && t != "unknown"@ && t != "none"@)
                ==> spec_version_text(lowered) == seq!['v'] + t
        }),
{
    reveal_strlit("v");
    lemma_trim_trimmed(lowered);
    let t = spec_trim(lowered);
    assert(spec_trim(t) == t);
    assert(spec_version_text(t) == spec_version_text(lowered));
    if t.len() > 0 {
        if t[0] == 'v' {
            reveal_strlit("unknown");
            reveal_strlit("none");
            assert(t.subrange(0, 1) =~= "v"@);
            assert(t != "unknown"@ && t != "none"@) by {
                assert("unknown"@[0] == 'u');
                assert("none"@[0] == 'n');
            }
        } else {
            assert(t.subrange(0, 1)[0] != "v"@[0]);
        }
    }
}

// ---------------------------------------------------------------------------
// Stars
// ---------------------------------------------------------------------------

/// A star line shows `full` full stars first, then the half mark when there
/// is one, then empty stars to the end.
pub proof fn law_stars_content(full: nat, half: bool)
    ensures
        ({
            let s = spec_stars(full, half);
            let h: nat = if half {
                1
            } else {
                0
            };
            &&& forall|i: int| 0 <= i < full ==> s[i] == full_star()
            &&& half ==> s[full as int] == half_mark()
            &&& forall|i: int| full + h <= i < s.len() ==> s[i] == empty_star()
        }),
{
}

// ---------------------------------------------------------------------------
// Titles
// ---------------------------------------------------------------------------

/// The texts of a rendered badge are its label and value without whitespace
/// around them, and its title joins them with `: `, or is the value alone
/// when the label is empty.
pub proof fn law_title(m: BadgeModel, has_icon: bool)
    ensures
        ({
            let p = spec_svg_plan(m, has_icon);
            &&& p.label_text == spec_trim(text_or_empty(m.label))
            &&& p.value_text == spec_trim(text_or_empty(m.value))
            &&& p.has_text == (p.label_text.len() > 0)
            &&& p.has_text ==> p.title == p.label_text + seq![':', ' '] + p.value_text
            &&& !p.has_text ==> p.title == p.value_text
        }),
{
    reveal_strlit(": ");
    let p = spec_svg_plan(m, has_icon);
    if p.has_text {
        assert(p.label_text + ": "@ + p.value_text =~= p.label_text + seq![':', ' ']
            + p.value_text);
    }
}

} // verus!
