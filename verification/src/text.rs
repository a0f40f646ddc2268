//! Text utilities: whitespace trimming, substring search, and the compact
//! number formats shown on badges.

use vstd::prelude::*;

verus! {

// ---------------------------------------------------------------------------
// Characters and strings
// ---------------------------------------------------------------------------

/// The characters of a string, in order.
pub fn chars_of(s: &str) -> (v: Vec<char>)
    ensures
        v@ == s@,
{
    let n = s.unicode_len();
    let mut v: Vec<char> = Vec::new();
    let mut i: usize = 0;
    while i < n
        invariant
            n == s@.len(),
            i <= n,
            v@ == s@.subrange(0, i as int),
        decreases n - i,
    {
        let c = s.get_char(i);
        v.push(c);
        i = i + 1;
    }
    v
}

/// Appends the characters `v[from..to]` to `out`.
pub fn push_chars(out: &mut String, v: &Vec<char>, from: usize, to: usize)
    requires
        from <= to <= v@.len(),
    ensures
        final(out)@ == old(out)@ + v@.subrange(from as int, to as int),
{
    let mut i = from;
    while i < to
        invariant
            from <= i <= to <= v@.len(),
            out@ == old(out)@ + v@.subrange(from as int, i as int),
        decreases to - i,
    {
        out.push(v[i]);
        proof {
            assert(v@.subrange(from as int, i + 1) == v@.subrange(from as int, i as int).push(
                v@[i as int],
            ));
        }
        i = i + 1;
    }
}

/// Whether two character sequences are equal.
pub fn chars_eq(a: &Vec<char>, b: &Vec<char>) -> (r: bool)
    ensures
        r == (a@ == b@),
{
    if a.len() != b.len() {
        return false;
    }
    let mut i: usize = 0;
    while i < a.len()
        invariant
            a@.len() == b@.len(),
            i <= a@.len(),
            forall|k: int| 0 <= k < i ==> a@[k] == b@[k],
        decreases a.len() - i,
    {
        if a[i] != b[i] {
            return false;
        }
        i = i + 1;
    }
    proof {
        assert(a@ =~= b@);
    }
    true
}

/// Whether the characters of `a` spell the string `b`.
pub fn chars_eq_str(a: &Vec<char>, b: &str) -> (r: bool)
    ensures
        r == (a@ == b@),
{
    let bv = chars_of(b);
    chars_eq(a, &bv)
}

// ---------------------------------------------------------------------------
// Whitespace
// ---------------------------------------------------------------------------

/// Unicode `White_Space` characters.
pub open spec fn spec_is_whitespace(c: char) -> bool {
    ||| c == '\t'
    ||| c == '\n'
    ||| c == '\u{b}'
    ||| c == '\u{c}'
    ||| c == '\r'
    ||| c == ' '
    ||| c == '\u{85}'
    ||| c == '\u{a0}'
    ||| c == '\u{1680}'
    ||| ('\u{2000}' <= c && c <= '\u{200a}')
    ||| c == '\u{2028}'
    ||| c == '\u{2029}'
    ||| c == '\u{202f}'
    ||| c == '\u{205f}'
    ||| c == '\u{3000}'
}

/// Whether `c` is a Unicode `White_Space` character.
pub fn is_whitespace(c: char) -> (r: bool)
    ensures
        r == spec_is_whitespace(c),
{
    c == '\t' || c == '\n' || c == '\u{b}' || c == '\u{c}' || c == '\r' || c == ' ' || c
        == '\u{85}' || c == '\u{a0}' || c == '\u{1680}' || ('\u{2000}' <= c && c <= '\u{200a}')
        || c == '\u{2028}' || c == '\u{2029}' || c == '\u{202f}' || c == '\u{205f}' || c
        == '\u{3000}'
}

/// `s` without its leading whitespace.
pub open spec fn trim_start(s: Seq<char>) -> Seq<char>
    decreases s.len(),
{
    if s.len() > 0 && spec_is_whitespace(s[0]) {
        trim_start(s.drop_first())
    } else {
        s
    }
}

/// `s` without its trailing whitespace.
pub open spec fn trim_end(s: Seq<char>) -> Seq<char>
    decreases s.len(),
{
    if s.len() > 0 && spec_is_whitespace(s.last()) {
        trim_end(s.drop_last())
    } else {
        s
    }
}

/// `s` without its leading and trailing whitespace.
pub open spec fn spec_trim(s: Seq<char>) -> Seq<char> {
    trim_end(trim_start(s))
}

proof fn lemma_trim_start_skip(s: Seq<char>, i: int)
    requires
        0 <= i <= s.len(),
        forall|k: int| 0 <= k < i ==> spec_is_whitespace(#[trigger] s[k]),
    ensures
        trim_start(s) == trim_start(s.subrange(i, s.len() as int)),
    decreases i,
{
    if i == 0 {
        assert(s.subrange(0, s.len() as int) =~= s);
    } else {
        let t = s.drop_first();
        assert forall|k: int| 0 <= k < i - 1 implies spec_is_whitespace(#[trigger] t[k]) by {
            assert(t[k] == s[k + 1]);
        }
        lemma_trim_start_skip(t, i - 1);
        assert(t.subrange(i - 1, t.len() as int) =~= s.subrange(i, s.len() as int));
        assert(spec_is_whitespace(s[0]));
    }
}

proof fn lemma_trim_end_skip(s: Seq<char>, j: int)
    requires
        0 <= j <= s.len(),
        forall|k: int| j <= k < s.len() ==> spec_is_whitespace(#[trigger] s[k]),
    ensures
        trim_end(s) == trim_end(s.subrange(0, j)),
    decreases s.len() - j,
{
    if j == s.len() {
        assert(s.subrange(0, j) =~= s);
    } else {
        let t = s.drop_last();
        assert(spec_is_whitespace(s[s.len() - 1]));
        assert forall|k: int| j <= k < t.len() implies spec_is_whitespace(#[trigger] t[k]) by {
            assert(t[k] == s[k]);
        }
        lemma_trim_end_skip(t, j);
        assert(t.subrange(0, j) =~= s.subrange(0, j));
    }
}

/// The characters of `v` without leading and trailing whitespace.
pub fn trim_chars(v: &Vec<char>) -> (r: String)
    ensures
        r@ == spec_trim(v@),
{
    let n = v.len();
    let mut a: usize = 0;
    while a < n && is_whitespace(v[a])
        invariant
            n == v@.len(),
            a <= n,
            forall|k: int| 0 <= k < a ==> spec_is_whitespace(#[trigger] v@[k]),
        decreases n - a,
    {
        a = a + 1;
    }
    let mut b: usize = n;
    while b > a && is_whitespace(v[b - 1])
        invariant
            n == v@.len(),
            a <= b <= n,
            forall|k: int| b <= k < n ==> spec_is_whitespace(#[trigger] v@[k]),
        decreases b - a,
    {
        b = b - 1;
    }
    proof {
        let s = v@;
        lemma_trim_start_skip(s, a as int);
        let t = s.subrange(a as int, n as int);
        assert(trim_start(t) == t);
        let j = (b - a) as int;
        assert forall|k: int| j <= k < t.len() implies spec_is_whitespace(#[trigger] t[k]) by {
            assert(t[k] == s[k + a]);
        }
        lemma_trim_end_skip(t, j);
        let u = t.subrange(0, j);
        assert(u =~= s.subrange(a as int, b as int));
        if u.len() > 0 {
            assert(u.last() == s[b - 1]);
        }
        assert(trim_end(u) == u);
    }
    let mut out = String::new();
    push_chars(&mut out, v, a, b);
    out
}

/// A string without its leading and trailing whitespace.
pub fn trim(s: &str) -> (r: String)
    ensures
        r@ == spec_trim(s@),
{
    let v = chars_of(s);
    trim_chars(&v)
}

// ---------------------------------------------------------------------------
// Substrings
// ---------------------------------------------------------------------------

/// `needle` occurs in `hay` at position `i`.
pub open spec fn occurs_at(hay: Seq<char>, needle: Seq<char>, i: int) -> bool {
    0 <= i && i + needle.len() <= hay.len() && hay.subrange(i, i + needle.len()) == needle
}

/// `needle` occurs somewhere in `hay`.
pub open spec fn spec_contains(hay: Seq<char>, needle: Seq<char>) -> bool {
    exists|i: int| #[trigger] occurs_at(hay, needle, i)
}

/// `hay` begins with `prefix`.
pub open spec fn spec_starts_with(hay: Seq<char>, prefix: Seq<char>) -> bool {
    occurs_at(hay, prefix, 0)
}

fn matches_at(hay: &Vec<char>, needle: &Vec<char>, i: usize) -> (r: bool)
    requires
        i + needle@.len() <= hay@.len(),
    ensures
        r == occurs_at(hay@, needle@, i as int),
{
    let hl = hay.len();
    let mut k: usize = 0;
    while k < needle.len()
        invariant
            hl == hay@.len(),
            i + needle@.len() <= hay@.len(),
            k <= needle@.len(),
            forall|m: int| 0 <= m < k ==> hay@[i + m] == needle@[m],
        decreases needle.len() - k,
    {
        assert(i + k < hay@.len());
        if hay[i + k] != needle[k] {
            proof {
                let sub = hay@.subrange(i as int, i + needle@.len());
                assert(sub[k as int] != needle@[k as int]);
            }
            return false;
        }
        k = k + 1;
    }
    proof {
        assert(hay@.subrange(i as int, i + needle@.len()) =~= needle@);
    }
    true
}

/// Whether `needle` occurs in `hay`.
pub fn contains(hay: &Vec<char>, needle: &str) -> (r: bool)
    ensures
        r == spec_contains(hay@, needle@),
{
    let nv = chars_of(needle);
    if nv.len() == 0 {
        proof {
            assert(hay@.subrange(0, 0) =~= needle@);
            assert(occurs_at(hay@, needle@, 0));
        }
        return true;
    }
    if nv.len() > hay.len() {
        proof {
            assert forall|i: int| !occurs_at(hay@, needle@, i) by {}
        }
        return false;
    }
    let hl = hay.len();
    let last = hl - nv.len();
    let mut i: usize = 0;
    while i <= last
        invariant
            hl == hay@.len(),
            nv@ == needle@,
            last + nv@.len() == hay@.len(),
            nv@.len() > 0,
            i <= last + 1,
            forall|j: int| 0 <= j < i ==> !occurs_at(hay@, needle@, j),
        decreases last + 1 - i,
    {
        if matches_at(hay, &nv, i) {
            return true;
        }
        i = i + 1;
    }
    proof {
        assert forall|j: int| !occurs_at(hay@, needle@, j) by {
            if 0 <= j < i {
            }
        }
    }
    false
}

/// Whether `hay` begins with `prefix`.
pub fn starts_with(hay: &Vec<char>, prefix: &str) -> (r: bool)
    ensures
        r == spec_starts_with(hay@, prefix@),
{
    let pv = chars_of(prefix);
    if pv.len() > hay.len() {
        return false;
    }
    matches_at(hay, &pv, 0)
}

// ---------------------------------------------------------------------------
// Numbers
// ---------------------------------------------------------------------------

/// The character of the decimal digit `d` (below 10).
pub open spec fn digit_char(d: int) -> char {
    (d + 48) as char
}

/// The decimal digits of `n`, without leading zeros.
pub open spec fn decimal(n: nat) -> Seq<char>
    decreases n,
{
    if n < 10 {
        seq![digit_char(n as int)]
    } else {
        decimal(n / 10).push(digit_char((n % 10) as int))
    }
}

/// The decimal form of an integer, with a leading `-` when it is negative.
pub open spec fn signed_decimal(x: int) -> Seq<char> {
    if x < 0 {
        seq!['-'] + decimal((-x) as nat)
    } else {
        decimal(x as nat)
    }
}

/// Appends the decimal digits of `n` to `out`.
pub fn push_decimal(out: &mut String, n: u64)
    ensures
        final(out)@ == old(out)@ + decimal(n as nat),
    decreases n,
{
    if n >= 10 {
        push_decimal(out, n / 10);
    }
    let d = (n % 10) as u8;
    out.push((d + 48) as char);
    proof {
        if n < 10 {
            assert(old(out)@ + decimal(n as nat) =~= old(out)@.push(digit_char(n as int)));
        } else {
            assert(old(out)@ + decimal(n as nat) =~= (old(out)@ + decimal((n / 10) as nat)).push(
                digit_char((n % 10) as int),
            ));
        }
    }
}

/// Appends the decimal form of `x`, with a leading `-` when it is negative.
pub fn push_signed_decimal(out: &mut String, x: i64)
    ensures
        final(out)@ == old(out)@ + signed_decimal(x as int),
{
    if x < 0 {
        out.push('-');
        let magnitude: u64 = (0i128 - (x as i128)) as u64;
        push_decimal(out, magnitude);
        proof {
            assert(old(out)@ + signed_decimal(x as int) =~= old(out)@.push('-') + decimal(
                magnitude as nat,
            ));
        }
    } else {
        push_decimal(out, x as u64);
    }
}

/// The decimal form of `n`.
pub fn decimal_string(n: u64) -> (r: String)
    ensures
        r@ == decimal(n as nat),
{
    let mut out = String::new();
    push_decimal(&mut out, n);
    out
}

/// `v / base` followed, when the first decimal of the quotient is not zero,
/// by `.` and that decimal (the rest is cut off).
pub open spec fn one_decimal(v: nat, base: nat) -> Seq<char> {
    let tenth = (v % base) * 10 / base;
    decimal(v / base) + if tenth == 0 {
        Seq::<char>::empty()
    } else {
        seq!['.', digit_char(tenth as int)]
    }
}

/// The metric unit of a count of at least 1000: its size and its symbol.
pub open spec fn metric_unit(v: nat) -> (nat, char) {
    if v >= 1_000_000_000_000_000_000 {
        (1_000_000_000_000_000_000, 'E')
    } else if v >= 1_000_000_000_000_000 {
        (1_000_000_000_000_000, 'P')
    } else if v >= 1_000_000_000_000 {
        (1_000_000_000_000, 'T')
    } else if v >= 1_000_000_000 {
        (1_000_000_000, 'G')
    } else if v >= 1_000_000 {
        (1_000_000, 'M')
    } else {
        (1_000, 'k')
    }
}

/// A compact count: below 1000 the number itself, else the count in its
/// largest metric unit with at most one decimal, such as `1.2k` or `3M`.
pub open spec fn spec_millify(v: nat) -> Seq<char> {
    if v < 1000 {
        decimal(v)
    } else {
        let (base, symbol) = metric_unit(v);
        one_decimal(v, base).push(symbol)
    }
}

/// The binary unit of a size of at least 1024 bytes: its size and its symbol.
pub open spec fn iec_unit(v: nat) -> (nat, char) {
    if v >= 0x1000_0000_0000_0000 {
        (0x1000_0000_0000_0000, 'E')
    } else if v >= 0x4_0000_0000_0000 {
        (0x4_0000_0000_0000, 'P')
    } else if v >= 0x100_0000_0000 {
        (0x100_0000_0000, 'T')
    } else if v >= 0x4000_0000 {
        (0x4000_0000, 'G')
    } else if v >= 0x10_0000 {
        (0x10_0000, 'M')
    } else {
        (0x400, 'K')
    }
}

/// A byte size: below 1024 the number and ` B`, else the size in its largest
/// binary unit with at most one decimal, such as `1.2 MiB`.
pub open spec fn spec_millify_iec(v: nat) -> Seq<char> {
    if v < 1024 {
        decimal(v) + seq![' ', 'B']
    } else {
        let (base, symbol) = iec_unit(v);
        one_decimal(v, base) + seq![' ', symbol, 'i', 'B']
    }
}

proof fn lemma_tenth_bound(v: nat, base: nat)
    requires
        base > 0,
    ensures
        (v % base) * 10 < base * 10,
        (v % base) * 10 / base < 10,
{
    let r = v % base;
    assert(r < base);
    assert(r * 10 < base * 10);
    assert(r * 10 / base < 10) by (nonlinear_arith)
        requires
            r * 10 < base * 10,
            base > 0,
    ;
}

fn push_one_decimal(out: &mut String, v: u64, base: u64)
    requires
        0 < base <= 0x1000_0000_0000_0000,
    ensures
        final(out)@ == old(out)@ + one_decimal(v as nat, base as nat),
{
    proof {
        lemma_tenth_bound(v as nat, base as nat);
    }
    let tenth = (v % base) * 10 / base;
    push_decimal(out, v / base);
    if tenth != 0 {
        out.push('.');
        out.push(((tenth as u8) + 48) as char);
    }
    proof {
        let t = (v as nat % base as nat) * 10 / (base as nat);
        assert(tenth == t);
        if tenth == 0 {
            assert(old(out)@ + one_decimal(v as nat, base as nat) =~= old(out)@ + decimal(
                (v / base) as nat,
            ));
        } else {
            assert(old(out)@ + one_decimal(v as nat, base as nat) =~= (old(out)@ + decimal(
                (v / base) as nat,
            )).push('.').push(digit_char(tenth as int)));
        }
    }
}

/// A compact count such as `1.2k`: see [`spec_millify`].
pub fn millify(v: u64) -> (r: String)
    ensures
        r@ == spec_millify(v as nat),
{
    let mut out = String::new();
    if v < 1000 {
        push_decimal(&mut out, v);
        return out;
    }
    let (base, symbol): (u64, char) = if v >= 1_000_000_000_000_000_000 {
        (1_000_000_000_000_000_000, 'E')
    } else if v >= 1_000_000_000_000_000 {
        (1_000_000_000_000_000, 'P')
    } else if v >= 1_000_000_000_000 {
        (1_000_000_000_000, 'T')
    } else if v >= 1_000_000_000 {
        (1_000_000_000, 'G')
    } else if v >= 1_000_000 {
        (1_000_000, 'M')
    } else {
        (1_000, 'k')
    };
    push_one_decimal(&mut out, v, base);
    out.push(symbol);
    out
}

/// A byte size such as `1.2 MiB`: see [`spec_millify_iec`].
pub fn millify_iec(v: u64) -> (r: String)
    ensures
        r@ == spec_millify_iec(v as nat),
{
    let mut out = String::new();
    if v < 1024 {
        push_decimal(&mut out, v);
        out.push(' ');
        out.push('B');
        proof {
            assert(out@ =~= decimal(v as nat) + seq![' ', 'B']);
        }
        return out;
    }
    let (base, symbol): (u64, char) = if v >= 0x1000_0000_0000_0000 {
        (0x1000_0000_0000_0000, 'E')
    } else if v >= 0x4_0000_0000_0000 {
        (0x4_0000_0000_0000, 'P')
    } else if v >= 0x100_0000_0000 {
        (0x100_0000_0000, 'T')
    } else if v >= 0x4000_0000 {
        (0x4000_0000, 'G')
    } else if v >= 0x10_0000 {
        (0x10_0000, 'M')
    } else {
        (0x400, 'K')
    };
    push_one_decimal(&mut out, v, base);
    let ghost before = out@;
    out.push(' ');
    out.push(symbol);
    out.push('i');
    out.push('B');
    proof {
        assert(out@ =~= before + seq![' ', symbol, 'i', 'B']);
    }
    out
}

// ---------------------------------------------------------------------------
// Stars
// ---------------------------------------------------------------------------

/// A full star.
pub open spec fn full_star() -> char {
    '\u{2605}'
}

/// An empty star.
pub open spec fn empty_star() -> char {
    '\u{2606}'
}

/// The half mark.
pub open spec fn half_mark() -> char {
    '\u{bd}'
}

/// `full` full stars, then a half mark when `half`, then empty stars up to
/// five marks in all.
pub open spec fn spec_stars(full: nat, half: bool) -> Seq<char> {
    let head = Seq::new(full, |i: int| full_star()) + if half {
        seq![half_mark()]
    } else {
        Seq::<char>::empty()
    };
    if head.len() < 5 {
        head + Seq::new((5 - head.len()) as nat, |i: int| empty_star())
    } else {
        head
    }
}

fn push_repeated(out: &mut String, c: char, n: usize)
    ensures
        final(out)@ == old(out)@ + Seq::new(n as nat, |i: int| c),
{
    let mut k: usize = 0;
    while k < n
        invariant
            k <= n,
            out@ == old(out)@ + Seq::new(k as nat, |i: int| c),
        decreases n - k,
    {
        out.push(c);
        proof {
            assert(old(out)@ + Seq::new((k + 1) as nat, |i: int| c) =~= (old(out)@ + Seq::new(
                k as nat,
                |i: int| c,
            )).push(c));
        }
        k = k + 1;
    }
}

/// A five-mark star line: see [`spec_stars`].
pub fn stars(full: usize, half: bool) -> (r: String)
    ensures
        r@ == spec_stars(full as nat, half),
{
    let mut out = String::new();
    push_repeated(&mut out, '\u{2605}', full);
    let mut size: usize = full;
    if half {
        out.push('\u{bd}');
        proof {
            assert(Seq::<char>::empty() + Seq::new(full as nat, |i: int| full_star()) + seq![
                half_mark(),
            ] =~= (Seq::<char>::empty() + Seq::new(full as nat, |i: int| full_star())).push(
                half_mark(),
            ));
        }
        if size < 5 {
            size = size + 1;
        }
    }
    let ghost head = Seq::new(full as nat, |i: int| full_star()) + if half {
        seq![half_mark()]
    } else {
        Seq::<char>::empty()
    };
    proof {
        assert(out@ =~= head);
    }
    if size < 5 {
        push_repeated(&mut out, '\u{2606}', 5 - size);
    }
    out
}

// ---------------------------------------------------------------------------
// Case mapping
// ---------------------------------------------------------------------------

/// The Unicode lowercase mapping of a string, as `str::to_lowercase` computes it.
pub uninterp spec fn lowercase(s: Seq<char>) -> Seq<char>;

/// Calls `str::to_lowercase`, which maps every character to its Unicode
/// lowercase form. The contract only names the result: it depends on the
/// characters of `s` alone.
#[verifier::external_body]
pub(crate) fn to_lowercase(s: &str) -> (r: String)
    ensures
        r@ == lowercase(s@),
{
    s.to_lowercase()
}

} // verus!
