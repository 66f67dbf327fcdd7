//! Parsers for the gradient and coordinate strings the command line
//! accepts.
//!
//! A gradient is `color,color[,color][,midpoint]`: each color is an
//! SVG/CSS3 name or a `#rrggbb` hex code, the midpoint a decimal
//! fraction. A coordinate pair is `x,y` with decimal components.
//! Decimals are read into the library's micro-unit fixed point,
//! truncating digits past the sixth fractional place.

use vstd::prelude::*;

use crate::params::Color;
use crate::params::SCALE;

verus! {

/// Whether `c` is an ASCII decimal digit.
pub open spec fn is_digit(c: char) -> bool {
    48 <= c as u32 <= 57
}

/// The numeric value of a decimal digit, 0 for anything else.
pub open spec fn digit_val(c: char) -> int {
    if is_digit(c) {
        c as u32 - 48
    } else {
        0
    }
}

/// Whether `c` is an ASCII hexadecimal digit, either case.
pub open spec fn is_hex_digit(c: char) -> bool {
    ||| 48 <= c as u32 <= 57
    ||| 97 <= c as u32 <= 102
    ||| 65 <= c as u32 <= 70
}

/// The numeric value of a hexadecimal digit, 0 for anything else.
pub open spec fn hex_val(c: char) -> int {
    if 48 <= c as u32 <= 57 {
        c as u32 - 48
    } else if 97 <= c as u32 <= 102 {
        c as u32 - 87
    } else if 65 <= c as u32 <= 70 {
        c as u32 - 55
    } else {
        0
    }
}

/// A valid hex color code: `#` followed by exactly six hex digits.
pub open spec fn valid_hexcode(s: Seq<char>) -> bool {
    &&& s.len() == 7
    &&& s[0] == '#'
    &&& forall|i: int| 1 <= i < 7 ==> is_hex_digit(#[trigger] s[i])
}

/// The fully opaque color a valid hex code denotes.
pub open spec fn hexcode_color(s: Seq<char>) -> Color {
    Color {
        r: (hex_val(s[1]) * 16 + hex_val(s[2])) as u8,
        g: (hex_val(s[3]) * 16 + hex_val(s[4])) as u8,
        b: (hex_val(s[5]) * 16 + hex_val(s[6])) as u8,
        a: 255,
    }
}

/// Largest whole-unit part a decimal string may carry: beyond this the
/// parse is rejected rather than overflowed.
pub const MAX_PARSE_UNITS: i64 = 1_000_000_000_000;

/// The number a digit sequence denotes, most significant digit first.
pub open spec fn digits_val(s: Seq<char>) -> int
    decreases s.len(),
{
    if s.len() == 0 {
        0
    } else {
        digits_val(s.drop_last()) * 10 + digit_val(s.last())
    }
}

/// Every character of `s` is a decimal digit.
pub open spec fn all_digits(s: Seq<char>) -> bool {
    forall|i: int| 0 <= i < s.len() ==> is_digit(#[trigger] s[i])
}

/// `10^k` for small non-negative `k`.
pub open spec fn pow10(k: int) -> int
    decreases k,
{
    if k <= 0 {
        1
    } else {
        10 * pow10(k - 1)
    }
}

/// The first position of `c` in `s` at or after `i`, or the length of
/// `s` if there is none.
pub open spec fn find_char_from(s: Seq<char>, c: char, i: int) -> int
    decreases s.len() - i,
{
    if i < 0 || i >= s.len() {
        s.len() as int
    } else if s[i] == c {
        i
    } else {
        find_char_from(s, c, i + 1)
    }
}

/// A digit sequence denotes a non-negative number.
pub proof fn lemma_digits_val_nonneg(s: Seq<char>)
    ensures
        digits_val(s) >= 0,
    decreases s.len(),
{
    if s.len() > 0 {
        lemma_digits_val_nonneg(s.drop_last());
    }
}

/// Extending a digit sequence on the right never shrinks its value.
pub proof fn lemma_digits_val_monotone(s: Seq<char>, i: int, j: int)
    requires
        0 <= i <= j <= s.len(),
    ensures
        digits_val(s.subrange(0, i)) <= digits_val(s.subrange(0, j)),
    decreases j - i,
{
    if i < j {
        lemma_digits_val_monotone(s, i, j - 1);
        let prev = s.subrange(0, j - 1);
        let cur = s.subrange(0, j);
        assert(cur.drop_last() =~= prev);
        lemma_digits_val_nonneg(prev);
    }
}

/// A scan that saw no `c` before `r`, and `c` (or the end) at `r`,
/// found the first occurrence.
proof fn lemma_find_char(s: Seq<char>, c: char, from: int, r: int)
    requires
        0 <= from <= r <= s.len(),
        forall|j: int| from <= j < r ==> s[j] != c,
        r == s.len() || s[r] == c,
    ensures
        find_char_from(s, c, from) == r,
    decreases r - from,
{
    if from < r {
        lemma_find_char(s, c, from + 1, r);
    }
}

/// The first position of `c` in `s` at or after `from`, or the length
/// of `s`.
fn find_char(s: &str, c: char, from: usize) -> (r: usize)
    requires
        from <= s@.len(),
    ensures
        r == find_char_from(s@, c, from as int),
        from <= r <= s@.len(),
{
    let len = s.unicode_len();
    let mut i = from;
    while i < len
        invariant
            from <= i <= len,
            len == s@.len(),
            from <= s@.len(),
            forall|j: int| from <= j < i ==> s@[j] != c,
        decreases len - i,
    {
        if s.get_char(i) == c {
            proof {
                lemma_find_char(s@, c, from as int, i as int);
            }
            return i;
        }
        i = i + 1;
    }
    proof {
        lemma_find_char(s@, c, from as int, len as int);
    }
    len
}

/// Whether every character in `[from, to)` is a decimal digit.
fn check_digits(s: &str, from: usize, to: usize) -> (ok: bool)
    requires
        from <= to <= s@.len(),
    ensures
        ok == all_digits(s@.subrange(from as int, to as int)),
{
    let ghost sub = s@.subrange(from as int, to as int);
    let mut i = from;
    while i < to
        invariant
            from <= i <= to <= s@.len(),
            sub == s@.subrange(from as int, to as int),
            forall|j: int| 0 <= j < i - from ==> is_digit(#[trigger] sub[j]),
        decreases to - i,
    {
        let c = s.get_char(i);
        let u = c as u32;
        if !(48 <= u && u <= 57) {
            proof {
                assert(sub[i - from as int] == c);
            }
            return false;
        }
        proof {
            assert(sub[i - from as int] == c);
        }
        i = i + 1;
    }
    true
}

/// The value of the digit run in `[from, to)`, or `None` when it
/// exceeds `MAX_PARSE_UNITS`.
fn digits_value_capped(s: &str, from: usize, to: usize) -> (r: Option<i64>)
    requires
        from <= to <= s@.len(),
        all_digits(s@.subrange(from as int, to as int)),
    ensures
        r is Some <==> digits_val(s@.subrange(from as int, to as int)) <= MAX_PARSE_UNITS,
        r matches Some(v) ==> v == digits_val(s@.subrange(from as int, to as int)),
{
    let ghost sub = s@.subrange(from as int, to as int);
    let mut acc: i64 = 0;
    let mut i = from;
    proof {
        assert(sub.subrange(0, 0) =~= Seq::<char>::empty());
    }
    while i < to
        invariant
            from <= i <= to <= s@.len(),
            sub == s@.subrange(from as int, to as int),
            all_digits(sub),
            0 <= acc <= MAX_PARSE_UNITS,
            acc == digits_val(sub.subrange(0, i - from)),
        decreases to - i,
    {
        let c = s.get_char(i);
        proof {
            assert(sub[i - from as int] == c);
            assert(sub.subrange(0, i + 1 - from as int).drop_last() =~= sub.subrange(
                0,
                i - from as int,
            ));
            assert(sub.subrange(0, i + 1 - from as int).last() == c);
        }
        let d = (c as u32 - 48) as i64;
        let next = acc * 10 + d;
        if next > MAX_PARSE_UNITS {
            proof {
                lemma_digits_val_monotone(sub, i + 1 - from as int, sub.len() as int);
                assert(sub.subrange(0, sub.len() as int) =~= sub);
            }
            return None;
        }
        acc = next;
        i = i + 1;
    }
    proof {
        assert(sub.subrange(0, sub.len() as int) =~= sub);
    }
    Some(acc)
}

/// What a decimal string denotes in micro-units, truncated past the
/// sixth fractional digit: an optional sign, then digits with at most
/// one point between them, at least one digit in all. `None` for any
/// other shape, and for magnitudes beyond `MAX_PARSE_UNITS` units.
pub open spec fn spec_parse_fixed(s: Seq<char>) -> Option<int> {
    let neg = s.len() > 0 && s[0] == '-';
    let body = if s.len() > 0 && (s[0] == '-' || s[0] == '+') {
        s.drop_first()
    } else {
        s
    };
    let d = find_char_from(body, '.', 0);
    let intpart = body.subrange(0, d);
    let frac = if d < body.len() {
        body.subrange(d + 1, body.len() as int)
    } else {
        Seq::<char>::empty()
    };
    if all_digits(intpart) && all_digits(frac) && intpart.len() + frac.len() > 0
        && digits_val(intpart) <= MAX_PARSE_UNITS {
        let fraclen = if frac.len() < 6 {
            frac.len() as int
        } else {
            6
        };
        let micro = digits_val(intpart) * SCALE + digits_val(frac.subrange(0, fraclen)) * pow10(
            6 - fraclen,
        );
        if neg {
            Some(-micro)
        } else {
            Some(micro)
        }
    } else {
        None
    }
}

/// A run of `n` digits denotes less than `10^n`.
pub proof fn lemma_digits_val_bound(s: Seq<char>)
    ensures
        digits_val(s) < pow10(s.len() as int),
    decreases s.len(),
{
    if s.len() > 0 {
        lemma_digits_val_bound(s.drop_last());
        lemma_digits_val_nonneg(s.drop_last());
    }
}

/// Parse a decimal string into micro-units; see `spec_parse_fixed` for
/// the accepted shapes and the value.
#[verifier::rlimit(60)]
pub fn parse_fixed(s: &str) -> (r: Option<i64>)
    ensures
        (spec_parse_fixed(s@) matches Some(v) ==> (r matches Some(x) && x == v)),
        spec_parse_fixed(s@) is None ==> r is None,
{
    proof {
        reveal_with_fuel(pow10, 8);
    }
    let len = s.unicode_len();
    let mut start: usize = 0;
    let mut neg = false;
    if len > 0 {
        let c0 = s.get_char(0);
        if c0 == '-' {
            neg = true;
            start = 1;
        } else if c0 == '+' {
            start = 1;
        }
    }
    let body = s.substring_char(start, len);
    proof {
        if start == 1 {
            assert(body@ =~= s@.drop_first());
        } else {
            assert(body@ =~= s@);
        }
    }
    let blen = body.unicode_len();
    let d = find_char(body, '.', 0);
    if !check_digits(body, 0, d) {
        return None;
    }
    let fr_start = if d < blen {
        d + 1
    } else {
        blen
    };
    if !check_digits(body, fr_start, blen) {
        return None;
    }
    if d == 0 && fr_start == blen {
        return None;
    }
    let ghost intpart = body@.subrange(0, d as int);
    let ghost frac = if d < blen {
        body@.subrange(d + 1, blen as int)
    } else {
        Seq::<char>::empty()
    };
    proof {
        if d < blen {
            assert(frac =~= body@.subrange(fr_start as int, blen as int));
        } else {
            assert(frac =~= body@.subrange(fr_start as int, blen as int));
        }
    }
    let intval = match digits_value_capped(body, 0, d) {
        None => {
            return None;
        },
        Some(v) => v,
    };
    let fr_len = blen - fr_start;
    let fr_take = if fr_len < 6 {
        fr_len
    } else {
        6
    };
    proof {
        assert(body@.subrange(fr_start as int, fr_start + fr_take as int) =~= frac.subrange(
            0,
            fr_take as int,
        ));
        lemma_digits_val_bound(frac.subrange(0, fr_take as int));
        lemma_digits_val_nonneg(frac.subrange(0, fr_take as int));
    }
    let fracval = match digits_value_capped(body, fr_start, fr_start + fr_take) {
        None => {
            return None;
        },
        Some(v) => v,
    };
    let mult: i64 = if fr_take == 0 {
        1_000_000
    } else if fr_take == 1 {
        100_000
    } else if fr_take == 2 {
        10_000
    } else if fr_take == 3 {
        1_000
    } else if fr_take == 4 {
        100
    } else if fr_take == 5 {
        10
    } else {
        1
    };
    let ghost fraclen = if frac.len() < 6 {
        frac.len() as int
    } else {
        6
    };
    proof {
        assert(fraclen == fr_take as int);
        if fr_take == 0 {
            assert(mult == pow10(6 - fraclen));
        } else if fr_take == 1 {
            assert(mult == pow10(6 - fraclen));
        } else if fr_take == 2 {
            assert(mult == pow10(6 - fraclen));
        } else if fr_take == 3 {
            assert(mult == pow10(6 - fraclen));
        } else if fr_take == 4 {
            assert(mult == pow10(6 - fraclen));
        } else if fr_take == 5 {
            assert(mult == pow10(6 - fraclen));
        } else {
            assert(fr_take == 6);
            assert(mult == pow10(6 - fraclen));
        }
        assert(0 <= fracval * mult <= 999_999);
    }
    proof {
        assert(SCALE == 1_000_000);
        lemma_digits_val_nonneg(intpart);
        assert(0 <= intval <= 1_000_000_000_000i64);
    }
    let micro: i64 = intval * 1_000_000 + fracval * mult;
    if neg {
        Some(-micro)
    } else {
        Some(micro)
    }
}

/// The value of a hexadecimal digit, or `None` for any other character.
fn hex_digit_val(c: char) -> (r: Option<u8>)
    ensures
        r is Some <==> is_hex_digit(c),
        r matches Some(v) ==> v == hex_val(c),
{
    let u = c as u32;
    if 48 <= u && u <= 57 {
        Some((u - 48) as u8)
    } else if 97 <= u && u <= 102 {
        Some((u - 87) as u8)
    } else if 65 <= u && u <= 70 {
        Some((u - 55) as u8)
    } else {
        None
    }
}

/// The first position at or after `i` holding something other than a
/// space, or the length of `s`.
pub open spec fn first_non_space(s: Seq<char>, i: int) -> int
    decreases s.len() - i,
{
    if i < 0 || i >= s.len() {
        s.len() as int
    } else if s[i] != ' ' {
        i
    } else {
        first_non_space(s, i + 1)
    }
}

/// The end of the last non-space run at or before `j`: scanning down
/// from `j`, the first position whose predecessor is not a space.
pub open spec fn last_non_space_end(s: Seq<char>, j: int) -> int
    decreases j,
{
    if j <= 0 {
        0
    } else if s[j - 1] != ' ' {
        j
    } else {
        last_non_space_end(s, j - 1)
    }
}

/// `s` with leading and trailing spaces removed.
pub open spec fn spec_trim(s: Seq<char>) -> Seq<char> {
    let a = first_non_space(s, 0);
    if a == s.len() {
        Seq::<char>::empty()
    } else {
        s.subrange(a, last_non_space_end(s, s.len() as int))
    }
}

proof fn lemma_first_non_space(s: Seq<char>, from: int, r: int)
    requires
        0 <= from <= r <= s.len(),
        forall|j: int| from <= j < r ==> s[j] == ' ',
        r == s.len() || s[r] != ' ',
    ensures
        first_non_space(s, from) == r,
    decreases r - from,
{
    if from < r {
        lemma_first_non_space(s, from + 1, r);
    }
}

proof fn lemma_last_non_space_end(s: Seq<char>, from: int, r: int)
    requires
        0 <= r <= from <= s.len(),
        forall|j: int| r <= j < from ==> s[j] == ' ',
        r == 0 || s[r - 1] != ' ',
    ensures
        last_non_space_end(s, from) == r,
    decreases from - r,
{
    if r < from {
        lemma_last_non_space_end(s, from - 1, r);
    }
}

/// `s` with leading and trailing spaces removed.
fn trim_str<'a>(s: &'a str) -> (r: &'a str)
    ensures
        r@ == spec_trim(s@),
{
    let len = s.unicode_len();
    let mut a: usize = 0;
    while a < len && s.get_char(a) == ' '
        invariant
            a <= len,
            len == s@.len(),
            forall|j: int| 0 <= j < a ==> s@[j] == ' ',
        decreases len - a,
    {
        a = a + 1;
    }
    proof {
        lemma_first_non_space(s@, 0, a as int);
    }
    if a == len {
        let r = s.substring_char(len, len);
        proof {
            assert(r@ =~= Seq::<char>::empty());
        }
        return r;
    }
    let mut b: usize = len;
    while b > a + 1 && s.get_char(b - 1) == ' '
        invariant
            a < b <= len,
            len == s@.len(),
            forall|j: int| b <= j < len ==> s@[j] == ' ',
        decreases b,
    {
        b = b - 1;
    }
    proof {
        if s@[b - 1] != ' ' {
            lemma_last_non_space_end(s@, len as int, b as int);
        } else {
            assert(b == a + 1);
            assert(s@[a as int] != ' ');
            assert(false);
        }
    }
    s.substring_char(a, b)
}

/// What an SVG/CSS3 color name denotes, if anything: the outside color
/// table, determined by the name alone.
pub uninterp spec fn named_color_of(name: Seq<char>) -> Option<(u8, u8, u8)>;

/// Relies on `palette::named::from_str`: a pure lookup in the SVG/CSS3
/// keyword-color table, keyed on the name alone.
#[verifier::external_body]
fn lookup_named_color(name: &str) -> (r: Option<(u8, u8, u8)>)
    ensures
        r == named_color_of(name@),
{
    palette::named::from_str(name).map(|c| (c.red, c.green, c.blue))
}

/// What a gradient component denotes: a named color if the name table
/// knows it, else a hex code, else nothing.
pub open spec fn color_of_component(comp: Seq<char>) -> Option<Color> {
    match named_color_of(comp) {
        Some(t) => Some(Color { r: t.0, g: t.1, b: t.2, a: 255 }),
        None => if valid_hexcode(comp) {
            Some(hexcode_color(comp))
        } else {
            None
        },
    }
}

/// Resolve one gradient component to a color.
fn color_component(comp: &str) -> (r: Option<Color>)
    ensures
        r == color_of_component(comp@),
{
    match lookup_named_color(comp) {
        Some((cr, cg, cb)) => Some(Color { r: cr, g: cg, b: cb, a: 255 }),
        None => parse_hexcode(comp),
    }
}

/// Parse a `#rrggbb` hex code into a fully opaque color. Exactly the
/// seven-character form is accepted.
pub fn parse_hexcode(s: &str) -> (r: Option<Color>)
    ensures
        r is Some <==> valid_hexcode(s@),
        r matches Some(c) ==> c == hexcode_color(s@),
{
    let len = s.unicode_len();
    if len != 7 {
        return None;
    }
    if s.get_char(0) != '#' {
        return None;
    }
    let d1 = hex_digit_val(s.get_char(1));
    let d2 = hex_digit_val(s.get_char(2));
    let d3 = hex_digit_val(s.get_char(3));
    let d4 = hex_digit_val(s.get_char(4));
    let d5 = hex_digit_val(s.get_char(5));
    let d6 = hex_digit_val(s.get_char(6));
    match (d1, d2, d3, d4, d5, d6) {
        (Some(h1), Some(h2), Some(h3), Some(h4), Some(h5), Some(h6)) => Some(
            Color { r: h1 * 16 + h2, g: h3 * 16 + h4, b: h5 * 16 + h6, a: 255 },
        ),
        _ => None,
    }
}

/// What a coordinate pair denotes: exactly two comma-separated decimal
/// components, each trimmed of spaces, in micro-units.
pub open spec fn spec_parse_vec2(s: Seq<char>) -> Option<(int, int)> {
    let q = find_char_from(s, ',', 0);
    if q == s.len() {
        None
    } else {
        let q2 = find_char_from(s, ',', q + 1);
        if q2 != s.len() {
            None
        } else {
            let x = spec_parse_fixed(spec_trim(s.subrange(0, q)));
            let y = spec_parse_fixed(spec_trim(s.subrange(q + 1, s.len() as int)));
            match (x, y) {
                (Some(a), Some(b)) => Some((a, b)),
                _ => None,
            }
        }
    }
}

/// Parse `x,y` into a fixed-point complex number.
pub fn parse_vec2(s: &str) -> (r: Option<crate::params::Complex>)
    ensures
        (spec_parse_vec2(s@) matches Some(t) ==> (r matches Some(v) && v.re == t.0 && v.im
            == t.1)),
        spec_parse_vec2(s@) is None ==> r is None,
{
    let len = s.unicode_len();
    let q = find_char(s, ',', 0);
    if q == len {
        return None;
    }
    let q2 = find_char(s, ',', q + 1);
    if q2 != len {
        return None;
    }
    let xs = trim_str(s.substring_char(0, q));
    let ys = trim_str(s.substring_char(q + 1, len));
    let x = parse_fixed(xs);
    let y = parse_fixed(ys);
    match (x, y) {
        (Some(a), Some(b)) => Some(crate::params::Complex { re: a, im: b }),
        _ => None,
    }
}

/// What a gradient string denotes: two colors, an optional third color,
/// and an optional midpoint, comma-separated. Two colors alone give a
/// white third stop with the midpoint at the far end; a trailing number
/// after two colors repeats the second stop and takes that midpoint; a
/// third color takes a quarter-way midpoint unless a fourth component
/// gives one.
pub open spec fn spec_parse_gradient(s: Seq<char>) -> Option<(Color, Color, Color, int)> {
    let q1 = find_char_from(s, ',', 0);
    if q1 == s.len() {
        None
    } else {
        let c1o = color_of_component(spec_trim(s.subrange(0, q1)));
        let q2 = find_char_from(s, ',', q1 + 1);
        let c2o = color_of_component(spec_trim(s.subrange(q1 + 1, q2)));
        match (c1o, c2o) {
            (Some(c1), Some(c2)) => {
                if q2 == s.len() {
                    Some((c1, c2, Color { r: 255, g: 255, b: 255, a: 255 }, SCALE as int))
                } else {
                    let q3 = find_char_from(s, ',', q2 + 1);
                    let comp3 = spec_trim(s.subrange(q2 + 1, q3));
                    match color_of_component(comp3) {
                        None => {
                            if q3 != s.len() {
                                None
                            } else {
                                match spec_parse_fixed(comp3) {
                                    Some(m) => Some((c1, c2, c2, m)),
                                    None => None,
                                }
                            }
                        },
                        Some(c3) => {
                            if q3 == s.len() {
                                Some((c1, c2, c3, 250_000))
                            } else {
                                let q4 = find_char_from(s, ',', q3 + 1);
                                if q4 != s.len() {
                                    None
                                } else {
                                    match spec_parse_fixed(
                                        spec_trim(s.subrange(q3 + 1, q4)),
                                    ) {
                                        Some(m) => Some((c1, c2, c3, m)),
                                        None => None,
                                    }
                                }
                            }
                        },
                    }
                }
            },
            _ => None,
        }
    }
}

/// Parse a gradient string into its three stops and the midpoint, in
/// micro-units; see `spec_parse_gradient` for the grammar.
pub fn parse_gradient(s: &str) -> (r: Option<(Color, Color, Color, i64)>)
    ensures
        (spec_parse_gradient(s@) matches Some(t) ==> (r matches Some(u) && u.0 == t.0 && u.1
            == t.1 && u.2 == t.2 && u.3 == t.3)),
        spec_parse_gradient(s@) is None ==> r is None,
{
    let len = s.unicode_len();
    let q1 = find_char(s, ',', 0);
    if q1 == len {
        return None;
    }
    let c1o = color_component(trim_str(s.substring_char(0, q1)));
    let q2 = find_char(s, ',', q1 + 1);
    let c2o = color_component(trim_str(s.substring_char(q1 + 1, q2)));
    let (c1, c2) = match (c1o, c2o) {
        (Some(c1), Some(c2)) => (c1, c2),
        _ => {
            return None;
        },
    };
    if q2 == len {
        return Some((c1, c2, Color { r: 255, g: 255, b: 255, a: 255 }, SCALE));
    }
    let q3 = find_char(s, ',', q2 + 1);
    let comp3 = trim_str(s.substring_char(q2 + 1, q3));
    match color_component(comp3) {
        None => {
            if q3 != len {
                None
            } else {
                match parse_fixed(comp3) {
                    Some(m) => Some((c1, c2, c2, m)),
                    None => None,
                }
            }
        },
        Some(c3) => {
            if q3 == len {
                Some((c1, c2, c3, 250_000))
            } else {
                let q4 = find_char(s, ',', q3 + 1);
                if q4 != len {
                    None
                } else {
                    match parse_fixed(trim_str(s.substring_char(q3 + 1, q4))) {
                        Some(m) => Some((c1, c2, c3, m)),
                        None => None,
                    }
                }
            }
        },
    }
}

} // verus!
