//! Rendering values back into text: decimal numbers from the
//! micro-unit fixed point, hex color codes, and the default export
//! filename that encodes every parameter of the image it names.

use vstd::prelude::*;

use crate::params::Color;
use crate::params::Complex;
use crate::params::ImgDimensions;
use crate::params::JuliaData;
use crate::params::SCALE;
use crate::parse::pow10;
use crate::state::Hsv;
use crate::state::JuliaState;

verus! {

/// The character for one decimal digit.
pub open spec fn digit_char(d: int) -> char {
    if d == 0 {
        '0'
    } else if d == 1 {
        '1'
    } else if d == 2 {
        '2'
    } else if d == 3 {
        '3'
    } else if d == 4 {
        '4'
    } else if d == 5 {
        '5'
    } else if d == 6 {
        '6'
    } else if d == 7 {
        '7'
    } else if d == 8 {
        '8'
    } else {
        '9'
    }
}

/// The character for one hexadecimal digit, lower case.
pub open spec fn hex_char(d: int) -> char {
    if d < 10 {
        digit_char(d)
    } else if d == 10 {
        'a'
    } else if d == 11 {
        'b'
    } else if d == 12 {
        'c'
    } else if d == 13 {
        'd'
    } else if d == 14 {
        'e'
    } else {
        'f'
    }
}

/// The decimal digits of `n`, most significant first.
pub open spec fn dec_str(n: int) -> Seq<char>
    decreases n,
{
    if n < 10 {
        seq![digit_char(n)]
    } else {
        dec_str(n / 10).push(digit_char(n % 10))
    }
}

/// The decimal digits of `n` padded with leading zeros to width `w`.
pub open spec fn dec_pad(n: int, w: int) -> Seq<char>
    decreases w,
{
    if w <= 1 {
        seq![digit_char(n)]
    } else {
        dec_pad(n / 10, w - 1).push(digit_char(n % 10))
    }
}

/// How many trailing decimal zeros `f` carries.
pub open spec fn zcount(f: int) -> int
    decreases f,
{
    if f <= 0 || f % 10 != 0 {
        0
    } else {
        1 + zcount(f / 10)
    }
}

/// The fixed-point value `v` (micro-units) in decimal: an optional
/// minus, the whole units, and — unless zero — the fractional digits
/// with trailing zeros dropped.
pub open spec fn fixed_str(v: int) -> Seq<char> {
    let m = if v < 0 {
        -v
    } else {
        v
    };
    let u = m / (SCALE as int);
    let f = m % (SCALE as int);
    let sign: Seq<char> = if v < 0 {
        seq!['-']
    } else {
        Seq::<char>::empty()
    };
    if f == 0 {
        sign + dec_str(u)
    } else {
        sign + dec_str(u) + seq!['.'] + dec_pad(f / pow10(zcount(f)), 6 - zcount(f))
    }
}

/// The two lower-case hex digits of one byte.
pub open spec fn hex2(b: int) -> Seq<char> {
    seq![hex_char(b / 16), hex_char(b % 16)]
}

/// A color as six hex digits, `rrggbb`.
pub open spec fn color_hex_str(c: Color) -> Seq<char> {
    hex2(c.r as int) + hex2(c.g as int) + hex2(c.b as int)
}

/// Append one decimal digit.
fn push_digit(s: &mut String, d: u8)
    requires
        d < 10,
    ensures
        final(s)@ == old(s)@ + seq![digit_char(d as int)],
{
    proof {
        reveal_strlit("0");
        reveal_strlit("1");
        reveal_strlit("2");
        reveal_strlit("3");
        reveal_strlit("4");
        reveal_strlit("5");
        reveal_strlit("6");
        reveal_strlit("7");
        reveal_strlit("8");
        reveal_strlit("9");
    }
    if d == 0 {
        s.append("0");
        proof {
            assert(old(s)@ + ("0")@ =~= old(s)@ + seq!['0']);
        }
    } else if d == 1 {
        s.append("1");
        proof {
            assert(old(s)@ + ("1")@ =~= old(s)@ + seq!['1']);
        }
    } else if d == 2 {
        s.append("2");
        proof {
            assert(old(s)@ + ("2")@ =~= old(s)@ + seq!['2']);
        }
    } else if d == 3 {
        s.append("3");
        proof {
            assert(old(s)@ + ("3")@ =~= old(s)@ + seq!['3']);
        }
    } else if d == 4 {
        s.append("4");
        proof {
            assert(old(s)@ + ("4")@ =~= old(s)@ + seq!['4']);
        }
    } else if d == 5 {
        s.append("5");
        proof {
            assert(old(s)@ + ("5")@ =~= old(s)@ + seq!['5']);
        }
    } else if d == 6 {
        s.append("6");
        proof {
            assert(old(s)@ + ("6")@ =~= old(s)@ + seq!['6']);
        }
    } else if d == 7 {
        s.append("7");
        proof {
            assert(old(s)@ + ("7")@ =~= old(s)@ + seq!['7']);
        }
    } else if d == 8 {
        s.append("8");
        proof {
            assert(old(s)@ + ("8")@ =~= old(s)@ + seq!['8']);
        }
    } else {
        s.append("9");
        proof {
            assert(old(s)@ + ("9")@ =~= old(s)@ + seq!['9']);
        }
    }
}

/// Append one lower-case hexadecimal digit.
fn push_hex_digit(s: &mut String, d: u8)
    requires
        d < 16,
    ensures
        final(s)@ == old(s)@ + seq![hex_char(d as int)],
{
    if d < 10 {
        push_digit(s, d);
    } else {
        proof {
            reveal_strlit("a");
            reveal_strlit("b");
            reveal_strlit("c");
            reveal_strlit("d");
            reveal_strlit("e");
            reveal_strlit("f");
        }
        if d == 10 {
            s.append("a");
            proof {
                assert(old(s)@ + ("a")@ =~= old(s)@ + seq!['a']);
            }
        } else if d == 11 {
            s.append("b");
            proof {
                assert(old(s)@ + ("b")@ =~= old(s)@ + seq!['b']);
            }
        } else if d == 12 {
            s.append("c");
            proof {
                assert(old(s)@ + ("c")@ =~= old(s)@ + seq!['c']);
            }
        } else if d == 13 {
            s.append("d");
            proof {
                assert(old(s)@ + ("d")@ =~= old(s)@ + seq!['d']);
            }
        } else if d == 14 {
            s.append("e");
            proof {
                assert(old(s)@ + ("e")@ =~= old(s)@ + seq!['e']);
            }
        } else {
            s.append("f");
            proof {
                assert(old(s)@ + ("f")@ =~= old(s)@ + seq!['f']);
            }
        }
    }
}

/// Append `n` in decimal.
fn push_dec(s: &mut String, n: u64)
    ensures
        final(s)@ == old(s)@ + dec_str(n as int),
    decreases n,
{
    if n < 10 {
        push_digit(s, n as u8);
    } else {
        push_dec(s, n / 10);
        push_digit(s, (n % 10) as u8);
        proof {
            assert((old(s)@ + dec_str(n as int / 10)) + seq![digit_char(n as int % 10)] =~= old(
                s,
            )@ + dec_str(n as int));
        }
    }
}

/// Append `n` in decimal, zero-padded to `w` digits.
fn push_dec_pad(s: &mut String, n: u64, w: u32)
    requires
        1 <= w <= 12,
        n < pow10(w as int),
    ensures
        final(s)@ == old(s)@ + dec_pad(n as int, w as int),
    decreases w,
{
    if w == 1 {
        proof {
            reveal_with_fuel(pow10, 2);
        }
        push_digit(s, n as u8);
    } else {
        proof {
            reveal_with_fuel(pow10, 13);
        }
        push_dec_pad(s, n / 10, w - 1);
        push_digit(s, (n % 10) as u8);
        proof {
            assert((old(s)@ + dec_pad(n as int / 10, w - 1)) + seq![digit_char(n as int % 10)]
                =~= old(s)@ + dec_pad(n as int, w as int));
        }
    }
}

/// Append a byte as two hex digits.
fn push_hex_byte(s: &mut String, b: u8)
    ensures
        final(s)@ == old(s)@ + hex2(b as int),
{
    push_hex_digit(s, b / 16);
    push_hex_digit(s, b % 16);
    proof {
        assert((old(s)@ + seq![hex_char(b as int / 16)]) + seq![hex_char(b as int % 16)] =~= old(
            s,
        )@ + hex2(b as int));
    }
}

/// Strip the trailing decimal zeros of `f`: the remaining digits and
/// how many zeros went.
fn strip_zeros(f: u64) -> (r: (u64, u32))
    requires
        0 < f < 1_000_000,
    ensures
        r.1 == zcount(f as int),
        r.0 == f as int / pow10(zcount(f as int)),
    decreases f,
{
    if f % 10 != 0 {
        proof {
            reveal_with_fuel(pow10, 1);
        }
        (f, 0)
    } else {
        let (t, z) = strip_zeros(f / 10);
        proof {
            lemma_zcount_bound(f as int);
            lemma_zcount_nonneg(f as int / 10);
            lemma_pow10_pos(zcount(f as int / 10));
            vstd::arithmetic::div_mod::lemma_div_denominator(
                f as int,
                10,
                pow10(zcount(f as int / 10)),
            );
            assert(10 * pow10(zcount(f as int / 10)) == pow10(1 + zcount(f as int / 10)));
        }
        (t, z + 1)
    }
}

/// Append a fixed-point value in decimal; see `fixed_str`.
fn push_fixed(s: &mut String, v: i64)
    requires
        v > i64::MIN,
    ensures
        final(s)@ == old(s)@ + fixed_str(v as int),
{
    let m: i64 = if v < 0 {
        -v
    } else {
        v
    };
    if v < 0 {
        proof {
            reveal_strlit("-");
        }
        s.append("-");
        proof {
            assert(old(s)@ + ("-")@ =~= old(s)@ + seq!['-']);
        }
    }
    let u = (m / SCALE) as u64;
    let f = (m % SCALE) as u64;
    let ghost after_sign = s@;
    push_dec(s, u);
    if f > 0 {
        proof {
            reveal_strlit(".");
        }
        s.append(".");
        proof {
            assert((after_sign + dec_str(u as int)) + (".")@ =~= after_sign + dec_str(u as int)
                + seq!['.']);
        }
        let (t, z) = strip_zeros(f);
        proof {
            lemma_zcount_bound(f as int);
            lemma_stripped_bound(f as int);
        }
        push_dec_pad(s, t, 6 - z);
        proof {
            assert((after_sign + dec_str(u as int) + seq!['.']) + dec_pad(
                t as int,
                6 - z as int,
            ) =~= old(s)@ + fixed_str(v as int));
        }
    } else {
        proof {
            assert(after_sign + dec_str(u as int) =~= old(s)@ + fixed_str(v as int));
        }
    }
}

/// Powers of ten are positive.
proof fn lemma_pow10_pos(k: int)
    ensures
        pow10(k) >= 1,
    decreases k,
{
    if k > 0 {
        lemma_pow10_pos(k - 1);
    }
}

/// Trailing-zero counts are non-negative.
proof fn lemma_zcount_nonneg(f: int)
    ensures
        zcount(f) >= 0,
    decreases f,
{
    if f > 0 && f % 10 == 0 {
        lemma_zcount_nonneg(f / 10);
    }
}

/// A positive fraction below one unit has at most five trailing zeros.
proof fn lemma_zcount_bound(f: int)
    requires
        0 < f < 1_000_000,
    ensures
        0 <= zcount(f) <= 5,
        pow10(zcount(f)) <= f,
    decreases f,
{
    reveal_with_fuel(pow10, 7);
    if f % 10 == 0 {
        lemma_zcount_bound(f / 10);
        assert(pow10(1 + zcount(f / 10)) == 10 * pow10(zcount(f / 10)));
    }
}

/// Powers of ten multiply by adding exponents.
proof fn lemma_pow10_add(a: int, b: int)
    requires
        0 <= a,
        0 <= b,
    ensures
        pow10(a + b) == pow10(a) * pow10(b),
    decreases a,
{
    if a > 0 {
        lemma_pow10_add(a - 1, b);
        assert(pow10(a + b) == 10 * pow10(a - 1 + b));
        assert(10 * (pow10(a - 1) * pow10(b)) == (10 * pow10(a - 1)) * pow10(b))
            by (nonlinear_arith);
    }
}

/// After stripping its `zcount` zeros, the fraction fits the remaining
/// width.
proof fn lemma_stripped_bound(f: int)
    requires
        0 < f < 1_000_000,
    ensures
        f / pow10(zcount(f)) < pow10(6 - zcount(f)),
{
    let z = zcount(f);
    lemma_zcount_bound(f);
    lemma_pow10_add(z, 6 - z);
    lemma_pow10_pos(z);
    lemma_pow10_pos(6 - z);
    reveal_with_fuel(pow10, 7);
    vstd::arithmetic::div_mod::lemma_multiply_divide_lt(f, pow10(z), pow10(6 - z));
}

/// A fixed-point value as a decimal string.
pub fn fmt_fixed(v: i64) -> (r: String)
    requires
        v > i64::MIN,
    ensures
        r@ == fixed_str(v as int),
{
    let mut s = String::new();
    push_fixed(&mut s, v);
    proof {
        assert(Seq::<char>::empty() + fixed_str(v as int) =~= fixed_str(v as int));
    }
    s
}

/// A color as its six-digit hex code.
pub fn fmt_color_hex(c: Color) -> (r: String)
    ensures
        r@ == color_hex_str(c),
{
    let mut s = String::new();
    push_hex_byte(&mut s, c.r);
    push_hex_byte(&mut s, c.g);
    push_hex_byte(&mut s, c.b);
    proof {
        assert(((Seq::<char>::empty() + hex2(c.r as int)) + hex2(c.g as int)) + hex2(c.b as int)
            =~= color_hex_str(c));
    }
    s
}

/// The default export filename: every parameter spelled into the name,
/// so distinct images land in distinct files.
pub open spec fn filename_str(d: JuliaData, dims: ImgDimensions) -> Seq<char> {
    ("x")@ + dec_str(d.n as int) + ("_")@ + fixed_str(d.c.re as int) + ("_")@ + fixed_str(
        d.c.im as int,
    ) + ("i_m")@ + dec_str(d.iters as int) + ("_c")@ + fixed_str(d.center.re as int) + ("-")@
        + fixed_str(d.center.im as int) + ("_e")@ + fixed_str(d.extents.re as int) + ("-")@
        + fixed_str(d.extents.im as int) + ("_c")@ + color_hex_str(d.color0) + ("-")@
        + color_hex_str(d.color1) + ("-")@ + color_hex_str(d.color2) + ("-")@ + fixed_str(
        d.midpoint0 as int,
    ) + ("-")@ + fixed_str(d.midpoint1 as int) + ("-")@ + fixed_str(d.midpoint2 as int) + ("_")@
        + dec_str(dims.width as int) + ("x")@ + dec_str(dims.height as int) + (".png")@
}

impl JuliaData {
    /// Render the default export filename for this parameter set at the
    /// given dimensions; see `filename_str`.
    #[verifier::rlimit(60)]
    pub fn export_filename(&self, dims: ImgDimensions) -> (r: String)
        requires
            self.wf(),
        ensures
            r@ == filename_str(*self, dims),
    {
        let mut s = String::from_str("x");
        push_dec(&mut s, self.n as u64);
        s.append("_");
        push_fixed(&mut s, self.c.re);
        s.append("_");
        push_fixed(&mut s, self.c.im);
        s.append("i_m");
        push_dec(&mut s, self.iters as u64);
        s.append("_c");
        push_fixed(&mut s, self.center.re);
        s.append("-");
        push_fixed(&mut s, self.center.im);
        s.append("_e");
        push_fixed(&mut s, self.extents.re);
        s.append("-");
        push_fixed(&mut s, self.extents.im);
        s.append("_c");
        push_hex_byte(&mut s, self.color0.r);
        push_hex_byte(&mut s, self.color0.g);
        push_hex_byte(&mut s, self.color0.b);
        s.append("-");
        push_hex_byte(&mut s, self.color1.r);
        push_hex_byte(&mut s, self.color1.g);
        push_hex_byte(&mut s, self.color1.b);
        s.append("-");
        push_hex_byte(&mut s, self.color2.r);
        push_hex_byte(&mut s, self.color2.g);
        push_hex_byte(&mut s, self.color2.b);
        s.append("-");
        push_fixed(&mut s, self.midpoint0);
        s.append("-");
        push_fixed(&mut s, self.midpoint1);
        s.append("-");
        push_fixed(&mut s, self.midpoint2);
        s.append("_");
        push_dec(&mut s, dims.width as u64);
        s.append("x");
        push_dec(&mut s, dims.height as u64);
        s.append(".png");
        proof {
            assert(s@ =~= filename_str(*self, dims));
        }
        s
    }
}

/// A complex number in the report's `a + bi` form.
pub open spec fn complex_str(z: Complex) -> Seq<char> {
    fixed_str(z.re as int) + (if z.im < 0 {
        (" - ")@
    } else {
        (" + ")@
    }) + fixed_str(if z.im < 0 {
        -(z.im as int)
    } else {
        z.im as int
    }) + ("i")@
}

/// A color as `#rrggbb`, in brackets when it is the one being edited.
pub open spec fn color_bracket_str(c: Color, active: bool) -> Seq<char> {
    if active {
        ("[#")@ + color_hex_str(c) + ("]")@
    } else {
        ("#")@ + color_hex_str(c)
    }
}

/// A midpoint as a decimal, in brackets when it is being edited.
pub open spec fn midpoint_str(m: int, active: bool) -> Seq<char> {
    if active {
        ("[")@ + fixed_str(m) + ("]")@
    } else {
        fixed_str(m)
    }
}

/// An HSV triple as `H.. S.. V..`, in brackets when being edited.
pub open spec fn hsv_str(h: Hsv, active: bool) -> Seq<char> {
    let body = ("H")@ + fixed_str(h.hue as int) + (" S")@ + fixed_str(h.sat as int) + (" V")@
        + fixed_str(h.val as int);
    if active {
        ("[")@ + body + ("]")@
    } else {
        body
    }
}

/// The lower corner of the viewport: center minus half the extents.
pub open spec fn view_lo(d: JuliaData) -> Complex {
    Complex {
        re: (d.center.re - d.extents.re / 2) as i64,
        im: (d.center.im - d.extents.im / 2) as i64,
    }
}

/// The upper corner of the viewport: center plus half the extents.
pub open spec fn view_hi(d: JuliaData) -> Complex {
    Complex {
        re: (d.center.re + d.extents.re / 2) as i64,
        im: (d.center.im + d.extents.im / 2) as i64,
    }
}

/// The formula and iteration lines of the report.
pub open spec fn formula_lines_str(d: JuliaData) -> Seq<char> {
    ("f(x) = x^")@ + dec_str(d.n as int) + (" + (")@ + complex_str(d.c) + (")\n")@ + dec_str(
        d.iters as int,
    ) + (" Iterations\n")@
}

/// The viewport-range line of the report.
pub open spec fn range_line_str(d: JuliaData) -> Seq<char> {
    ("Range: (")@ + complex_str(view_lo(d)) + (") -- (")@ + complex_str(view_hi(d)) + (")\n")@
}

/// The gradient line of the report: the three stops, then the three
/// midpoints, the active ones bracketed.
pub open spec fn gradient_line_str(d: JuliaData, ac: int, am: int) -> Seq<char> {
    ("Color gradient: ")@ + color_bracket_str(d.color0, ac == 0) + (", ")@ + color_bracket_str(
        d.color1,
        ac == 1,
    ) + (", ")@ + color_bracket_str(d.color2, ac == 2) + (" (")@ + midpoint_str(
        d.midpoint0 as int,
        am == 0,
    ) + (", ")@ + midpoint_str(d.midpoint1 as int, am == 1) + (", ")@ + midpoint_str(
        d.midpoint2 as int,
        am == 2,
    ) + (")\n    ")@
}

/// The HSV line of the report.
pub open spec fn hsv_line_str(s: JuliaState) -> Seq<char> {
    hsv_str(s.hsv0, s.active_color == 0) + (", ")@ + hsv_str(s.hsv1, s.active_color == 1) + (
    ", ")@ + hsv_str(s.hsv2, s.active_color == 2)
}

/// The export-dimensions line of the report.
pub open spec fn dims_line_str(dims: ImgDimensions) -> Seq<char> {
    ("\nExport dimensions: ")@ + dec_str(dims.width as int) + ("x")@ + dec_str(dims.height as int)
}

/// The whole state report, as the interactive session prints it after a
/// change.
pub open spec fn report_str(s: JuliaState) -> Seq<char> {
    ("\n=============================\n======= Current state =======\n=============================\n")@
        + formula_lines_str(s.data) + range_line_str(s.data) + gradient_line_str(
        s.data,
        s.active_color as int,
        s.active_midpt as int,
    ) + hsv_line_str(s) + dims_line_str(s.export_dimensions)
}

/// Append a complex number in `a + bi` form.
fn push_complex(s: &mut String, z: Complex)
    requires
        z.re > i64::MIN,
        z.im > i64::MIN,
    ensures
        final(s)@ == old(s)@ + complex_str(z),
{
    push_fixed(s, z.re);
    if z.im < 0 {
        s.append(" - ");
    } else {
        s.append(" + ");
    }
    let m = if z.im < 0 {
        -z.im
    } else {
        z.im
    };
    push_fixed(s, m);
    s.append("i");
    proof {
        assert(s@ =~= old(s)@ + complex_str(z));
    }
}

/// Append a color in `#rrggbb` form, bracketed when active.
fn push_color_bracket(s: &mut String, c: Color, active: bool)
    ensures
        final(s)@ == old(s)@ + color_bracket_str(c, active),
{
    if active {
        s.append("[#");
    } else {
        s.append("#");
    }
    push_hex_byte(s, c.r);
    push_hex_byte(s, c.g);
    push_hex_byte(s, c.b);
    if active {
        s.append("]");
    }
    proof {
        assert(s@ =~= old(s)@ + color_bracket_str(c, active));
    }
}

/// Append a midpoint, bracketed when active.
fn push_midpoint(s: &mut String, m: i64, active: bool)
    requires
        m > i64::MIN,
    ensures
        final(s)@ == old(s)@ + midpoint_str(m as int, active),
{
    if active {
        s.append("[");
    }
    push_fixed(s, m);
    if active {
        s.append("]");
    }
    proof {
        assert(s@ =~= old(s)@ + midpoint_str(m as int, active));
    }
}

/// Append an HSV triple, bracketed when active.
fn push_hsv(s: &mut String, h: Hsv, active: bool)
    requires
        h.hue > i64::MIN,
        h.sat > i64::MIN,
        h.val > i64::MIN,
    ensures
        final(s)@ == old(s)@ + hsv_str(h, active),
{
    if active {
        s.append("[");
    }
    s.append("H");
    push_fixed(s, h.hue);
    s.append(" S");
    push_fixed(s, h.sat);
    s.append(" V");
    push_fixed(s, h.val);
    if active {
        s.append("]");
    }
    proof {
        assert(s@ =~= old(s)@ + hsv_str(h, active));
    }
}

/// The formula and iteration lines.
fn formula_lines(d: &JuliaData) -> (r: String)
    requires
        d.wf(),
    ensures
        r@ == formula_lines_str(*d),
{
    let mut s = String::from_str("f(x) = x^");
    push_dec(&mut s, d.n as u64);
    s.append(" + (");
    push_complex(&mut s, d.c);
    s.append(")\n");
    push_dec(&mut s, d.iters as u64);
    s.append(" Iterations\n");
    s
}

/// The viewport-range line.
fn range_line(d: &JuliaData) -> (r: String)
    requires
        d.wf(),
    ensures
        r@ == range_line_str(*d),
{
    let half_re = d.extents.re / 2;
    let half_im = d.extents.im / 2;
    let lo = Complex { re: d.center.re - half_re, im: d.center.im - half_im };
    let hi = Complex { re: d.center.re + half_re, im: d.center.im + half_im };
    let mut s = String::from_str("Range: (");
    push_complex(&mut s, lo);
    s.append(") -- (");
    push_complex(&mut s, hi);
    s.append(")\n");
    proof {
        assert(lo == view_lo(*d));
        assert(hi == view_hi(*d));
    }
    s
}

/// The gradient line.
#[verifier::rlimit(60)]
fn gradient_line(d: &JuliaData, active_color: u8, active_midpt: u8) -> (r: String)
    requires
        d.wf(),
    ensures
        r@ == gradient_line_str(*d, active_color as int, active_midpt as int),
{
    let mut s = String::from_str("Color gradient: ");
    push_color_bracket(&mut s, d.color0, active_color == 0);
    s.append(", ");
    push_color_bracket(&mut s, d.color1, active_color == 1);
    s.append(", ");
    push_color_bracket(&mut s, d.color2, active_color == 2);
    s.append(" (");
    push_midpoint(&mut s, d.midpoint0, active_midpt == 0);
    s.append(", ");
    push_midpoint(&mut s, d.midpoint1, active_midpt == 1);
    s.append(", ");
    push_midpoint(&mut s, d.midpoint2, active_midpt == 2);
    s.append(")\n    ");
    s
}

/// The HSV line.
fn hsv_line(st: &JuliaState) -> (r: String)
    requires
        st.wf(),
    ensures
        r@ == hsv_line_str(*st),
{
    let mut s = String::new();
    push_hsv(&mut s, st.hsv0, st.active_color == 0);
    s.append(", ");
    push_hsv(&mut s, st.hsv1, st.active_color == 1);
    s.append(", ");
    push_hsv(&mut s, st.hsv2, st.active_color == 2);
    proof {
        assert(s@ =~= hsv_line_str(*st));
    }
    s
}

/// The export-dimensions line.
fn dims_line(dims: ImgDimensions) -> (r: String)
    ensures
        r@ == dims_line_str(dims),
{
    let mut s = String::from_str("\nExport dimensions: ");
    push_dec(&mut s, dims.width as u64);
    s.append("x");
    push_dec(&mut s, dims.height as u64);
    s
}

/// Render the whole state report; see `report_str`. The caller prints
/// it whenever the on-screen state has settled on a change.
pub fn state_report(st: &JuliaState) -> (r: String)
    requires
        st.wf(),
    ensures
        r@ == report_str(*st),
{
    let mut s = String::from_str(
        "\n=============================\n======= Current state =======\n=============================\n",
    );
    let formula = formula_lines(&st.data);
    s.append(formula.as_str());
    let range = range_line(&st.data);
    s.append(range.as_str());
    let gradient = gradient_line(&st.data, st.active_color, st.active_midpt);
    s.append(gradient.as_str());
    let hsv = hsv_line(st);
    s.append(hsv.as_str());
    let dims = dims_line(st.export_dimensions);
    s.append(dims.as_str());
    s
}

} // verus!
