//! Barcode generation: text cleanup for the Code128 character set, the
//! encoder call, and the verified construction of the pixel rows a
//! renderer uploads as a texture.

use vstd::prelude::*;

use crate::easing::{mul_bounds, UNIT};

verus! {

/// An RGBA pixel.
pub type Rgba = (u8, u8, u8, u8);

/// The bar pattern barcoders' Code128 encoder emits for a text: a
/// sequence of 0/1 module values. The pattern depends on the text
/// alone.
pub uninterp spec fn code128_bars(s: Seq<char>) -> Seq<u8>;

/// Whether a character counts as whitespace under Unicode's
/// `White_Space` property. The answer depends on the character alone.
pub uninterp spec fn is_unicode_whitespace(c: char) -> bool;

/// Relies on char::is_whitespace: the Unicode `White_Space` property
/// of the character.
#[verifier::external_body]
fn is_whitespace_char(c: char) -> (r: bool)
    ensures
        r == is_unicode_whitespace(c),
{
    c.is_whitespace()
}

/// Relies on String::from_iter over chars: collects exactly the given
/// characters.
#[verifier::external_body]
fn chars_to_string(v: &Vec<char>) -> (r: String)
    ensures
        r@ == v@,
{
    v.iter().collect()
}

/// Relies on barcoders' Code128: `new` validates the text (which must
/// lead with a character-set selector) and `encode` emits the bar
/// pattern — per character-set table entry eleven 0/1 modules, plus an
/// eleven-module checksum, an eleven-module stop and a two-module
/// termination.
#[verifier::external_body]
fn code128_encode(text: &str) -> (r: Option<Vec<u8>>)
    ensures
        r matches Some(bars) ==> bars@ == code128_bars(text@) && bars@.len() >= 13 && (forall|
        i: int|
            0 <= i < bars@.len() ==> bars@[i] == 0 || bars@[i] == 1),
{
    match barcoders::sym::code128::Code128::new(text) {
        Ok(b) => Some(b.encode()),
        Err(_) => None,
    }
}

/// How one character is carried into the barcode text: printable
/// ASCII stays, dashes and non-breaking spaces are normalized,
/// other whitespace becomes a space, anything else is dropped.
pub open spec fn spec_barcode_char(c: char) -> Option<char> {
    let v = c as u32;
    if 32 <= v <= 126 {
        Some(c)
    } else if c == '\u{2013}' || c == '\u{2014}' {
        Some('-')
    } else if c == '\u{00A0}' {
        Some(' ')
    } else if is_unicode_whitespace(c) {
        Some(' ')
    } else {
        None
    }
}

/// The cleaned text: each character mapped by `spec_barcode_char`,
/// dropped characters removed.
pub open spec fn spec_cleaned(s: Seq<char>) -> Seq<char>
    decreases s.len(),
{
    if s.len() == 0 {
        Seq::empty()
    } else {
        spec_cleaned(s.drop_last()) + match spec_barcode_char(s.last()) {
            Some(c) => seq![c],
            None => Seq::empty(),
        }
    }
}

/// The text handed to the Code128 encoder: the character-set B
/// selector, then the cleaned text.
pub open spec fn spec_preprocessed(s: Seq<char>) -> Seq<char> {
    seq!['\u{0181}'] + spec_cleaned(s)
}

/// Clean a text for Code128 encoding and prefix the character-set B
/// selector the encoder requires.
pub fn preprocess_barcode_text(text: &str) -> (r: String)
    ensures
        r@ == spec_preprocessed(text@),
{
    let n = text.unicode_len();
    let mut out: Vec<char> = Vec::new();
    out.push('\u{0181}');
    let mut i: usize = 0;
    while i < n
        invariant
            0 <= i <= n,
            n == text@.len(),
            out@ == seq!['\u{0181}'] + spec_cleaned(text@.take(i as int)),
        decreases n - i,
    {
        let c = text.get_char(i);
        let v = c as u32;
        if 32 <= v && v <= 126 {
            out.push(c);
        } else if c == '\u{2013}' || c == '\u{2014}' {
            out.push('-');
        } else if c == '\u{00A0}' {
            out.push(' ');
        } else if is_whitespace_char(c) {
            out.push(' ');
        } else {
        }
        proof {
            assert(text@.take(i + 1).drop_last() =~= text@.take(i as int));
            assert(text@.take(i + 1).last() == text@[i as int]);
        }
        i = i + 1;
    }
    proof {
        assert(text@.take(n as int) =~= text@);
    }
    chars_to_string(&out)
}

/// A barcode as pixel rows, row-major, ready for a texture upload.
pub struct BarcodeImage {
    /// Width in pixels.
    pub width: usize,
    /// Height in pixels.
    pub height: usize,
    /// `height` rows of `width` pixels each.
    pub rows: Vec<Vec<Rgba>>,
}

impl BarcodeImage {
    /// The rows agree with the stated dimensions.
    pub open spec fn wf(self) -> bool {
        &&& self.rows@.len() == self.height
        &&& forall|y: int| 0 <= y < self.rows@.len() ==> (#[trigger] self.rows@[y])@.len()
            == self.width
    }
}

/// An opaque white pixel.
pub open spec fn spec_white() -> Rgba {
    (255u8, 255u8, 255u8, 255u8)
}

/// A fully transparent pixel.
pub open spec fn spec_transparent() -> Rgba {
    (0u8, 0u8, 0u8, 0u8)
}

/// The gradient the vertical barcode runs through, top to bottom:
/// purple, blue, cyan, yellow.
pub open spec fn spec_gradient_colors() -> Seq<(u8, u8, u8)> {
    seq![(180u8, 100u8, 220u8), (80u8, 150u8, 255u8), (100u8, 220u8, 220u8), (255u8, 220u8, 100u8)]
}

/// One channel linearly interpolated by `local` millionths.
pub open spec fn spec_lerp_channel(a: int, b: int, local: int) -> int {
    (a * ((UNIT as int) - local) + b * local) / (UNIT as int)
}

/// The gradient color at position `t` (millionths): the gradient's
/// segments are equal-width, and `t` interpolates within its segment.
pub open spec fn spec_gradient_at(colors: Seq<(u8, u8, u8)>, t: int) -> (u8, u8, u8) {
    let n = colors.len() as int;
    if n == 0 {
        (255u8, 255u8, 255u8)
    } else if n == 1 {
        colors[0]
    } else {
        let scaled = t * (n - 1);
        let segment = if scaled / (UNIT as int) >= n - 2 {
            n - 2
        } else {
            scaled / (UNIT as int)
        };
        let local = scaled - segment * (UNIT as int);
        let c1 = colors[segment];
        let c2 = colors[segment + 1];
        (
            spec_lerp_channel(c1.0 as int, c2.0 as int, local) as u8,
            spec_lerp_channel(c1.1 as int, c2.1 as int, local) as u8,
            spec_lerp_channel(c1.2 as int, c2.2 as int, local) as u8,
        )
    }
}

/// A linear interpolation of two bytes by a weight in `[0, UNIT]`
/// stays a byte.
proof fn lerp_channel_fits(a: int, b: int, local: int)
    requires
        0 <= a <= 255,
        0 <= b <= 255,
        0 <= local <= UNIT,
    ensures
        0 <= a * ((UNIT as int) - local) <= 255 * (UNIT as int),
        0 <= b * local <= 255 * (UNIT as int),
        0 <= spec_lerp_channel(a, b, local) <= 255,
{
    let u = UNIT as int;
    mul_bounds(a, u - local, 255int, u);
    mul_bounds(b, local, 255int, u);
    let n = a * (u - local) + b * local;
    assert(255 * (u - local) + 255 * local == 255 * u);
    assert(a * (u - local) <= 255 * (u - local)) by (nonlinear_arith)
        requires
            0 <= a <= 255,
            0 <= u - local,
    ;
    assert(b * local <= 255 * local) by (nonlinear_arith)
        requires
            0 <= b <= 255,
            0 <= local,
    ;
    vstd::arithmetic::div_mod::lemma_div_pos_is_pos(n, u);
    vstd::arithmetic::div_mod::lemma_div_is_ordered(n, 255 * u, u);
    vstd::arithmetic::div_mod::lemma_div_multiples_vanish(255int, u);
}

/// The gradient color at position `t` (millionths, at most one).
pub fn interpolate_gradient(colors: &Vec<(u8, u8, u8)>, t: u32) -> (r: (u8, u8, u8))
    requires
        t <= UNIT,
        colors@.len() <= 16,
    ensures
        r == spec_gradient_at(colors@, t as int),
{
    let n = colors.len();
    if n == 0 {
        return (255, 255, 255);
    }
    if n == 1 {
        return colors[0];
    }
    proof {
        mul_bounds(t as int, (n - 1) as int, UNIT as int, 15int);
    }
    let scaled: i64 = (t as i64) * ((n - 1) as i64);
    let seg_raw: i64 = scaled / UNIT;
    let segment: usize = if seg_raw >= (n - 2) as i64 {
        n - 2
    } else {
        seg_raw as usize
    };
    proof {
        vstd::arithmetic::div_mod::lemma_div_pos_is_pos(scaled as int, UNIT as int);
        vstd::arithmetic::div_mod::lemma_fundamental_div_mod(scaled as int, UNIT as int);
        vstd::arithmetic::div_mod::lemma_mod_division_less_than_divisor(scaled as int, UNIT as int);
        crate::easing::mul_bounds(seg_raw as int, UNIT as int, seg_raw as int, UNIT as int);
    }
    let local: i64 = scaled - (segment as i64) * UNIT;
    proof {
        if seg_raw < (n - 2) as i64 {
            assert(local == scaled % UNIT);
        } else {
            assert(scaled <= (UNIT as i64) * ((n - 1) as i64)) by {
                mul_bounds(t as int, (n - 1) as int, UNIT as int, (n - 1) as int);
                assert((UNIT as int) * ((n - 1) as int) == ((n - 1) as int) * (UNIT as int));
            }
            assert((segment as int) * (UNIT as int) <= scaled) by {
                vstd::arithmetic::div_mod::lemma_fundamental_div_mod(scaled as int, UNIT as int);
                crate::easing::mul_bounds((n - 2) as int, UNIT as int, seg_raw as int, UNIT as int);
                assert((n - 2) as int * (UNIT as int) <= (seg_raw as int) * (UNIT as int)) by (
                nonlinear_arith)
                    requires
                        (n - 2) as int <= seg_raw as int,
                        UNIT as int > 0,
                ;
            }
            assert(scaled - (segment as int) * (UNIT as int) <= UNIT) by (nonlinear_arith)
                requires
                    scaled as int <= (UNIT as int) * ((n - 1) as int),
                    segment as int == (n - 2) as int,
                    n >= 2,
                    UNIT as int > 0,
            ;
        }
        lerp_channel_fits(
            colors@[segment as int].0 as int,
            colors@[segment as int + 1].0 as int,
            local as int,
        );
        lerp_channel_fits(
            colors@[segment as int].1 as int,
            colors@[segment as int + 1].1 as int,
            local as int,
        );
        lerp_channel_fits(
            colors@[segment as int].2 as int,
            colors@[segment as int + 1].2 as int,
            local as int,
        );
    }
    let c1 = colors[segment];
    let c2 = colors[segment + 1];
    let red = ((c1.0 as i64 * (UNIT - local) + c2.0 as i64 * local) / UNIT) as u8;
    let green = ((c1.1 as i64 * (UNIT - local) + c2.1 as i64 * local) / UNIT) as u8;
    let blue = ((c1.2 as i64 * (UNIT - local) + c2.2 as i64 * local) / UNIT) as u8;
    (red, green, blue)
}

/// The gradient colors as a vector.
fn gradient_colors() -> (r: Vec<(u8, u8, u8)>)
    ensures
        r@ == spec_gradient_colors(),
{
    let mut v: Vec<(u8, u8, u8)> = Vec::new();
    v.push((180, 100, 220));
    v.push((80, 150, 255));
    v.push((100, 220, 220));
    v.push((255, 220, 100));
    proof {
        assert(v@ =~= spec_gradient_colors());
    }
    v
}

/// Generate a horizontal Code128 barcode image: one column per bar
/// module, white where the module is set, transparent elsewhere.
/// Yields nothing when the encoder rejects the cleaned text.
pub fn generate_barcode(text: &str, height: u32) -> (r: Option<BarcodeImage>)
    requires
        height <= 0x10000,
    ensures
        r matches Some(img) ==> {
            let bars = code128_bars(spec_preprocessed(text@));
            &&& img.wf()
            &&& img.width == bars.len()
            &&& img.height == height
            &&& forall|y: int, x: int|
                0 <= y < img.height && 0 <= x < bars.len() ==> (#[trigger] img.rows@[y]@[x]) == (
                if bars[x] == 1 {
                    spec_white()
                } else {
                    spec_transparent()
                })
        },
{
    let processed = preprocess_barcode_text(text);
    let encoded = match code128_encode(processed.as_str()) {
        Some(e) => e,
        None => {
            return None;
        },
    };
    let width = encoded.len();

    let ghost bars = code128_bars(spec_preprocessed(text@));
    let mut rows: Vec<Vec<Rgba>> = Vec::new();
    let mut y: usize = 0;
    while y < height as usize
        invariant
            rows@.len() == y,
            y <= height,
            encoded@ == bars,
            width == encoded@.len(),
            forall|yy: int| 0 <= yy < y ==> (#[trigger] rows@[yy])@.len() == width,
            forall|yy: int, x: int|
                0 <= yy < y && 0 <= x < width ==> (#[trigger] rows@[yy]@[x]) == (if bars[x] == 1 {
                    spec_white()
                } else {
                    spec_transparent()
                }),
        decreases height - y,
    {
        let mut row: Vec<Rgba> = Vec::new();
        let mut x: usize = 0;
        while x < width
            invariant
                row@.len() == x,
                x <= width,
                encoded@ == bars,
                width == encoded@.len(),
                forall|xx: int|
                    0 <= xx < x ==> (#[trigger] row@[xx]) == (if bars[xx] == 1 {
                        spec_white()
                    } else {
                        spec_transparent()
                    }),
            decreases width - x,
        {
            if encoded[x] == 1 {
                row.push((255, 255, 255, 255));
            } else {
                row.push((0, 0, 0, 0));
            }
            x = x + 1;
        }
        rows.push(row);
        y = y + 1;
    }

    Some(BarcodeImage { width, height: height as usize, rows })
}

/// The pixel of a vertical barcode at row `y`: transparent where the
/// module is clear; where it is set, white, or the gradient color for
/// `y` when the gradient is on.
pub open spec fn spec_vertical_pixel(bars: Seq<u8>, y: int, use_gradient: bool) -> Rgba {
    if bars[y] == 1 {
        if use_gradient {
            let c = spec_gradient_at(
                spec_gradient_colors(),
                y * (UNIT as int) / (bars.len() as int),
            );
            (c.0, c.1, c.2, 255u8)
        } else {
            spec_white()
        }
    } else {
        spec_transparent()
    }
}

/// Generate a vertical Code128 barcode image: one row per bar module,
/// white modules on a transparent ground.
pub fn generate_vertical_barcode(text: &str, width: u32) -> (r: Option<BarcodeImage>)
    requires
        width <= 0x10000,
    ensures
        r matches Some(img) ==> {
            let bars = code128_bars(spec_preprocessed(text@));
            &&& img.wf()
            &&& img.width == width
            &&& img.height == bars.len()
            &&& forall|y: int, x: int|
                0 <= y < bars.len() && 0 <= x < img.width ==> (#[trigger] img.rows@[y]@[x])
                    == spec_vertical_pixel(bars, y, false)
        },
{
    generate_vertical_barcode_gradient(text, width, false)
}

/// Generate a vertical Code128 barcode image, each set module painted
/// white or, with `use_gradient`, in the purple-to-yellow gradient at
/// its row.
pub fn generate_vertical_barcode_gradient(text: &str, width: u32, use_gradient: bool) -> (r:
    Option<BarcodeImage>)
    requires
        width <= 0x10000,
    ensures
        r matches Some(img) ==> {
            let bars = code128_bars(spec_preprocessed(text@));
            &&& img.wf()
            &&& img.width == width
            &&& img.height == bars.len()
            &&& forall|y: int, x: int|
                0 <= y < bars.len() && 0 <= x < img.width ==> (#[trigger] img.rows@[y]@[x])
                    == spec_vertical_pixel(bars, y, use_gradient)
        },
{
    let processed = preprocess_barcode_text(text);
    let encoded = match code128_encode(processed.as_str()) {
        Some(e) => e,
        None => {
            return None;
        },
    };
    let height = encoded.len();
    if height > 0x10000 {
        return None;
    }

    let ghost bars = code128_bars(spec_preprocessed(text@));
    let colors = gradient_colors();
    let mut rows: Vec<Vec<Rgba>> = Vec::new();
    let mut y: usize = 0;
    while y < height
        invariant
            rows@.len() == y,
            y <= height,
            encoded@ == bars,
            height == encoded@.len(),
            13 <= height <= 0x10000,
            width <= 0x10000,
            colors@ == spec_gradient_colors(),
            forall|i: int| 0 <= i < bars.len() ==> bars[i] == 0 || bars[i] == 1,
            forall|yy: int| 0 <= yy < y ==> (#[trigger] rows@[yy])@.len() == width,
            forall|yy: int, x: int|
                0 <= yy < y && 0 <= x < width ==> (#[trigger] rows@[yy]@[x])
                    == spec_vertical_pixel(bars, yy, use_gradient),
        decreases height - y,
    {
        let pixel: Rgba = if encoded[y] == 1 {
            if use_gradient {
                proof {
                    assert((y as int) * (UNIT as int) < (height as int) * (UNIT as int)) by (
                    nonlinear_arith)
                        requires
                            0 <= (y as int) < (height as int),
                            UNIT as int > 0,
                    ;
                    vstd::arithmetic::div_mod::lemma_div_pos_is_pos(
                        (y as int) * (UNIT as int),
                        height as int,
                    );
                    vstd::arithmetic::div_mod::lemma_multiply_divide_lt(
                        (y as int) * (UNIT as int),
                        height as int,
                        UNIT as int,
                    );
                }
                let t: u32 = (((y as i64) * UNIT) / (height as i64)) as u32;
                let c = interpolate_gradient(&colors, t);
                (c.0, c.1, c.2, 255)
            } else {
                (255, 255, 255, 255)
            }
        } else {
            (0, 0, 0, 0)
        };
        assert(pixel == spec_vertical_pixel(bars, y as int, use_gradient));
        let mut row: Vec<Rgba> = Vec::new();
        let mut x: usize = 0;
        while x < width as usize
            invariant
                row@.len() == x,
                x <= width,
                forall|xx: int| 0 <= xx < x ==> (#[trigger] row@[xx]) == pixel,
            decreases width - x,
        {
            row.push(pixel);
            x = x + 1;
        }
        rows.push(row);
        y = y + 1;
    }

    Some(BarcodeImage { width: width as usize, height, rows })
}

} // verus!
