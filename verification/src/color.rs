//! Color utilities: hex color parsing and formatting, and integer
//! alpha blending. Blend factors are carried as bytes, `255` being
//! full opacity.

use vstd::prelude::*;

verus! {

/// Value of a hexadecimal digit character, or `-1` if it is none.
pub open spec fn spec_hex_digit_value(c: char) -> int {
    let v = c as u32;
    if 48 <= v <= 57 {
        v - 48
    } else if 65 <= v <= 70 {
        v - 55
    } else if 97 <= v <= 102 {
        v - 87
    } else {
        -1
    }
}

/// The sequence with every leading `'#'` removed.
pub open spec fn skip_hashes(s: Seq<char>) -> Seq<char>
    decreases s.len(),
{
    if s.len() > 0 && s[0] == '#' {
        skip_hashes(s.subrange(1, s.len() as int))
    } else {
        s
    }
}

/// The color a hex string of the form `#RRGGBB` or `RRGGBB` names:
/// after leading `'#'`s, exactly six hex digits, else nothing.
pub open spec fn spec_parse_hex_color(s: Seq<char>) -> Option<(u8, u8, u8)> {
    let t = skip_hashes(s);
    if t.len() == 6 && (forall|i: int| 0 <= i < 6 ==> spec_hex_digit_value(#[trigger] t[i]) >= 0) {
        Some(
            (
                (spec_hex_digit_value(t[0]) * 16 + spec_hex_digit_value(t[1])) as u8,
                (spec_hex_digit_value(t[2]) * 16 + spec_hex_digit_value(t[3])) as u8,
                (spec_hex_digit_value(t[4]) * 16 + spec_hex_digit_value(t[5])) as u8,
            ),
        )
    } else {
        None
    }
}

/// Uppercase hex digit character for a value below 16.
pub open spec fn spec_hex_char(d: int) -> char {
    if d < 10 {
        ((d + 48) as u32) as char
    } else {
        ((d + 55) as u32) as char
    }
}

proof fn skip_hashes_prefix(s: Seq<char>, i: int)
    requires
        0 <= i <= s.len(),
        forall|j: int| 0 <= j < i ==> s[j] == '#',
        i == s.len() || s[i] != '#',
    ensures
        skip_hashes(s) == s.subrange(i, s.len() as int),
    decreases i,
{
    if i == 0 {
        assert(s.subrange(0, s.len() as int) =~= s);
    } else {
        let rest = s.subrange(1, s.len() as int);
        skip_hashes_prefix(rest, i - 1);
        assert(rest.subrange(i - 1, rest.len() as int) =~= s.subrange(i, s.len() as int));
    }
}

/// Value of a hexadecimal digit character.
fn hex_digit_value(c: char) -> (r: Option<u8>)
    ensures
        spec_hex_digit_value(c) >= 0 ==> (r matches Some(v) && v == spec_hex_digit_value(c)
            && v < 16),
        spec_hex_digit_value(c) < 0 ==> r is None,
{
    let v = c as u32;
    if 48 <= v && v <= 57 {
        Some((v - 48) as u8)
    } else if 65 <= v && v <= 70 {
        Some((v - 55) as u8)
    } else if 97 <= v && v <= 102 {
        Some((v - 87) as u8)
    } else {
        None
    }
}

/// Parse a hex color string of the form `#RRGGBB` or `RRGGBB` into an
/// RGB triple; anything else yields nothing.
pub fn parse_hex_color(hex: &str) -> (r: Option<(u8, u8, u8)>)
    ensures
        r == spec_parse_hex_color(hex@),
{
    let n = hex.unicode_len();
    let mut i: usize = 0;
    while i < n && hex.get_char(i) == '#'
        invariant
            0 <= i <= n,
            n == hex@.len(),
            forall|j: int| 0 <= j < i ==> hex@[j] == '#',
        decreases n - i,
    {
        i = i + 1;
    }
    proof {
        skip_hashes_prefix(hex@, i as int);
    }
    let ghost t = skip_hashes(hex@);

    if n - i != 6 {
        return None;
    }

    let d0 = hex_digit_value(hex.get_char(i));
    let d1 = hex_digit_value(hex.get_char(i + 1));
    let d2 = hex_digit_value(hex.get_char(i + 2));
    let d3 = hex_digit_value(hex.get_char(i + 3));
    let d4 = hex_digit_value(hex.get_char(i + 4));
    let d5 = hex_digit_value(hex.get_char(i + 5));

    match (d0, d1, d2, d3, d4, d5) {
        (Some(h0), Some(h1), Some(h2), Some(h3), Some(h4), Some(h5)) => {
            assert(t[0] == hex@[i as int] && t[1] == hex@[i + 1] && t[2] == hex@[i + 2] && t[3]
                == hex@[i + 3] && t[4] == hex@[i + 4] && t[5] == hex@[i + 5]);
            Some((h0 * 16 + h1, h2 * 16 + h3, h4 * 16 + h5))
        },
        _ => {
            assert(exists|k: int|
                0 <= k < 6 && spec_hex_digit_value(#[trigger] t[k]) < 0) by {
                if d0 is None {
                    assert(spec_hex_digit_value(t[0]) < 0);
                } else if d1 is None {
                    assert(spec_hex_digit_value(t[1]) < 0);
                } else if d2 is None {
                    assert(spec_hex_digit_value(t[2]) < 0);
                } else if d3 is None {
                    assert(spec_hex_digit_value(t[3]) < 0);
                } else if d4 is None {
                    assert(spec_hex_digit_value(t[4]) < 0);
                } else {
                    assert(spec_hex_digit_value(t[5]) < 0);
                }
            }
            None
        },
    }
}

/// Parse a hex color string into an RGBA tuple with full alpha.
pub fn parse_hex_color_rgba(hex: &str) -> (r: Option<(u8, u8, u8, u8)>)
    ensures
        spec_parse_hex_color(hex@) matches Some(c) ==> r == Some::<(u8, u8, u8, u8)>(
            (c.0, c.1, c.2, 255u8),
        ),
        spec_parse_hex_color(hex@) is None ==> r is None,
{
    match parse_hex_color(hex) {
        Some((red, green, blue)) => Some((red, green, blue, 255)),
        None => None,
    }
}

/// One-character string for a hex digit, uppercase.
fn hex_digit_str(d: u8) -> (s: &'static str)
    requires
        d < 16,
    ensures
        s@.len() == 1,
        s@[0] == spec_hex_char(d as int),
{
    proof {
        reveal_strlit("0");
        reveal_strlit("1");
        reveal_strlit("2");
        reveal_strlit("3");
        reveal_strlit("4");
        reveal_strlit("5");
        reveal_strlit("6");
        reveal_strlit("7");
        reveal_strlit("8");
        reveal_strlit("9");
        reveal_strlit("A");
        reveal_strlit("B");
        reveal_strlit("C");
        reveal_strlit("D");
        reveal_strlit("E");
        reveal_strlit("F");
    }
    match d {
        0 => "0",
        1 => "1",
        2 => "2",
        3 => "3",
        4 => "4",
        5 => "5",
        6 => "6",
        7 => "7",
        8 => "8",
        9 => "9",
        10 => "A",
        11 => "B",
        12 => "C",
        13 => "D",
        14 => "E",
        _ => "F",
    }
}

/// Format an RGB triple as `#RRGGBB` with uppercase digits.
pub fn rgb_to_hex(r: u8, g: u8, b: u8) -> (s: String)
    ensures
        s@ =~= seq![
            '#',
            spec_hex_char(r as int / 16),
            spec_hex_char(r as int % 16),
            spec_hex_char(g as int / 16),
            spec_hex_char(g as int % 16),
            spec_hex_char(b as int / 16),
            spec_hex_char(b as int % 16),
        ],
{
    proof {
        reveal_strlit("#");
    }
    let mut s = String::from_str("#");
    s.append(hex_digit_str(r / 16));
    s.append(hex_digit_str(r % 16));
    s.append(hex_digit_str(g / 16));
    s.append(hex_digit_str(g % 16));
    s.append(hex_digit_str(b / 16));
    s.append(hex_digit_str(b % 16));
    s
}

/// One channel of a byte-alpha blend: `fg` weighted by `alpha`, `bg`
/// by the rest.
pub open spec fn spec_blend_channel(bg: int, fg: int, alpha: int) -> int {
    (fg * alpha + bg * (255 - alpha)) / 255
}

/// Blend two colors: the foreground weighted by `alpha` (255 = only
/// the foreground), the background by the remainder.
pub fn blend_colors(bg: (u8, u8, u8), fg: (u8, u8, u8), alpha: u8) -> (r: (u8, u8, u8))
    ensures
        r.0 == spec_blend_channel(bg.0 as int, fg.0 as int, alpha as int),
        r.1 == spec_blend_channel(bg.1 as int, fg.1 as int, alpha as int),
        r.2 == spec_blend_channel(bg.2 as int, fg.2 as int, alpha as int),
{
    proof {
        blend_channel_fits(bg.0 as int, fg.0 as int, alpha as int);
        blend_channel_fits(bg.1 as int, fg.1 as int, alpha as int);
        blend_channel_fits(bg.2 as int, fg.2 as int, alpha as int);
    }
    let a = alpha as u32;
    let inv = 255 - a;
    let red = ((fg.0 as u32 * a + bg.0 as u32 * inv) / 255) as u8;
    let green = ((fg.1 as u32 * a + bg.1 as u32 * inv) / 255) as u8;
    let blue = ((fg.2 as u32 * a + bg.2 as u32 * inv) / 255) as u8;
    (red, green, blue)
}

/// A byte-alpha blend stays in a byte: the numerator is at most
/// `255 * 255`.
proof fn blend_channel_fits(bg: int, fg: int, alpha: int)
    requires
        0 <= bg <= 255,
        0 <= fg <= 255,
        0 <= alpha <= 255,
    ensures
        0 <= fg * alpha <= 255 * 255,
        0 <= bg * (255 - alpha) <= 255 * 255,
        0 <= spec_blend_channel(bg, fg, alpha) <= 255,
{
    crate::easing::mul_bounds(fg, alpha, 255, alpha);
    crate::easing::mul_bounds(bg, 255 - alpha, 255, 255 - alpha);
    let n = fg * alpha + bg * (255 - alpha);
    assert(255 * alpha + 255 * (255 - alpha) == 255 * 255);
    vstd::arithmetic::div_mod::lemma_div_pos_is_pos(n, 255int);
    vstd::arithmetic::div_mod::lemma_div_is_ordered(n, (255 * 255) as int, 255int);
}

/// Compositing weight of the background in `blend_rgba`, on a
/// `255 * 255` scale.
pub open spec fn spec_out_alpha_num(bga: int, fga: int) -> int {
    fga * 255 + bga * (255 - fga)
}

/// One channel of standard (non-premultiplied) alpha compositing.
pub open spec fn spec_rgba_channel(bg: int, bga: int, fg: int, fga: int) -> int {
    (fg * (fga * 255) + bg * (bga * (255 - fga))) / spec_out_alpha_num(bga, fga)
}

/// Standard alpha compositing of two RGBA colors. A fully transparent
/// pair yields the all-zero color.
pub fn blend_rgba(bg: (u8, u8, u8, u8), fg: (u8, u8, u8, u8)) -> (r: (u8, u8, u8, u8))
    ensures
        bg.3 == 0 && fg.3 == 0 ==> r == (0u8, 0u8, 0u8, 0u8),
        !(bg.3 == 0 && fg.3 == 0) ==> {
            &&& r.0 == spec_rgba_channel(bg.0 as int, bg.3 as int, fg.0 as int, fg.3 as int)
            &&& r.1 == spec_rgba_channel(bg.1 as int, bg.3 as int, fg.1 as int, fg.3 as int)
            &&& r.2 == spec_rgba_channel(bg.2 as int, bg.3 as int, fg.2 as int, fg.3 as int)
            &&& r.3 == spec_out_alpha_num(bg.3 as int, fg.3 as int) / 255
        },
{
    proof {
        crate::easing::mul_bounds(bg.3 as int, 255 - fg.3 as int, 255int, 255int);
    }
    let fga = fg.3 as u32;
    let bga = bg.3 as u32;
    let out_num: u32 = fga * 255 + bga * (255 - fga);
    if out_num == 0 {
        proof {
            crate::easing::mul_bounds(bg.3 as int, 255 - fg.3 as int, 255, 255 - fg.3 as int);
        }
        return (0, 0, 0, 0);
    }
    proof {
        rgba_channel_fits(bg.0 as int, bga as int, fg.0 as int, fga as int);
        rgba_channel_fits(bg.1 as int, bga as int, fg.1 as int, fga as int);
        rgba_channel_fits(bg.2 as int, bga as int, fg.2 as int, fga as int);
    }
    let red = ((fg.0 as u32 * (fga * 255) + bg.0 as u32 * (bga * (255 - fga))) / out_num) as u8;
    let green = ((fg.1 as u32 * (fga * 255) + bg.1 as u32 * (bga * (255 - fga))) / out_num) as u8;
    let blue = ((fg.2 as u32 * (fga * 255) + bg.2 as u32 * (bga * (255 - fga))) / out_num) as u8;
    let alpha = (out_num / 255) as u8;
    (red, green, blue, alpha)
}

/// The compositing quotient stays in a byte: the numerator is at most
/// 255 times the denominator.
proof fn rgba_channel_fits(bg: int, bga: int, fg: int, fga: int)
    requires
        0 <= bg <= 255,
        0 <= fg <= 255,
        0 <= bga <= 255,
        0 <= fga <= 255,
        spec_out_alpha_num(bga, fga) > 0,
    ensures
        0 <= fg * (fga * 255) <= 255 * (255 * 255),
        0 <= bg * (bga * (255 - fga)) <= 255 * (255 * 255),
        0 <= bga * (255 - fga) <= 255 * 255,
        0 <= spec_rgba_channel(bg, bga, fg, fga) <= 255,
        spec_out_alpha_num(bga, fga) <= 255 * 255,
        0 <= spec_out_alpha_num(bga, fga) / 255 <= 255,
{
    let d = spec_out_alpha_num(bga, fga);
    crate::easing::mul_bounds(bga, 255 - fga, 255int, 255int);
    crate::easing::mul_bounds(fg, fga * 255, 255, fga * 255);
    crate::easing::mul_bounds(bg, bga * (255 - fga), 255, bga * (255 - fga));
    assert(255 * (fga * 255) + 255 * (bga * (255 - fga)) == 255 * (fga * 255 + bga * (255 - fga)))
        by (nonlinear_arith);
    crate::easing::mul_bounds(fg, fga * 255, 255int, (255 * 255) as int);
    crate::easing::mul_bounds(bg, bga * (255 - fga), 255int, (255 * 255) as int);
    let n = fg * (fga * 255) + bg * (bga * (255 - fga));
    vstd::arithmetic::div_mod::lemma_div_pos_is_pos(n, d);
    vstd::arithmetic::div_mod::lemma_div_is_ordered(n, 255 * d, d);
    vstd::arithmetic::div_mod::lemma_div_multiples_vanish(255int, d);
    crate::easing::mul_bounds(bga, 255 - fga, 255, 255 - fga);
    assert(fga * 255 + 255 * (255 - fga) == 255 * 255) by (nonlinear_arith);
    vstd::arithmetic::div_mod::lemma_div_pos_is_pos(d, 255int);
    vstd::arithmetic::div_mod::lemma_div_is_ordered(d, (255 * 255) as int, 255int);
}

} // verus!
