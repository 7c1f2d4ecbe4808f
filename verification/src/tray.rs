use vstd::prelude::*;

use crate::text::{decimal, decimal_string};

verus! {

/// The width and height of the tray light, in pixels.
pub const TRAY_ICON_SIZE: usize = 32;

/// The colour of the tray light: green from 50% left, amber from 20%, red below,
/// grey while nothing is known.
pub open spec fn tray_rgb(remaining: Option<u8>) -> (u8, u8, u8) {
    match remaining {
        Some(v) => if v >= 50 {
            (36, 184, 112)
        } else if v >= 20 {
            (224, 157, 27)
        } else {
            (228, 76, 85)
        },
        None => (139, 153, 167),
    }
}

/// The colour of the tray light for the remaining 5-hour percentage.
pub fn tray_color(remaining: Option<u8>) -> (r: (u8, u8, u8))
    ensures
        r == tray_rgb(remaining),
{
    match remaining {
        Some(value) => if value >= 50 {
            (36, 184, 112)
        } else if value >= 20 {
            (224, 157, 27)
        } else {
            (228, 76, 85)
        },
        None => (139, 153, 167),
    }
}

/// Whether the pixel in column `x` and row `y` belongs to the light: its corner
/// `(x, y)` lies within 11.5 px of the point (15.5, 15.5), written in doubled
/// coordinates so that it is exact.
pub open spec fn lit_pixel(x: int, y: int) -> bool {
    (2 * x - 31) * (2 * x - 31) + (2 * y - 31) * (2 * y - 31) <= 529
}

/// Byte `i` of the light's RGBA image, pixels row by row: the light's colour with
/// full opacity on lit pixels, transparent black elsewhere.
pub open spec fn tray_byte(remaining: Option<u8>, i: int) -> u8 {
    let pixel = i / 4;
    let channel = i % 4;
    let (red, green, blue) = tray_rgb(remaining);
    if lit_pixel(pixel % 32, pixel / 32) {
        if channel == 0 {
            red
        } else if channel == 1 {
            green
        } else if channel == 2 {
            blue
        } else {
            255
        }
    } else {
        0
    }
}

/// The RGBA image (32 by 32 pixels) of the tray light.
pub fn tray_rgba(remaining: Option<u8>) -> (v: Vec<u8>)
    ensures
        v.len() == 4096,
        forall|i: int| 0 <= i < 4096 ==> v[i] == tray_byte(remaining, i),
{
    let (red, green, blue) = tray_color(remaining);
    let mut v: Vec<u8> = Vec::new();
    let mut p: usize = 0;
    while p < 1024
        invariant
            p <= 1024,
            v.len() == 4 * p,
            (red, green, blue) == tray_rgb(remaining),
            forall|i: int| 0 <= i < 4 * p ==> v[i] == tray_byte(remaining, i),
        decreases 1024 - p,
    {
        let x: i32 = (p % 32) as i32;
        let y: i32 = (p / 32) as i32;
        let dx: i32 = 2 * x - 31;
        let dy: i32 = 2 * y - 31;
        assert(dx * dx <= 961 && dy * dy <= 961) by (nonlinear_arith)
            requires
                -31 <= dx <= 31,
                -31 <= dy <= 31,
        ;
        assert(dx * dx >= 0 && dy * dy >= 0) by (nonlinear_arith);
        let lit = dx * dx + dy * dy <= 529;
        let ghost before = v@;
        if lit {
            v.push(red);
            v.push(green);
            v.push(blue);
            v.push(255);
        } else {
            v.push(0);
            v.push(0);
            v.push(0);
            v.push(0);
        }
        proof {
            assert(lit == lit_pixel(p as int % 32, p as int / 32));
            assert forall|i: int| 0 <= i < 4 * (p + 1) implies v[i] == tray_byte(remaining, i) by {
                if i >= 4 * p {
                    assert(i / 4 == p as int);
                    assert(i % 4 == i - 4 * p);
                } else {
                    assert(v[i] == before[i]);
                }
            }
        }
        p = p + 1;
    }
    v
}

/// The text next to the tray light: the remaining 5-hour percentage.
pub fn tray_title(remaining: u8) -> (r: String)
    ensures
        r@ == decimal(remaining as nat) + "%"@,
{
    let mut s = decimal_string(remaining as u64);
    s.append("%");
    s
}

/// The tooltip of the tray light.
pub fn tray_tooltip(remaining: u8) -> (r: String)
    ensures
        r@ == "CodexLight · "@ + decimal(remaining as nat) + "% remaining"@,
{
    let mut s = String::from_str("CodexLight · ");
    let digits = decimal_string(remaining as u64);
    s.append(digits.as_str());
    s.append("% remaining");
    s
}

/// How urgent a colour of the light is: red 0, amber 1, green 2 (and 3 for any
/// other colour, grey included).
pub open spec fn colour_level(c: (u8, u8, u8)) -> int {
    if c == (228u8, 76u8, 85u8) {
        0
    } else if c == (224u8, 157u8, 27u8) {
        1
    } else if c == (36u8, 184u8, 112u8) {
        2
    } else {
        3
    }
}

/// The light's colour for a known percentage is always red, amber or green, and
/// never worse for more remaining quota; it turns amber exactly at 20% and green
/// exactly at 50%. So 0..=19 is red, 20..=49 amber and 50..=100 green. With no
/// figure the light is grey.
pub proof fn lemma_tray_colour_bands(v1: u8, v2: u8)
    ensures
        0 <= colour_level(tray_rgb(Some(v1))) <= 2,
        v1 <= v2 ==> colour_level(tray_rgb(Some(v1))) <= colour_level(tray_rgb(Some(v2))),
        colour_level(tray_rgb(Some(19))) == 0,
        colour_level(tray_rgb(Some(20))) == 1,
        colour_level(tray_rgb(Some(49))) == 1,
        colour_level(tray_rgb(Some(50))) == 2,
        tray_rgb(None) == (139u8, 153u8, 167u8),
{
}

/// Consequence of the bands: the colour for each known percentage.
pub proof fn lemma_tray_colour_of(v: u8)
    ensures
        v < 20 ==> tray_rgb(Some(v)) == (228u8, 76u8, 85u8),
        20 <= v < 50 ==> tray_rgb(Some(v)) == (224u8, 157u8, 27u8),
        50 <= v ==> tray_rgb(Some(v)) == (36u8, 184u8, 112u8),
{
    lemma_tray_colour_bands(v, 19);
    lemma_tray_colour_bands(19, v);
    lemma_tray_colour_bands(v, 20);
    lemma_tray_colour_bands(20, v);
    lemma_tray_colour_bands(v, 49);
    lemma_tray_colour_bands(49, v);
    lemma_tray_colour_bands(v, 50);
    lemma_tray_colour_bands(50, v);
}

/// Each pixel of the image is four bytes: the light's colour and full opacity on a
/// lit pixel, all zero elsewhere. The lit pixels form a disc: symmetric left to
/// right, top to bottom and across the diagonal, lit in the middle and across the
/// middle rows from column 5 to column 26, and dark in the corners and along the
/// outer edge.
pub proof fn lemma_tray_image_pixels(remaining: Option<u8>, p: int, x: int, y: int)
    requires
        0 <= p < 1024,
        0 <= x < 32,
        0 <= y < 32,
    ensures
        lit_pixel(p % 32, p / 32) ==> tray_byte(remaining, 4 * p + 3) == 255 && (tray_byte(
            remaining,
            4 * p,
        ), tray_byte(remaining, 4 * p + 1), tray_byte(remaining, 4 * p + 2)) == tray_rgb(
            remaining,
        ),
        !lit_pixel(p % 32, p / 32) ==> tray_byte(remaining, 4 * p) == 0 && tray_byte(
            remaining,
            4 * p + 1,
        ) == 0 && tray_byte(remaining, 4 * p + 2) == 0 && tray_byte(remaining, 4 * p + 3) == 0,
        lit_pixel(x, y) == lit_pixel(31 - x, y),
        lit_pixel(x, y) == lit_pixel(x, 31 - y),
        lit_pixel(x, y) == lit_pixel(y, x),
        (y == 15 || y == 16) ==> (lit_pixel(x, y) <==> 5 <= x <= 26),
        (x == 0 || x == 31 || y == 0 || y == 31) ==> !lit_pixel(x, y),
{
    assert((4 * p) / 4 == p && (4 * p) % 4 == 0);
    assert((4 * p + 1) / 4 == p && (4 * p + 1) % 4 == 1);
    assert((4 * p + 2) / 4 == p && (4 * p + 2) % 4 == 2);
    assert((4 * p + 3) / 4 == p && (4 * p + 3) % 4 == 3);
    assert((2 * (31 - x) - 31) * (2 * (31 - x) - 31) == (2 * x - 31) * (2 * x - 31))
        by (nonlinear_arith);
    assert((2 * (31 - y) - 31) * (2 * (31 - y) - 31) == (2 * y - 31) * (2 * y - 31))
        by (nonlinear_arith);
    assert((2 * x - 31) * (2 * x - 31) >= 0 && (2 * y - 31) * (2 * y - 31) >= 0)
        by (nonlinear_arith);
    if y == 15 || y == 16 {
        assert((2 * y - 31) * (2 * y - 31) == 1) by (nonlinear_arith)
            requires
                y == 15 || y == 16,
        ;
        let d = 2 * x - 31;
        if x <= 4 {
            assert(d * d >= 529) by (nonlinear_arith)
                requires
                    d <= -23,
            ;
        } else if x >= 27 {
            assert(d * d >= 529) by (nonlinear_arith)
                requires
                    d >= 23,
            ;
        } else {
            assert(d * d <= 441) by (nonlinear_arith)
                requires
                    -21 <= d <= 21,
            ;
        }
    }
    if x == 0 || x == 31 {
        assert((2 * x - 31) * (2 * x - 31) == 961) by (nonlinear_arith)
            requires
                x == 0 || x == 31,
        ;
    }
    if y == 0 || y == 31 {
        assert((2 * y - 31) * (2 * y - 31) == 961) by (nonlinear_arith)
            requires
                y == 0 || y == 31,
        ;
    }
}

} // verus!
