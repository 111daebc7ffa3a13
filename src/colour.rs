use vstd::prelude::*;
use crate::models::ReportError;
use crate::text::decimal;

verus! {

pub open spec fn is_hex_digit(c: char) -> bool {
    ('0' <= c && c <= '9') || ('a' <= c && c <= 'f') || ('A' <= c && c <= 'F')
}

pub open spec fn hex_value(c: char) -> nat {
    if '0' <= c && c <= '9' {
        (c as u32 - '0' as u32) as nat
    } else if 'a' <= c && c <= 'f' {
        (c as u32 - 'a' as u32 + 10) as nat
    } else {
        (c as u32 - 'A' as u32 + 10) as nat
    }
}

/// The characters of a colour string other than `#`.
pub open spec fn colour_digits(s: Seq<char>) -> Seq<char> {
    s.filter(|c: char| c != '#')
}

/// The strings read as a colour: ASCII only, hexadecimal digits apart from
/// any `#`, and either three digits, or six with nothing after the sixth.
pub open spec fn hex_colour_accepted(s: Seq<char>) -> bool {
    let d = colour_digits(s);
    &&& forall|i: int| 0 <= i < s.len() ==> (s[i] as u32) < 128
    &&& forall|i: int| 0 <= i < s.len() && s[i] != '#' ==> is_hex_digit(s[i])
    &&& (d.len() == 3 || (d.len() == 6 && s.last() != '#'))
}

/// The red, green and blue components that a colour string stands for; a
/// three-digit colour repeats each digit.
pub open spec fn hex_colour(s: Seq<char>) -> Option<(u8, u8, u8)> {
    let d = colour_digits(s);
    if !hex_colour_accepted(s) {
        None
    } else if d.len() == 3 {
        Some(
            (
                (17 * hex_value(d[0])) as u8,
                (17 * hex_value(d[1])) as u8,
                (17 * hex_value(d[2])) as u8,
            ),
        )
    } else {
        Some(
            (
                (16 * hex_value(d[0]) + hex_value(d[1])) as u8,
                (16 * hex_value(d[2]) + hex_value(d[3])) as u8,
                (16 * hex_value(d[4]) + hex_value(d[5])) as u8,
            ),
        )
    }
}

/// Perceived luminance scaled by 2 550 000: the weights 0.2126, 0.7152 and
/// 0.0722 times 10 000, over components of at most 255.
pub open spec fn weighted_luminance(r: u8, g: u8, b: u8) -> int {
    2126 * r + 7152 * g + 722 * b
}

/// The luminance 0.453 on the scale of `weighted_luminance`.
pub const LUMINANCE_THRESHOLD: u32 = 1155150;

/// The lightness, in percent, of the grey text drawn on a label of the given
/// colour: `100 * clamp((L - 0.453) * -1000, 0, 1)` for the perceived
/// luminance `L = weighted_luminance / 2 550 000`, rounded to the nearest
/// integer. In between the clamps this is `2 * (threshold - weighted) / 51`.
pub open spec fn label_lightness_spec(r: u8, g: u8, b: u8) -> int {
    let w = weighted_luminance(r, g, b);
    if w >= LUMINANCE_THRESHOLD {
        0
    } else if 2 * (LUMINANCE_THRESHOLD - w) >= 5100 {
        100
    } else {
        (4 * (LUMINANCE_THRESHOLD - w) + 51) / 102
    }
}

/// The CSS text of a grey with the given lightness in percent.
pub open spec fn grey_css_text(lightness: nat) -> Seq<char> {
    "hsl(0,0%,"@ + decimal(lightness) + "%)"@
}

/// Relies on colorsys::Rgb::from_hex_str, which reads the ASCII hexadecimal
/// digits of `s` skipping `#`, and accepts three digits or six.
#[verifier::external_body]
fn rgb_of_hex(s: &str) -> (r: Option<(u8, u8, u8)>)
    ensures
        r == hex_colour(s@),
{
    match colorsys::Rgb::from_hex_str(s) {
        Ok(rgb) => {
            let t: (u8, u8, u8) = (&rgb).into();
            Some(t)
        },
        Err(_) => None,
    }
}

/// Relies on colorsys::Hsl::to_css_string, which prints a colour of hue 0,
/// saturation 0 and an integral lightness as `hsl(0,0%,<lightness>%)`.
#[verifier::external_body]
fn grey_css(lightness: u32) -> (r: String)
    requires
        lightness <= 100,
    ensures
        r@ == grey_css_text(lightness as nat),
{
    colorsys::Hsl::from((0u32, 0u32, lightness)).to_css_string()
}

/// The lightness, in percent, of the grey text for a label of colour `(r, g, b)`.
pub fn label_lightness(r: u8, g: u8, b: u8) -> (l: u32)
    ensures
        l == label_lightness_spec(r, g, b),
        l <= 100,
{
    let w: u32 = 2126 * (r as u32) + 7152 * (g as u32) + 722 * (b as u32);
    if w >= LUMINANCE_THRESHOLD {
        0
    } else if 2 * (LUMINANCE_THRESHOLD - w) >= 5100 {
        100
    } else {
        let l = (4 * (LUMINANCE_THRESHOLD - w) + 51) / 102;
        assert(l <= 100) by (nonlinear_arith)
            requires
                l == (4 * (LUMINANCE_THRESHOLD - w) + 51) / 102,
                2 * (LUMINANCE_THRESHOLD - w) < 5100,
        ;
        l
    }
}

/// The CSS colour of the text on a label of background `colour`: a grey
/// that is black on light backgrounds and white on dark ones.
pub fn calc_label_colour(colour: &str) -> (res: Result<String, ReportError>)
    ensures
        match hex_colour(colour@) {
            Some(rgb) => res is Ok && res->Ok_0@ == grey_css_text(
                label_lightness_spec(rgb.0, rgb.1, rgb.2) as nat,
            ),
            None => res == Err::<String, ReportError>(ReportError::InvalidColor),
        },
{
    match rgb_of_hex(colour) {
        Some((r, g, b)) => Ok(grey_css(label_lightness(r, g, b))),
        None => Err(ReportError::InvalidColor),
    }
}

/// The text on a label is never lighter than white nor darker than black.
pub proof fn lemma_label_lightness_bounded(r: u8, g: u8, b: u8)
    ensures
        0 <= label_lightness_spec(r, g, b) <= 100,
{
    let w = weighted_luminance(r, g, b);
    if w < LUMINANCE_THRESHOLD && 2 * (LUMINANCE_THRESHOLD - w) < 5100 {
        let d = LUMINANCE_THRESHOLD - w;
        assert(0 <= (4 * d + 51) / 102 <= 100) by (nonlinear_arith)
            requires
                0 < d,
                2 * d < 5100,
        ;
    }
}

/// A label of greater perceived luminance never gets lighter text, and from
/// the luminance 0.453 on the text is black.
pub proof fn lemma_label_lightness_non_increasing(r1: u8, g1: u8, b1: u8, r2: u8, g2: u8, b2: u8)
    requires
        weighted_luminance(r1, g1, b1) <= weighted_luminance(r2, g2, b2),
    ensures
        label_lightness_spec(r1, g1, b1) >= label_lightness_spec(r2, g2, b2),
        weighted_luminance(r2, g2, b2) >= LUMINANCE_THRESHOLD ==> label_lightness_spec(r2, g2, b2)
            == 0,
{
    let w1 = weighted_luminance(r1, g1, b1);
    let w2 = weighted_luminance(r2, g2, b2);
    lemma_label_lightness_bounded(r1, g1, b1);
    lemma_label_lightness_bounded(r2, g2, b2);
    if w2 < LUMINANCE_THRESHOLD && 2 * (LUMINANCE_THRESHOLD - w2) < 5100 {
        let d1 = LUMINANCE_THRESHOLD - w1;
        let d2 = LUMINANCE_THRESHOLD - w2;
        if 2 * d1 < 5100 {
            assert((4 * d1 + 51) / 102 >= (4 * d2 + 51) / 102) by (nonlinear_arith)
                requires
                    d1 >= d2,
                    d2 > 0,
            ;
        }
    }
}

} // verus!
