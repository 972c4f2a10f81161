//! The colour that a light state asks for.
use vstd::prelude::*;

use crate::color::RGB8;
#[allow(unused_imports)]
use crate::color::black;
use crate::gamma::corrected_color;
#[allow(unused_imports)]
use crate::gamma::{correction_is_monotone, only_off_is_shown_as_off, GAMMA};

verus! {

/// What a light state asks the stars to look like.
#[derive(Clone, Copy, Debug, PartialEq, Eq, Structural)]
pub enum LightRequest {
    /// A colour of the CIE diagram, by the linear levels of its three channels.
    Xy { r: u8, g: u8, b: u8 },
    /// A hue and a saturation, with a brightness if the state gives one.
    Hs { hue: u8, sat: u8, brightness: Option<u8> },
    /// No colour, with a brightness if the state gives one.
    White { brightness: Option<u8> },
    /// A colour in a form that the strip does not take.
    Unsupported,
}

/// The colour of a hue, a saturation and a value, in whole numbers. The hue goes
/// round from red over green and blue back to red in six ranges. In each of
/// them one channel is at the value, one is as low as the saturation allows, and
/// the third moves between the two.
pub open spec fn hsv_color(hue: u8, sat: u8, val: u8) -> RGB8 {
    let moved = (hue * 2 % 85) * 3;
    let low = val * (255 - sat) / 255;
    let falling = val * (255 - sat * moved / 255) / 255;
    let rising = val * (255 - sat * (255 - moved) / 255) / 255;
    let (r, g, b) = if hue <= 42 || hue == 255 {
        (val as int, rising, low)
    } else if hue <= 84 {
        (falling, val as int, low)
    } else if hue <= 127 {
        (low, val as int, rising)
    } else if hue <= 169 {
        (low, falling, val as int)
    } else if hue <= 212 {
        (rising, low, val as int)
    } else {
        (val as int, low, falling)
    };
    RGB8 { r: r as u8, g: g as u8, b: b as u8 }
}

/// `smart_leds::hsv::hsv2rgb`: the colour of a hue, a saturation and a value, as
/// `hsv_color` says.
#[verifier::external_body]
fn hsv2rgb(hue: u8, sat: u8, val: u8) -> (color: RGB8)
    ensures
        color == hsv_color(hue, sat, val),
{
    let color = smart_leds::hsv::hsv2rgb(smart_leds::hsv::Hsv { hue, sat, val });
    RGB8 { r: color.r, g: color.g, b: color.b }
}

/// A grey of the given brightness.
pub open spec fn grey(brightness: u8) -> RGB8 {
    RGB8 { r: brightness, g: brightness, b: brightness }
}

/// The colour that a request comes to. A hue without a brightness is shown at
/// full brightness, and a request for neither turns the light off.
pub open spec fn requested(request: LightRequest) -> Option<RGB8> {
    match request {
        LightRequest::Xy { r, g, b } => Some(
            RGB8 { r: GAMMA@[r as int], g: GAMMA@[g as int], b: GAMMA@[b as int] },
        ),
        LightRequest::Hs { hue, sat, brightness } => Some(
            hsv_color(hue, sat, brightness.unwrap_or(255)),
        ),
        LightRequest::White { brightness } => Some(grey(brightness.unwrap_or(0))),
        LightRequest::Unsupported => None,
    }
}

/// Every request comes to a colour, but for those in a form that the strip does
/// not take.
pub proof fn only_unsupported_has_no_color(request: LightRequest)
    ensures
        requested(request) is None <==> request == LightRequest::Unsupported,
{
}

/// A colour of the CIE diagram is shown as black exactly where all of its levels
/// are off.
pub proof fn xy_is_black_only_when_off(r: u8, g: u8, b: u8)
    ensures
        requested(LightRequest::Xy { r, g, b }) == Some(black()) <==> r == 0 && g == 0 && b == 0,
{
    only_off_is_shown_as_off(r);
    only_off_is_shown_as_off(g);
    only_off_is_shown_as_off(b);
}

/// Each channel of a colour of the CIE diagram is the corrected level of that
/// channel.
pub proof fn xy_channels_are_corrected_levels(r: u8, g: u8, b: u8, color: Option<RGB8>)
    requires
        call_ensures(requested_color, (LightRequest::Xy { r, g, b },), color),
    ensures
        color matches Some(shown) && shown.r == GAMMA@[r as int] && shown.g == GAMMA@[g as int]
            && shown.b == GAMMA@[b as int],
{
}

/// The channels of a colour of the CIE diagram do not mix: each of them depends on
/// its own level alone, and a higher level never makes it darker.
pub proof fn xy_channels_do_not_mix(one: RGB8, other: RGB8)
    ensures
        requested(LightRequest::Xy { r: one.r, g: one.g, b: one.b }) matches Some(shown) && (
        requested(LightRequest::Xy { r: other.r, g: other.g, b: other.b }) matches Some(
            other_shown,
        ) && {
            &&& one.r == other.r ==> shown.r == other_shown.r
            &&& one.g == other.g ==> shown.g == other_shown.g
            &&& one.b == other.b ==> shown.b == other_shown.b
            &&& one.r <= other.r ==> shown.r <= other_shown.r
            &&& one.g <= other.g ==> shown.g <= other_shown.g
            &&& one.b <= other.b ==> shown.b <= other_shown.b
        }),
{
    if one.r <= other.r {
        correction_is_monotone(one.r, other.r);
    }
    if one.g <= other.g {
        correction_is_monotone(one.g, other.g);
    }
    if one.b <= other.b {
        correction_is_monotone(one.b, other.b);
    }
}

/// A light state without a colour is shown in the grey of its brightness, and one
/// without a brightness either is off.
pub proof fn white_is_grey(brightness: Option<u8>, color: Option<RGB8>)
    requires
        call_ensures(requested_color, (LightRequest::White { brightness },), color),
    ensures
        color matches Some(shown) && shown.r == shown.g == shown.b,
        brightness matches Some(level) ==> color->0.r == level,
        brightness is None ==> color->0.r == 0,
{
}

/// A hue without a brightness is shown as the same hue and saturation are at full
/// brightness: one of its channels is full.
pub proof fn hue_without_brightness_is_full(hue: u8, sat: u8)
    ensures
        requested(LightRequest::Hs { hue, sat, brightness: None }) == requested(
            LightRequest::Hs { hue, sat, brightness: Some(255) },
        ),
        requested(LightRequest::Hs { hue, sat, brightness: None }) matches Some(shown) && (shown.r
            == 255 || shown.g == 255 || shown.b == 255),
{
    hue_is_as_bright_as_asked(hue, sat, 255);
}

/// How bright the channels of a hue are: the brightest is at the brightness asked
/// for, and the dimmest is what the saturation leaves of it. The hue says which
/// they are, and where the third lies between them.
pub proof fn hue_places_the_channels(hue: u8, sat: u8, val: u8, color: Option<RGB8>)
    requires
        call_ensures(
            requested_color,
            (LightRequest::Hs { hue, sat, brightness: Some(val) },),
            color,
        ),
    ensures
        color is Some,
        ({
            let shown = color->0;
            let low = val * (255 - sat) / 255;
            let moved = (hue * 2 % 85) * 3;
            let down = val * (255 - sat * moved / 255) / 255;
            let up = val * (255 - sat * (255 - moved) / 255) / 255;
            &&& low <= shown.r <= val
            &&& low <= shown.g <= val
            &&& low <= shown.b <= val
            &&& hue <= 42 || hue == 255 ==> shown.r == val && shown.b == low && shown.g == up
            &&& 43 <= hue <= 84 ==> shown.g == val && shown.b == low && shown.r == down
            &&& 85 <= hue <= 127 ==> shown.g == val && shown.r == low && shown.b == up
            &&& 128 <= hue <= 169 ==> shown.b == val && shown.r == low && shown.g == down
            &&& 170 <= hue <= 212 ==> shown.b == val && shown.g == low && shown.r == up
            &&& 213 <= hue <= 254 ==> shown.r == val && shown.g == low && shown.b == down
        }),
{
    let moved = (hue * 2 % 85) * 3;
    hue_is_as_bright_as_asked(hue, sat, val);
    lemma_part_of_255(sat as int, moved);
    lemma_part_of_255(sat as int, 255 - moved);
    lemma_part_of_255(val as int, 255 - sat);
    lemma_part_of_255(val as int, 255 - sat * moved / 255);
    lemma_part_of_255(val as int, 255 - sat * (255 - moved) / 255);
    lemma_part_grows(val as int, 255 - sat, 255 - sat * moved / 255);
    lemma_part_grows(val as int, 255 - sat, 255 - sat * (255 - moved) / 255);
}

proof fn lemma_part_grows(a: int, b: int, c: int)
    requires
        0 <= a,
        b <= c,
    ensures
        a * b / 255 <= a * c / 255,
{
    assert(a * b <= a * c) by (nonlinear_arith)
        requires
            0 <= a,
            b <= c,
    ;
}

/// The brightness of a colour of the CIE diagram is what is given, up to full;
/// nothing given is full, and so is anything more.
pub proof fn xy_brightness_is_cut_at_full(given: u8, level: u8, none_level: u8)
    requires
        call_ensures(xy_brightness, (Some(given),), level),
        call_ensures(xy_brightness, (None::<u8>,), none_level),
    ensures
        level <= given,
        level <= 254,
        level == given || level == 254,
        none_level == 254,
{
}

/// A hue at no brightness is black.
pub proof fn hue_at_no_brightness_is_black(hue: u8, sat: u8)
    ensures
        requested(LightRequest::Hs { hue, sat, brightness: Some(0) }) == Some(black()),
{
    hue_is_as_bright_as_asked(hue, sat, 0);
}

/// A hue without saturation is the grey that the same brightness gives without a
/// colour.
pub proof fn hue_without_saturation_is_grey(hue: u8, brightness: u8)
    ensures
        requested(LightRequest::Hs { hue, sat: 0, brightness: Some(brightness) }) == requested(
            LightRequest::White { brightness: Some(brightness) },
        ),
{
    let moved = (hue * 2 % 85) * 3;
    lemma_part_of_255(0, moved);
    lemma_part_of_255(0, 255 - moved);
    assert(brightness * (255 - 0int * moved / 255) == brightness * 255);
    assert(brightness * (255 - 0int * (255 - moved) / 255) == brightness * 255);
}

/// No channel of a hue is brighter than the brightness asked for, and one of them
/// is as bright.
pub proof fn hue_is_as_bright_as_asked(hue: u8, sat: u8, val: u8)
    ensures
        hsv_color(hue, sat, val).r <= val,
        hsv_color(hue, sat, val).g <= val,
        hsv_color(hue, sat, val).b <= val,
        hsv_color(hue, sat, val).r == val || hsv_color(hue, sat, val).g == val || hsv_color(
            hue,
            sat,
            val,
        ).b == val,
{
    let moved = (hue * 2 % 85) * 3;
    lemma_part_of_255(sat as int, moved);
    lemma_part_of_255(sat as int, 255 - moved);
    lemma_part_of_255(val as int, 255 - sat);
    lemma_part_of_255(val as int, 255 - sat * moved / 255);
    lemma_part_of_255(val as int, 255 - sat * (255 - moved) / 255);
}

proof fn lemma_part_of_255(a: int, b: int)
    requires
        0 <= a <= 255,
        0 <= b <= 255,
    ensures
        0 <= a * b / 255 <= a,
{
    assert(0 <= a * b <= a * 255) by (nonlinear_arith)
        requires
            0 <= a,
            0 <= b <= 255,
    ;
}

/// The colour to show for a request, or `None` where the colour stays as it is.
pub fn requested_color(request: LightRequest) -> (color: Option<RGB8>)
    ensures
        color == requested(request),
{
    match request {
        LightRequest::Xy { r, g, b } => Some(corrected_color(r, g, b)),
        LightRequest::Hs { hue, sat, brightness } => Some(
            hsv2rgb(hue, sat, brightness.unwrap_or(255)),
        ),
        LightRequest::White { brightness } => {
            let level: u8 = brightness.unwrap_or(0);
            Some(RGB8 { r: level, g: level, b: level })
        },
        LightRequest::Unsupported => None,
    }
}

/// The brightness of a colour of the CIE diagram, out of 254: what the state
/// gives, but no more than full, and full where it gives none.
pub fn xy_brightness(brightness: Option<u8>) -> (level: u8)
    ensures
        level == (match brightness {
            Some(given) if given < 254 => given,
            _ => 254u8,
        }),
{
    let level: u8 = brightness.unwrap_or(254);
    if level < 254 {
        level
    } else {
        254
    }
}

} // verus!
