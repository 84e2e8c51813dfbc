//! Dark-sky classes and the rendering of classified pixels to PNG tiles.
//!
//! Radiance values are floating point: the caller assigns each pixel its
//! dark-sky class (see [`RadianceClass`]), and this module turns classes into
//! colours and colours into PNG bytes.
use vstd::prelude::*;

use image::ImageEncoder;

use crate::text::{chars_of, dec, push_dec, push_str, string_of};

verus! {

/// Version of the radiance classification recorded with tiles.
pub const DARK_SKY_CLASSIFICATION_VERSION: &'static str = "radiance-dark-sky-v1";

#[verifier::external_type_specification]
#[verifier::external_body]
pub struct ExImageError(image::ImageError);

// ---------------------------------------------------------------------------
// Dark-sky classes
// ---------------------------------------------------------------------------

/// One class of the dark-sky scale. The radiance bounds are the decimal text
/// of their `f32` values; a class holds radiance `r` when
/// `min_radiance <= r` and, if there is an upper bound, `r < max`.
#[derive(Debug, Clone, Copy, PartialEq, Eq)]
pub struct DarkSkyClass {
    pub class: u8,
    pub color_hex: &'static str,
    pub label: &'static str,
    pub min_radiance: &'static str,
    pub max_radiance_exclusive: Option<&'static str>,
}

/// The colour of class `n`, if the scale has that class.
pub open spec fn class_color(n: u8) -> Option<Seq<char>> {
    if n == 1 {
        Some("#05070d"@)
    } else if n == 2 {
        Some("#10203f"@)
    } else if n == 3 {
        Some("#1f3f75"@)
    } else if n == 4 {
        Some("#2f6f73"@)
    } else if n == 5 {
        Some("#62a35c"@)
    } else if n == 6 {
        Some("#b6b34b"@)
    } else if n == 7 {
        Some("#d9822b"@)
    } else if n == 8 {
        Some("#d64a2f"@)
    } else if n == 9 {
        Some("#f2efe8"@)
    } else {
        None
    }
}

/// The red, green and blue components of the colour of class `n`.
pub open spec fn class_rgb(n: u8) -> Option<(u8, u8, u8)> {
    if n == 1 {
        Some((0x05u8, 0x07u8, 0x0du8))
    } else if n == 2 {
        Some((0x10u8, 0x20u8, 0x3fu8))
    } else if n == 3 {
        Some((0x1fu8, 0x3fu8, 0x75u8))
    } else if n == 4 {
        Some((0x2fu8, 0x6fu8, 0x73u8))
    } else if n == 5 {
        Some((0x62u8, 0xa3u8, 0x5cu8))
    } else if n == 6 {
        Some((0xb6u8, 0xb3u8, 0x4bu8))
    } else if n == 7 {
        Some((0xd9u8, 0x82u8, 0x2bu8))
    } else if n == 8 {
        Some((0xd6u8, 0x4au8, 0x2fu8))
    } else if n == 9 {
        Some((0xf2u8, 0xefu8, 0xe8u8))
    } else {
        None
    }
}

/// The label of class `n`.
pub open spec fn class_label(n: u8) -> Seq<char> {
    if n == 1 {
        "Excellent dark site"@
    } else if n == 2 {
        "Dark site"@
    } else if n == 3 {
        "Rural sky"@
    } else if n == 4 {
        "Rural/suburban transition"@
    } else if n == 5 {
        "Suburban edge"@
    } else if n == 6 {
        "Bright suburban"@
    } else if n == 7 {
        "Urban transition"@
    } else if n == 8 {
        "City sky"@
    } else {
        "Inner-city sky"@
    }
}

/// The lower radiance bound of class `n`.
pub open spec fn class_min(n: u8) -> Seq<char> {
    if n == 1 {
        "0.0"@
    } else if n == 2 {
        "0.2"@
    } else if n == 3 {
        "0.4"@
    } else if n == 4 {
        "1.0"@
    } else if n == 5 {
        "3.0"@
    } else if n == 6 {
        "6.0"@
    } else if n == 7 {
        "12.0"@
    } else if n == 8 {
        "25.0"@
    } else {
        "50.0"@
    }
}

/// The exclusive upper radiance bound of class `n`: the lower bound of the
/// next class, none for the last.
pub open spec fn class_max(n: u8) -> Option<Seq<char>> {
    if 1 <= n <= 8 {
        Some(class_min((n + 1) as u8))
    } else {
        None
    }
}

/// The value, in tenths, of a decimal text with one digit after the point
/// (such as `"12.0"`, which is 120).
pub open spec fn tenths(s: Seq<char>) -> int {
    (crate::text::digits_value(s.take(s.len() - 2)) * 10 + crate::text::digit_value(s.last())) as int
}

/// Whether radiance `r` (in tenths) lies in class `n` of the dark-sky scale:
/// at or above the class's lower bound and, when it has one, below its upper
/// bound.
pub open spec fn in_dark_sky_class(r_tenths: int, n: u8) -> bool {
    &&& 1 <= n <= 9
    &&& tenths(class_min(n)) <= r_tenths
    &&& class_max(n) matches Some(m) ==> r_tenths < tenths(m)
}

/// The bounds of the dark-sky scale, in tenths: 0, 0.2, 0.4, 1, 3, 6, 12, 25
/// and 50.
pub proof fn lemma_class_bounds_in_tenths()
    ensures
        tenths(class_min(1)) == 0,
        tenths(class_min(2)) == 2,
        tenths(class_min(3)) == 4,
        tenths(class_min(4)) == 10,
        tenths(class_min(5)) == 30,
        tenths(class_min(6)) == 60,
        tenths(class_min(7)) == 120,
        tenths(class_min(8)) == 250,
        tenths(class_min(9)) == 500,
{
    reveal_strlit("0.0");
    reveal_strlit("0.2");
    reveal_strlit("0.4");
    reveal_strlit("1.0");
    reveal_strlit("3.0");
    reveal_strlit("6.0");
    reveal_strlit("12.0");
    reveal_strlit("25.0");
    reveal_strlit("50.0");
    reveal_with_fuel(crate::text::digits_value, 3);
    assert("0.0"@.take(1) =~= seq!['0']);
    assert("0.2"@.take(1) =~= seq!['0']);
    assert("0.4"@.take(1) =~= seq!['0']);
    assert("1.0"@.take(1) =~= seq!['1']);
    assert("3.0"@.take(1) =~= seq!['3']);
    assert("6.0"@.take(1) =~= seq!['6']);
    assert("12.0"@.take(2) =~= seq!['1', '2']);
    assert("25.0"@.take(2) =~= seq!['2', '5']);
    assert("50.0"@.take(2) =~= seq!['5', '0']);
    assert(seq!['1', '2'].drop_last() =~= seq!['1']);
    assert(seq!['2', '5'].drop_last() =~= seq!['2']);
    assert(seq!['5', '0'].drop_last() =~= seq!['5']);
    assert(seq!['0'].drop_last() =~= Seq::<char>::empty());
    assert(seq!['1'].drop_last() =~= Seq::<char>::empty());
    assert(seq!['2'].drop_last() =~= Seq::<char>::empty());
    assert(seq!['3'].drop_last() =~= Seq::<char>::empty());
    assert(seq!['5'].drop_last() =~= Seq::<char>::empty());
    assert(seq!['6'].drop_last() =~= Seq::<char>::empty());
}

/// Whether `c` is entry `n` of the dark-sky scale.
pub open spec fn is_class_entry(c: DarkSkyClass, n: u8) -> bool {
    &&& c.class == n
    &&& class_color(n) == Some(c.color_hex@)
    &&& c.label@ == class_label(n)
    &&& c.min_radiance@ == class_min(n)
    &&& match (c.max_radiance_exclusive, class_max(n)) {
        (Some(m), Some(x)) => m@ == x,
        (None, None) => true,
        _ => false,
    }
}

fn class_entry(
    class: u8,
    color_hex: &'static str,
    label: &'static str,
    min_radiance: &'static str,
    max_radiance_exclusive: Option<&'static str>,
) -> (c: DarkSkyClass)
    ensures
        c == (DarkSkyClass { class, color_hex, label, min_radiance, max_radiance_exclusive }),
{
    DarkSkyClass { class, color_hex, label, min_radiance, max_radiance_exclusive }
}

/// Entry `class` of the dark-sky scale, classes 1 (darkest) to 9.
pub fn dark_sky_class(class: u8) -> (r: Option<DarkSkyClass>)
    ensures
        1 <= class <= 9 ==> (r matches Some(c) && is_class_entry(c, class)),
        !(1 <= class <= 9) ==> r is None,
{
    match class {
        1 => Some(class_entry(1, "#05070d", "Excellent dark site", "0.0", Some("0.2"))),
        2 => Some(class_entry(2, "#10203f", "Dark site", "0.2", Some("0.4"))),
        3 => Some(class_entry(3, "#1f3f75", "Rural sky", "0.4", Some("1.0"))),
        4 => Some(class_entry(4, "#2f6f73", "Rural/suburban transition", "1.0", Some("3.0"))),
        5 => Some(class_entry(5, "#62a35c", "Suburban edge", "3.0", Some("6.0"))),
        6 => Some(class_entry(6, "#b6b34b", "Bright suburban", "6.0", Some("12.0"))),
        7 => Some(class_entry(7, "#d9822b", "Urban transition", "12.0", Some("25.0"))),
        8 => Some(class_entry(8, "#d64a2f", "City sky", "25.0", Some("50.0"))),
        9 => Some(class_entry(9, "#f2efe8", "Inner-city sky", "50.0", None)),
        _ => None,
    }
}

/// The whole scale, from the darkest class to the brightest.
pub fn dark_sky_classes() -> (r: Vec<DarkSkyClass>)
    ensures
        r@.len() == 9,
        forall|i: int| 0 <= i < 9 ==> is_class_entry(#[trigger] r@[i], (i + 1) as u8),
{
    let mut r: Vec<DarkSkyClass> = Vec::new();
    let mut n: u8 = 1;
    while n <= 9
        invariant
            1 <= n <= 10,
            r@.len() == n - 1,
            forall|i: int| 0 <= i < n - 1 ==> is_class_entry(#[trigger] r@[i], (i + 1) as u8),
        decreases 10 - n,
    {
        match dark_sky_class(n) {
            Some(c) => r.push(c),
            None => {},
        }
        n = n + 1;
    }
    r
}

// ---------------------------------------------------------------------------
// Colours
// ---------------------------------------------------------------------------

/// Why a tile could not be rendered.
#[derive(Debug, Clone, Copy, PartialEq, Eq)]
pub enum RenderError {
    EncodePng,
    InvalidClassColor { color_hex: &'static str },
    InvalidTileSize,
    PixelCountMismatch { tile_size: u16, expected: usize, actual: usize },
}

/// The value of a hexadecimal digit, in either case.
pub open spec fn hex_digit(c: char) -> Option<nat> {
    if '0' <= c && c <= '9' {
        Some((c as int - '0' as int) as nat)
    } else if 'a' <= c && c <= 'f' {
        Some((c as int - 'a' as int + 10) as nat)
    } else if 'A' <= c && c <= 'F' {
        Some((c as int - 'A' as int + 10) as nat)
    } else {
        None
    }
}

/// Every character is a hexadecimal digit.
pub open spec fn all_hex(s: Seq<char>) -> bool {
    forall|i: int| 0 <= i < s.len() ==> (#[trigger] hex_digit(s[i])) is Some
}

/// The number written by hexadecimal digits.
pub open spec fn hex_value(s: Seq<char>) -> nat
    decreases s.len(),
{
    if s.len() == 0 {
        0
    } else {
        hex_value(s.drop_last()) * 16 + match hex_digit(s.last()) {
            Some(d) => d,
            None => 0,
        }
    }
}

/// `u8::from_str_radix(s, 16)`: an optional `+`, then at least one
/// hexadecimal digit, with a value below 256.
pub open spec fn hex_u8(s: Seq<char>) -> Option<u8> {
    let digits = if s.len() > 0 && s[0] == '+' {
        s.drop_first()
    } else {
        s
    };
    if digits.len() > 0 && all_hex(digits) && hex_value(digits) <= 255 {
        Some(hex_value(digits) as u8)
    } else {
        None
    }
}

/// The components of a `#rrggbb` colour.
pub open spec fn color_rgb(s: Seq<char>) -> Option<(u8, u8, u8)> {
    if s.len() == 7 && s[0] == '#' {
        match (hex_u8(s.subrange(1, 3)), hex_u8(s.subrange(3, 5)), hex_u8(s.subrange(5, 7))) {
            (Some(r), Some(g), Some(b)) => Some((r, g, b)),
            _ => None,
        }
    } else {
        None
    }
}

proof fn lemma_hex_value_prefix(s: Seq<char>, k: int)
    requires
        0 <= k <= s.len(),
    ensures
        hex_value(s.take(k)) <= hex_value(s),
    decreases s.len(),
{
    if k < s.len() {
        assert(s.drop_last().take(k) == s.take(k));
        lemma_hex_value_prefix(s.drop_last(), k);
    } else {
        assert(s.take(k) == s);
    }
}

/// Parses one colour component.
pub fn parse_hex_byte(value: &str, color_hex: &'static str) -> (r: Result<u8, RenderError>)
    ensures
        match hex_u8(value@) {
            Some(b) => r == Ok::<u8, RenderError>(b),
            None => r == Err::<u8, RenderError>(RenderError::InvalidClassColor { color_hex }),
        },
{
    let cs = chars_of(value);
    let invalid = RenderError::InvalidClassColor { color_hex };
    let start: usize = if cs.len() > 0 && cs[0] == '+' {
        1
    } else {
        0
    };
    let ghost digits = if cs@.len() > 0 && cs@[0] == '+' {
        cs@.drop_first()
    } else {
        cs@
    };
    assert(digits == cs@.subrange(start as int, cs@.len() as int));
    if start >= cs.len() {
        return Err(invalid);
    }
    let mut acc: u32 = 0;
    let mut i: usize = start;
    while i < cs.len()
        invariant
            start <= i <= cs@.len(),
            digits == cs@.subrange(start as int, cs@.len() as int),
            cs@ == value@,
            digits == (if value@.len() > 0 && value@[0] == '+' {
                value@.drop_first()
            } else {
                value@
            }),
            acc <= 255,
            acc == hex_value(digits.take(i - start)),
            all_hex(digits.take(i - start)),
            invalid == (RenderError::InvalidClassColor { color_hex }),
        decreases cs@.len() - i,
    {
        let c = cs[i];
        let d: u32 = if '0' <= c && c <= '9' {
            (c as u32) - ('0' as u32)
        } else if 'a' <= c && c <= 'f' {
            (c as u32) - ('a' as u32) + 10
        } else if 'A' <= c && c <= 'F' {
            (c as u32) - ('A' as u32) + 10
        } else {
            assert(digits[i - start] == cs@[i as int]);
            assert(hex_digit(digits[i - start]) is None);
            assert(!all_hex(digits));
            assert(hex_u8(value@) is None);
            return Err(invalid);
        };
        assert(digits[i - start] == cs@[i as int]);
        assert(hex_digit(c) == Some(d as nat));
        assert(digits.take(i - start + 1).drop_last() == digits.take(i - start));
        assert(digits.take(i - start + 1).last() == c);
        assert(all_hex(digits.take(i - start + 1))) by {
            assert forall|j: int| 0 <= j < i - start + 1 implies (#[trigger] hex_digit(
                digits.take(i - start + 1)[j],
            )) is Some by {
                if j < i - start {
                    assert(digits.take(i - start + 1)[j] == digits.take(i - start)[j]);
                }
            }
        }
        let next = acc * 16 + d;
        if next > 255 {
            proof {
                lemma_hex_value_prefix(digits, i - start + 1);
            }
            assert(hex_value(digits.take(i - start + 1)) == next);
            assert(hex_value(digits) > 255);
            assert(hex_u8(value@) is None);
            return Err(invalid);
        }
        acc = next;
        i = i + 1;
    }
    assert(digits.take(i - start) == digits);
    Ok(acc as u8)
}

fn pair_at(cs: &Vec<char>, i: usize) -> (r: String)
    requires
        i + 2 <= cs.len(),
    ensures
        r@ == cs@.subrange(i as int, i + 2),
{
    let mut v: Vec<char> = Vec::new();
    v.push(cs[i]);
    v.push(cs[i + 1]);
    assert(v@ == cs@.subrange(i as int, i + 2));
    string_of(&v)
}

/// Parses a `#rrggbb` class colour.
pub fn parse_color_hex(color_hex: &'static str) -> (r: Result<[u8; 3], RenderError>)
    ensures
        match color_rgb(color_hex@) {
            Some((red, green, blue)) => r matches Ok(rgb) && rgb@ == seq![red, green, blue],
            None => r == Err::<[u8; 3], RenderError>(RenderError::InvalidClassColor { color_hex }),
        },
{
    let cs = chars_of(color_hex);
    if cs.len() != 7 || cs[0] != '#' {
        return Err(RenderError::InvalidClassColor { color_hex });
    }
    let red = parse_hex_byte(pair_at(&cs, 1).as_str(), color_hex)?;
    let green = parse_hex_byte(pair_at(&cs, 3).as_str(), color_hex)?;
    let blue = parse_hex_byte(pair_at(&cs, 5).as_str(), color_hex)?;
    let rgb = [red, green, blue];
    assert(rgb@ == seq![red, green, blue]);
    Ok(rgb)
}

/// The byte written by two hexadecimal digits.
pub open spec fn hex_pair_value(a: char, b: char) -> u8 {
    (hex_digit(a)->0 * 16 + hex_digit(b)->0) as u8
}

proof fn lemma_hex_pair(s: Seq<char>)
    requires
        s.len() == 2,
        hex_digit(s[0]) is Some,
        hex_digit(s[1]) is Some,
    ensures
        hex_u8(s) == Some(hex_pair_value(s[0], s[1])),
{
    reveal_with_fuel(hex_value, 3);
    assert(s.drop_last().drop_last() =~= Seq::<char>::empty());
    assert(s.drop_last().last() == s[0]);
    assert(all_hex(s)) by {
        assert forall|i: int| 0 <= i < s.len() implies (#[trigger] hex_digit(s[i])) is Some by {
            if i == 0 {
            } else {
            }
        }
    }
}

proof fn lemma_color7(s: Seq<char>)
    requires
        s.len() == 7,
        s[0] == '#',
        forall|i: int| 1 <= i < 7 ==> (#[trigger] hex_digit(s[i])) is Some,
    ensures
        color_rgb(s) == Some(
            (hex_pair_value(s[1], s[2]), hex_pair_value(s[3], s[4]), hex_pair_value(s[5], s[6])),
        ),
{
    assert(hex_digit(s[1]) is Some && hex_digit(s[2]) is Some);
    assert(hex_digit(s[3]) is Some && hex_digit(s[4]) is Some);
    assert(hex_digit(s[5]) is Some && hex_digit(s[6]) is Some);
    lemma_hex_pair(s.subrange(1, 3));
    lemma_hex_pair(s.subrange(3, 5));
    lemma_hex_pair(s.subrange(5, 7));
}

/// Every colour of the dark-sky scale is a well-formed `#rrggbb` colour,
/// with the components of [`class_rgb`].
pub proof fn lemma_class_colors_parse(n: u8)
    requires
        1 <= n <= 9,
    ensures
        class_color(n) matches Some(c) && color_rgb(c) == class_rgb(n),
{
    if n == 1 {
        reveal_strlit("#05070d");
        lemma_color7("#05070d"@);
    } else if n == 2 {
        reveal_strlit("#10203f");
        lemma_color7("#10203f"@);
    } else if n == 3 {
        reveal_strlit("#1f3f75");
        lemma_color7("#1f3f75"@);
    } else if n == 4 {
        reveal_strlit("#2f6f73");
        lemma_color7("#2f6f73"@);
    } else if n == 5 {
        reveal_strlit("#62a35c");
        lemma_color7("#62a35c"@);
    } else if n == 6 {
        reveal_strlit("#b6b34b");
        lemma_color7("#b6b34b"@);
    } else if n == 7 {
        reveal_strlit("#d9822b");
        lemma_color7("#d9822b"@);
    } else if n == 8 {
        reveal_strlit("#d64a2f");
        lemma_color7("#d64a2f"@);
    } else {
        reveal_strlit("#f2efe8");
        lemma_color7("#f2efe8"@);
    }
}

// ---------------------------------------------------------------------------
// Pixels and tiles
// ---------------------------------------------------------------------------

/// What the renderer knows of a pixel's radiance: none was sampled, it was
/// sampled but falls in no dark-sky class (negative or not finite), or it
/// falls in the class with this number.
#[derive(Debug, Clone, Copy, PartialEq, Eq, Structural)]
pub enum RadianceClass {
    Missing,
    Unclassified,
    Class(u8),
}

/// A pixel to render: its radiance class and whether quality rules
/// rejected it.
#[derive(Debug, Clone, Copy, PartialEq, Eq, Structural)]
pub struct RenderPixel {
    pub radiance: RadianceClass,
    pub rejected: bool,
}

/// The RGBA colour of a pixel: transparent when rejected, without radiance
/// or outside every class, else the opaque colour of its class.
pub open spec fn pixel_rgba(p: RenderPixel) -> Seq<u8> {
    let transparent = seq![0u8, 0u8, 0u8, 0u8];
    if p.rejected {
        transparent
    } else {
        match p.radiance {
            RadianceClass::Class(n) => match class_rgb(n) {
                Some((r, g, b)) => seq![r, g, b, 255u8],
                None => transparent,
            },
            _ => transparent,
        }
    }
}

/// The RGBA bytes of a row-major pixel sequence.
pub open spec fn pixels_rgba(s: Seq<RenderPixel>) -> Seq<u8>
    decreases s.len(),
{
    if s.len() == 0 {
        Seq::empty()
    } else {
        pixels_rgba(s.drop_last()) + pixel_rgba(s.last())
    }
}

proof fn lemma_pixels_rgba_len(s: Seq<RenderPixel>)
    ensures
        pixels_rgba(s).len() == 4 * s.len(),
    decreases s.len(),
{
    if s.len() > 0 {
        lemma_pixels_rgba_len(s.drop_last());
    }
}

/// The colour of one pixel. Every class of the scale has a valid colour, so
/// this never fails.
pub fn render_pixel(pixel: RenderPixel) -> (r: Result<[u8; 4], RenderError>)
    ensures
        r matches Ok(rgba) && rgba@ == pixel_rgba(pixel),
{
    let transparent: [u8; 4] = [0, 0, 0, 0];
    assert(transparent@ == seq![0u8, 0u8, 0u8, 0u8]);
    if pixel.rejected {
        return Ok(transparent);
    }
    let n = match pixel.radiance {
        RadianceClass::Class(n) => n,
        _ => {
            return Ok(transparent);
        },
    };
    let class = match dark_sky_class(n) {
        Some(class) => class,
        None => {
            return Ok(transparent);
        },
    };
    proof {
        lemma_class_colors_parse(n);
    }
    let rgb = parse_color_hex(class.color_hex)?;
    let rgba: [u8; 4] = [rgb[0], rgb[1], rgb[2], 255];
    assert(rgba@ == pixel_rgba(pixel));
    Ok(rgba)
}

/// A pixel with radiance that quality rules did not reject.
pub open spec fn pixel_renderable(p: RenderPixel) -> bool {
    p.radiance != RadianceClass::Missing && !p.rejected
}

/// The number of renderable pixels.
pub open spec fn renderable_pixels(s: Seq<RenderPixel>) -> nat
    decreases s.len(),
{
    if s.len() == 0 {
        0
    } else {
        renderable_pixels(s.drop_last()) + if pixel_renderable(s.last()) {
            1nat
        } else {
            0nat
        }
    }
}

/// The number of pixels with radiance that were not rejected, as a `u32`
/// (truncated beyond `u32::MAX`).
pub fn renderable_pixel_count(pixels: &Vec<RenderPixel>) -> (r: u32)
    ensures
        r == renderable_pixels(pixels@) as u32,
        renderable_pixels(pixels@) <= u32::MAX ==> r == renderable_pixels(pixels@),
{
    let mut count: usize = 0;
    let mut i: usize = 0;
    while i < pixels.len()
        invariant
            i <= pixels@.len(),
            count == renderable_pixels(pixels@.take(i as int)),
            count <= i,
        decreases pixels@.len() - i,
    {
        assert(pixels@.take(i + 1).drop_last() == pixels@.take(i as int));
        if pixels[i].radiance != RadianceClass::Missing && !pixels[i].rejected {
            count = count + 1;
        }
        i = i + 1;
    }
    assert(pixels@.take(i as int) == pixels@);
    count as u32
}

/// The PNG encoding of an 8-bit RGBA image given row by row.
pub uninterp spec fn png_rgba8(rgba: Seq<u8>, width: u32, height: u32) -> Seq<u8>;

/// Encodes an 8-bit RGBA image as PNG with `image`'s `PngEncoder`
/// (`ImageEncoder::write_image` with `ExtendedColorType::Rgba8`). The
/// encoder panics unless the buffer holds `width * height` pixels of four
/// bytes. The bytes are a function of the image alone. The encoder refuses
/// only a zero width or height (or a failing writer, which a `Vec` never
/// is), so any other image is encoded.
#[verifier::external_body]
pub(crate) fn encode_rgba_png(rgba: &Vec<u8>, width: u32, height: u32) -> (r: Result<
    Vec<u8>,
    image::ImageError,
>)
    requires
        rgba@.len() == width * height * 4,
    ensures
        r matches Ok(png) ==> png@ == png_rgba8(rgba@, width, height),
        width > 0 && height > 0 ==> r is Ok,
{
    let mut png: Vec<u8> = Vec::new();
    let encoder = image::codecs::png::PngEncoder::new(&mut png);
    match encoder.write_image(rgba, width, height, image::ExtendedColorType::Rgba8) {
        Ok(()) => Ok(png),
        Err(error) => Err(error),
    }
}

/// Renders a square tile of row-major pixels to PNG.
pub fn render_png_tile(tile_size: u16, pixels: &Vec<RenderPixel>) -> (r: Result<
    Vec<u8>,
    RenderError,
>)
    ensures
        tile_size == 0 ==> r == Err::<Vec<u8>, RenderError>(RenderError::InvalidTileSize),
        tile_size > 0 && pixels@.len() != tile_size * tile_size ==> r == Err::<
            Vec<u8>,
            RenderError,
        >(
            RenderError::PixelCountMismatch {
                tile_size,
                expected: (tile_size * tile_size) as usize,
                actual: pixels@.len() as usize,
            },
        ),
        tile_size > 0 && pixels@.len() == tile_size * tile_size ==> (r matches Ok(png) && png@
            == png_rgba8(pixels_rgba(pixels@), tile_size as u32, tile_size as u32)),
{
    if tile_size == 0 {
        return Err(RenderError::InvalidTileSize);
    }
    let side = tile_size as usize;
    assert(side * side <= 65535 * 65535) by (nonlinear_arith)
        requires
            side <= 65535,
    ;
    let expected = side * side;
    if pixels.len() != expected {
        return Err(RenderError::PixelCountMismatch { tile_size, expected, actual: pixels.len() });
    }
    let mut rgba: Vec<u8> = Vec::new();
    let mut i: usize = 0;
    while i < pixels.len()
        invariant
            i <= pixels@.len(),
            pixels@.len() == expected,
            expected <= 65535 * 65535,
            rgba@ == pixels_rgba(pixels@.take(i as int)),
        decreases pixels@.len() - i,
    {
        let color = render_pixel(pixels[i])?;
        assert(pixels@.take(i + 1).drop_last() == pixels@.take(i as int));
        rgba.push(color[0]);
        rgba.push(color[1]);
        rgba.push(color[2]);
        rgba.push(color[3]);
        assert(rgba@ == pixels_rgba(pixels@.take(i + 1)));
        i = i + 1;
    }
    assert(pixels@.take(i as int) == pixels@);
    proof {
        lemma_pixels_rgba_len(pixels@);
    }
    let width = tile_size as u32;
    assert(rgba@.len() == width * width * 4);
    match encode_rgba_png(&rgba, width, width) {
        Ok(png) => Ok(png),
        Err(_) => Err(RenderError::EncodePng),
    }
}

/// The message of a render error.
pub open spec fn render_error_text(e: RenderError) -> Seq<char> {
    match e {
        RenderError::EncodePng => "failed to encode PNG tile"@,
        RenderError::InvalidClassColor { color_hex } => "invalid dark-sky class color '"@
            + color_hex@ + "'"@,
        RenderError::InvalidTileSize => "tile size must be greater than zero"@,
        RenderError::PixelCountMismatch { tile_size, expected, actual } => "expected "@ + dec(
            expected as nat,
        ) + " pixels for tile size "@ + dec(tile_size as nat) + ", got "@ + dec(actual as nat),
    }
}

impl RenderError {
    /// The message shown for this error.
    pub fn message(&self) -> (r: String)
        ensures
            r@ == render_error_text(*self),
    {
        let mut out = String::new();
        match *self {
            RenderError::EncodePng => push_str(&mut out, "failed to encode PNG tile"),
            RenderError::InvalidClassColor { color_hex } => {
                push_str(&mut out, "invalid dark-sky class color '");
                push_str(&mut out, color_hex);
                push_str(&mut out, "'");
            },
            RenderError::InvalidTileSize => push_str(&mut out, "tile size must be greater than zero"),
            RenderError::PixelCountMismatch { tile_size, expected, actual } => {
                push_str(&mut out, "expected ");
                push_dec(&mut out, expected as u64);
                push_str(&mut out, " pixels for tile size ");
                push_dec(&mut out, tile_size as u64);
                push_str(&mut out, ", got ");
                push_dec(&mut out, actual as u64);
            },
        }
        assert(out@ =~= render_error_text(*self));
        out
    }
}

} // verus!
