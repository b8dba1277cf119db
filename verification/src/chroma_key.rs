//! The chroma key compositor: clears the alpha of every pixel whose colour
//! lies close to a key colour.
//!
//! Closeness is judged on hue and saturation. Both are handled here as
//! fixed-point integers: a hue is an angle in millionths of a degree, from 0
//! up to but not including a full turn, and a saturation is a fraction in
//! millionths, from 0 to 1. A colour without a hue of its own (a grey) is
//! given hue 0 by whoever measures it. The compositor does not measure
//! colours itself: the caller supplies the tone of the key colour and of
//! every pixel.

use crate::config::ConfigError;
use crate::error::PipelineError;
use crate::text::{parse_u16, parse_u8, unsigned_value, within};
use vstd::arithmetic::div_mod::{
    lemma_fundamental_div_mod_converse_div, lemma_fundamental_div_mod_converse_mod,
};
use vstd::prelude::*;
use vstd::std_specs::iter::IteratorSpec;
use vstd::string::StringExecFns;

verus! {

/// One degree of hue.
pub const DEGREE: u32 = 1_000_000;

/// A full turn of hue: 360 degrees.
pub const FULL_TURN: u32 = 360_000_000;

/// One percent, as a fraction.
pub const PERCENT: u32 = 10_000;

/// The fraction one.
pub const WHOLE: u32 = 1_000_000;

/// Hue and saturation of one colour.
#[derive(Clone, Copy, Debug, PartialEq, Eq, Structural)]
pub struct Tone {
    /// Hue, in millionths of a degree.
    pub hue: u32,
    /// Saturation, in millionths.
    pub saturation: u32,
}

impl Tone {
    /// Whether hue and saturation are in range.
    pub open spec fn wf(self) -> bool {
        self.hue < FULL_TURN && self.saturation <= WHOLE
    }

    /// Returns whether hue and saturation are in range.
    pub fn is_valid(&self) -> (valid: bool)
        ensures
            valid == self.wf(),
    {
        self.hue < FULL_TURN && self.saturation <= WHOLE
    }
}

/// The key colour with its tolerances.
#[derive(Clone, Copy, Debug)]
pub struct KeyColor {
    /// Red, green and blue of the key colour.
    pub rgb: [u8; 3],
    /// Hue of the key colour, in millionths of a degree.
    pub hue: u32,
    /// Total width of the window of accepted hues around the key hue, in
    /// millionths of a degree: a hue is accepted up to half of this away.
    pub hue_tolerance: u32,
    /// How far below full saturation an accepted colour may lie, in
    /// millionths. Values above one count as one.
    pub saturation_tolerance: u32,
}

impl KeyColor {
    /// Whether the key hue lies within a turn and the tolerances lie within
    /// their ranges, 0 to 360 degrees and 0 to 100 percent.
    pub open spec fn wf(self) -> bool {
        &&& self.hue < FULL_TURN
        &&& self.hue_tolerance <= FULL_TURN
        &&& self.saturation_tolerance <= WHOLE
    }

    /// Makes a key colour from settings: a hue tolerance in whole degrees, 0
    /// to 360, and a saturation tolerance in whole percent, 0 to 100.
    /// Settings outside these ranges, and a key hue of a full turn or more,
    /// are refused.
    pub fn new(rgb: [u8; 3], hue: u32, hue_degrees: u32, saturation_percent: u32) -> (result:
        Result<KeyColor, PipelineError>)
        ensures
            result is Ok <==> hue < FULL_TURN && hue_degrees <= 360 && saturation_percent <= 100,
            result matches Ok(key) ==> {
                &&& key.wf()
                &&& key.rgb == rgb
                &&& key.hue == hue
                &&& key.hue_tolerance == hue_degrees * DEGREE
                &&& key.saturation_tolerance == saturation_percent * PERCENT
            },
            result matches Err(e) ==> e == PipelineError::InvalidConfiguration,
    {
        if hue >= FULL_TURN || hue_degrees > 360 || saturation_percent > 100 {
            return Err(PipelineError::InvalidConfiguration);
        }
        Ok(
            KeyColor {
                rgb,
                hue,
                hue_tolerance: hue_degrees * DEGREE,
                saturation_tolerance: saturation_percent * PERCENT,
            },
        )
    }
}

/// The angle between two hues, measured the short way round the circle.
pub open spec fn hue_distance(a: int, b: int) -> int {
    let d = if a >= b {
        a - b
    } else {
        b - a
    };
    if d <= FULL_TURN - d {
        d
    } else {
        FULL_TURN - d
    }
}

/// The least saturation that a tolerance accepts.
pub open spec fn min_saturation(saturation_tolerance: int) -> int {
    if saturation_tolerance >= WHOLE {
        0
    } else {
        WHOLE - saturation_tolerance
    }
}

/// Whether the hue lies within half the hue tolerance of the key hue.
pub open spec fn hue_matches(tone: Tone, key: KeyColor) -> bool {
    2 * hue_distance(tone.hue as int, key.hue as int) <= key.hue_tolerance
}

/// Whether the saturation reaches the least accepted saturation.
pub open spec fn saturation_matches(tone: Tone, key: KeyColor) -> bool {
    tone.saturation >= min_saturation(key.saturation_tolerance as int)
}

/// Whether pixel number `pixel` of an RGBA image has exactly the key colour.
pub open spec fn is_key_colour(image: Seq<u8>, pixel: int, key: KeyColor) -> bool {
    &&& image[pixel * 4] == key.rgb[0]
    &&& image[pixel * 4 + 1] == key.rgb[1]
    &&& image[pixel * 4 + 2] == key.rgb[2]
}

/// Whether pixel number `pixel` is keyed out: it has exactly the key colour,
/// or its tone matches the key in both hue and saturation.
pub open spec fn is_keyed(image: Seq<u8>, pixel: int, key: KeyColor, tones: Seq<Tone>) -> bool {
    is_key_colour(image, pixel, key) || (hue_matches(tones[pixel], key) && saturation_matches(
        tones[pixel],
        key,
    ))
}

/// An RGBA image after keying: the alpha of every keyed pixel is 0, every
/// other byte is as before.
pub open spec fn keyed(image: Seq<u8>, key: KeyColor, tones: Seq<Tone>) -> Seq<u8> {
    Seq::new(
        image.len(),
        |i: int|
            if i % 4 == 3 && is_keyed(image, i / 4, key, tones) {
                0u8
            } else {
                image[i]
            },
    )
}

/// Whether the tones are fit for keying an image of `len` bytes: one valid
/// tone for every whole pixel, and a key hue within a turn.
pub open spec fn tones_fit(len: int, key: KeyColor, tones: Seq<Tone>) -> bool {
    &&& key.hue < FULL_TURN
    &&& tones.len() == len / 4
    &&& forall|p: int| 0 <= p < tones.len() ==> (#[trigger] tones[p]).wf()
}

/// The distance between two hues within a turn lies between nothing and half
/// a turn, and does not depend on the order of the two.
pub proof fn lemma_hue_distance_range(a: int, b: int)
    requires
        0 <= a < FULL_TURN,
        0 <= b < FULL_TURN,
    ensures
        0 <= hue_distance(a, b) <= FULL_TURN / 2,
        hue_distance(a, b) == hue_distance(b, a),
        hue_distance(a, a) == 0,
{
}

/// The distance between two hues stays the same when both are turned by the
/// same angle, across the point where hues start over from zero too.
pub proof fn lemma_hue_distance_turns(a: int, b: int, turn: int)
    requires
        0 <= a < FULL_TURN,
        0 <= b < FULL_TURN,
        0 <= turn < FULL_TURN,
    ensures
        hue_distance((a + turn) % (FULL_TURN as int), (b + turn) % (FULL_TURN as int))
            == hue_distance(a, b),
{
}

/// A pixel that has exactly the key colour is keyed out, whatever its tone
/// and however narrow the tolerances.
pub proof fn lemma_exact_match_keyed(image: Seq<u8>, key: KeyColor, tones: Seq<Tone>, pixel: int)
    requires
        0 <= pixel < image.len() / 4,
        is_key_colour(image, pixel, key),
    ensures
        keyed(image, key, tones)[pixel * 4 + 3] == 0,
{
    lemma_fundamental_div_mod_converse_div(pixel * 4 + 3, 4, pixel, 3);
    lemma_fundamental_div_mod_converse_mod(pixel * 4 + 3, 4, pixel, 3);
}

/// A pixel that does not have exactly the key colour, and whose hue lies
/// further than half the hue tolerance from the key hue or whose saturation
/// lies below the least accepted one, keeps its alpha.
pub proof fn lemma_out_of_range_keeps_alpha(
    image: Seq<u8>,
    key: KeyColor,
    tones: Seq<Tone>,
    pixel: int,
)
    requires
        0 <= pixel < image.len() / 4,
        !is_key_colour(image, pixel, key),
        2 * hue_distance(tones[pixel].hue as int, key.hue as int) > key.hue_tolerance
            || tones[pixel].saturation < min_saturation(key.saturation_tolerance as int),
    ensures
        keyed(image, key, tones)[pixel * 4 + 3] == image[pixel * 4 + 3],
{
    lemma_fundamental_div_mod_converse_div(pixel * 4 + 3, 4, pixel, 3);
    lemma_fundamental_div_mod_converse_mod(pixel * 4 + 3, 4, pixel, 3);
}

/// Keying leaves the length and every colour byte as they are and never
/// raises an alpha.
pub proof fn lemma_keyed_only_lowers_alpha(image: Seq<u8>, key: KeyColor, tones: Seq<Tone>, i: int)
    requires
        0 <= i < image.len(),
    ensures
        keyed(image, key, tones).len() == image.len(),
        i % 4 != 3 ==> keyed(image, key, tones)[i] == image[i],
        keyed(image, key, tones)[i] <= image[i],
{
}

/// Keying an image a second time with the same key and tones changes
/// nothing.
pub proof fn lemma_keyed_idempotent(image: Seq<u8>, key: KeyColor, tones: Seq<Tone>)
    ensures
        keyed(keyed(image, key, tones), key, tones) == keyed(image, key, tones),
{
    let once = keyed(image, key, tones);
    let twice = keyed(once, key, tones);
    assert forall|i: int| 0 <= i < image.len() implies twice[i] == once[i] by {
        if i % 4 == 3 {
            let pixel = i / 4;
            assert(i == pixel * 4 + 3);
            assert((pixel * 4) % 4 == 0) by {
                lemma_fundamental_div_mod_converse_mod(pixel * 4, 4, pixel, 0);
            }
            assert((pixel * 4 + 1) % 4 == 1) by {
                lemma_fundamental_div_mod_converse_mod(pixel * 4 + 1, 4, pixel, 1);
            }
            assert((pixel * 4 + 2) % 4 == 2) by {
                lemma_fundamental_div_mod_converse_mod(pixel * 4 + 2, 4, pixel, 2);
            }
            assert(once[pixel * 4] == image[pixel * 4]);
            assert(once[pixel * 4 + 1] == image[pixel * 4 + 1]);
            assert(once[pixel * 4 + 2] == image[pixel * 4 + 2]);
            assert(is_keyed(once, pixel, key, tones) == is_keyed(image, pixel, key, tones));
        }
    }
    assert(twice =~= once);
}

/// Whether a tone matches the key in both hue and saturation.
pub fn tone_matches(tone: Tone, key: &KeyColor) -> (matches: bool)
    ensures
        matches == (hue_matches(tone, *key) && saturation_matches(tone, *key)),
{
    let apart: i64 = if tone.hue >= key.hue {
        (tone.hue - key.hue) as i64
    } else {
        (key.hue - tone.hue) as i64
    };
    let turn: i64 = FULL_TURN as i64;
    let distance: i64 = if apart <= turn - apart {
        apart
    } else {
        turn - apart
    };
    let floor: u32 = if key.saturation_tolerance >= WHOLE {
        0
    } else {
        WHOLE - key.saturation_tolerance
    };
    2 * distance <= key.hue_tolerance as i64 && tone.saturation >= floor
}

/// Clears the alpha of every pixel of an RGBA image that has exactly the key
/// colour, or whose tone matches the key in hue and in saturation. All other
/// bytes stay as they are; bytes after the last whole pixel are not touched.
///
/// `tones` holds the tone of every pixel, in order. Where it does not hold
/// exactly one valid tone per whole pixel, or the key hue is a full turn or
/// more, the image is left as it is and the call is refused.
pub fn apply_chroma_key(image_data: &mut Vec<u8>, key: &KeyColor, tones: &Vec<Tone>) -> (result:
    Result<(), PipelineError>)
    ensures
        result is Ok <==> tones_fit(old(image_data)@.len() as int, *key, tones@),
        result is Ok ==> final(image_data)@ == keyed(old(image_data)@, *key, tones@),
        result matches Err(e) ==> e == PipelineError::DataIntegrity && final(image_data)@ == old(
            image_data,
        )@,
{
    let pixels: usize = image_data.len() / 4;
    if key.hue >= FULL_TURN || tones.len() != pixels {
        return Err(PipelineError::DataIntegrity);
    }
    let mut checked: usize = 0;
    while checked < pixels
        invariant
            tones@.len() == pixels,
            checked <= pixels,
            forall|p: int| 0 <= p < checked ==> (#[trigger] tones@[p]).wf(),
        decreases pixels - checked,
    {
        if !tones[checked].is_valid() {
            return Err(PipelineError::DataIntegrity);
        }
        checked = checked + 1;
    }
    let ghost before: Seq<u8> = image_data@;
    let mut p: usize = 0;
    while p < pixels
        invariant
            tones_fit(before.len() as int, *key, tones@),
            pixels == before.len() / 4,
            image_data@.len() == before.len(),
            before.len() <= usize::MAX,
            p <= pixels,
            forall|i: int| 0 <= i < p * 4 ==> image_data@[i] == keyed(before, *key, tones@)[i],
            forall|i: int| p * 4 <= i < before.len() ==> image_data@[i] == before[i],
        decreases pixels - p,
    {
        let at: usize = p * 4;
        proof {
            lemma_fundamental_div_mod_converse_div(at as int, 4, p as int, 0);
            lemma_fundamental_div_mod_converse_mod(at as int, 4, p as int, 0);
            lemma_fundamental_div_mod_converse_div(at + 1, 4, p as int, 1);
            lemma_fundamental_div_mod_converse_mod(at + 1, 4, p as int, 1);
            lemma_fundamental_div_mod_converse_div(at + 2, 4, p as int, 2);
            lemma_fundamental_div_mod_converse_mod(at + 2, 4, p as int, 2);
            lemma_fundamental_div_mod_converse_div(at + 3, 4, p as int, 3);
            lemma_fundamental_div_mod_converse_mod(at + 3, 4, p as int, 3);
        }
        let exact: bool = image_data[at] == key.rgb[0] && image_data[at + 1] == key.rgb[1]
            && image_data[at + 2] == key.rgb[2];
        if exact || tone_matches(tones[p], key) {
            image_data.set(at + 3, 0);
        }
        p = p + 1;
    }
    proof {
        assert(image_data@ =~= keyed(before, *key, tones@));
    }
    Ok(())
}

/// The value of a hexadecimal digit, upper or lower case.
pub open spec fn hex_value(c: char) -> Option<int> {
    let v = c as u32;
    if 48 <= v <= 57 {
        Some(v - 48)
    } else if 65 <= v <= 70 {
        Some(v - 55)
    } else if 97 <= v <= 102 {
        Some(v - 87)
    } else {
        None
    }
}

/// The upper-case hexadecimal digit for a value below sixteen.
pub open spec fn hex_char(d: int) -> char {
    if d < 10 {
        (d + 48) as char
    } else {
        (d + 55) as char
    }
}

/// The colour that the user names as key colour.
#[derive(Clone, Copy, Debug, PartialEq, Eq, Structural)]
pub struct TargetColor {
    /// Red.
    pub r: u8,
    /// Green.
    pub g: u8,
    /// Blue.
    pub b: u8,
}

impl TargetColor {
    /// The colour that a text of the form `#RRGGBB` stands for: a number
    /// sign and six hexadecimal digits, two for each of red, green and
    /// blue. Any other text stands for none.
    pub open spec fn of_text(text: Seq<char>) -> Option<TargetColor> {
        if text.len() == 7 && text[0] == '#' && (forall|i: int|
            1 <= i < 7 ==> (#[trigger] hex_value(text[i])) is Some) {
            Some(
                TargetColor {
                    r: (hex_value(text[1])->0 * 16 + hex_value(text[2])->0) as u8,
                    g: (hex_value(text[3])->0 * 16 + hex_value(text[4])->0) as u8,
                    b: (hex_value(text[5])->0 * 16 + hex_value(text[6])->0) as u8,
                },
            )
        } else {
            None
        }
    }

    /// The text of the colour: `#RRGGBB`, in upper case.
    pub open spec fn text(self) -> Seq<char> {
        seq![
            '#',
            hex_char(self.r as int / 16),
            hex_char(self.r as int % 16),
            hex_char(self.g as int / 16),
            hex_char(self.g as int % 16),
            hex_char(self.b as int / 16),
            hex_char(self.b as int % 16),
        ]
    }

    /// Reads a colour from a text of the form `#RRGGBB`. Any other text is
    /// refused.
    pub fn parse(s: &str) -> (result: Result<TargetColor, ConfigError>)
        ensures
            result matches Ok(color) ==> TargetColor::of_text(s@) == Some(color),
            result matches Err(e) ==> TargetColor::of_text(s@) is None && e == ConfigError::KeyColor,
    {
        broadcast use vstd::string::axiom_spec_iter;

        let mut digits: Vec<u8> = Vec::new();
        let mut marked: bool = false;
        for c in it: s.chars()
            invariant
                it.seq() == s@,
                marked == (it.index() > 0),
                marked ==> s@[0] == '#',
                digits@.len() == (if marked {
                    it.index() - 1
                } else {
                    0
                }),
                digits@.len() <= 6,
                forall|j: int|
                    0 <= j < digits@.len() ==> hex_value(s@[j + 1]) == Some(digits@[j] as int),
        {
            let code: u32 = c as u32;
            if !marked {
                if c != '#' {
                    return Err(ConfigError::KeyColor);
                }
                marked = true;
            } else {
                if digits.len() >= 6 {
                    return Err(ConfigError::KeyColor);
                }
                let ghost at: int = digits@.len() as int + 1;
                assert(s@[at] == c);
                if 48 <= code && code <= 57 {
                    digits.push((code - 48) as u8);
                } else if 65 <= code && code <= 70 {
                    digits.push((code - 55) as u8);
                } else if 97 <= code && code <= 102 {
                    digits.push((code - 87) as u8);
                } else {
                    assert(hex_value(s@[at]) is None);
                    return Err(ConfigError::KeyColor);
                }
            }
        }
        if digits.len() != 6 {
            return Err(ConfigError::KeyColor);
        }
        assert forall|i: int| 1 <= i < 7 implies (#[trigger] hex_value(s@[i])) is Some by {
            assert(hex_value(s@[(i - 1) + 1]) == Some(digits@[i - 1] as int));
        }
        assert(hex_value(s@[0int + 1]) == Some(digits@[0] as int));
        assert(hex_value(s@[1int + 1]) == Some(digits@[1] as int));
        assert(hex_value(s@[2int + 1]) == Some(digits@[2] as int));
        assert(hex_value(s@[3int + 1]) == Some(digits@[3] as int));
        assert(hex_value(s@[4int + 1]) == Some(digits@[4] as int));
        assert(hex_value(s@[5int + 1]) == Some(digits@[5] as int));
        Ok(
            TargetColor {
                r: digits[0] * 16 + digits[1],
                g: digits[2] * 16 + digits[3],
                b: digits[4] * 16 + digits[5],
            },
        )
    }

    /// Red, green and blue, in this order.
    pub fn to_array(&self) -> (rgb: [u8; 3])
        ensures
            rgb[0] == self.r,
            rgb[1] == self.g,
            rgb[2] == self.b,
    {
        [self.r, self.g, self.b]
    }

    /// Writes the colour as `#RRGGBB`, in upper case.
    pub fn to_text(&self) -> (text: String)
        ensures
            text@ == self.text(),
    {
        proof {
            reveal_strlit("#");
        }
        let mut text = String::from_str("#");
        text.append(hex_str(self.r / 16));
        text.append(hex_str(self.r % 16));
        text.append(hex_str(self.g / 16));
        text.append(hex_str(self.g % 16));
        text.append(hex_str(self.b / 16));
        text.append(hex_str(self.b % 16));
        assert(text@ =~= self.text());
        text
    }
}

/// The text of one upper-case hexadecimal digit.
fn hex_str(d: u8) -> (text: &'static str)
    requires
        d < 16,
    ensures
        text@ == seq![hex_char(d as int)],
{
    proof {
        reveal_strlit("0");
        reveal_strlit("1");
        reveal_strlit("2");
        reveal_strlit("3");
        reveal_strlit("4");
        reveal_strlit("5");
        reveal_strlit("6");
        reveal_strlit("7");
        reveal_strlit("8");
        reveal_strlit("9");
        reveal_strlit("A");
        reveal_strlit("B");
        reveal_strlit("C");
        reveal_strlit("D");
        reveal_strlit("E");
        reveal_strlit("F");
    }
    let text = match d {
        0 => "0",
        1 => "1",
        2 => "2",
        3 => "3",
        4 => "4",
        5 => "5",
        6 => "6",
        7 => "7",
        8 => "8",
        9 => "9",
        10 => "A",
        11 => "B",
        12 => "C",
        13 => "D",
        14 => "E",
        _ => "F",
    };
    assert(text@ =~= seq![hex_char(d as int)]);
    text
}

/// Reading the text of a colour gives the colour back.
pub proof fn lemma_written_colour_reads_back(color: TargetColor)
    ensures
        TargetColor::of_text(color.text()) == Some(color),
{
    let text = color.text();
    assert forall|i: int| 1 <= i < 7 implies (#[trigger] hex_value(text[i])) is Some by {}
    assert(hex_value(text[1]) == Some(color.r as int / 16));
    assert(hex_value(text[2]) == Some(color.r as int % 16));
    assert(hex_value(text[3]) == Some(color.g as int / 16));
    assert(hex_value(text[4]) == Some(color.g as int % 16));
    assert(hex_value(text[5]) == Some(color.b as int / 16));
    assert(hex_value(text[6]) == Some(color.b as int % 16));
}

/// The widest hue range that can be set, in degrees.
pub const MAX_HUE_RANGE: u16 = 360;

/// The widest saturation range that can be set, in percent.
pub const MAX_SATURATION_RANGE: u8 = 100;

/// The chroma key settings as the user enters them.
#[derive(Clone, Copy, Debug, PartialEq, Eq, Structural)]
pub struct ChromaKeySettings {
    /// Whether keying is switched on.
    pub enabled: bool,
    /// The key colour.
    pub target_color: TargetColor,
    /// Total width of the window of accepted hues, in degrees, 0 to 360.
    pub hue_range: u16,
    /// How far below full saturation an accepted colour may lie, in percent,
    /// 0 to 100.
    pub saturation_range: u8,
}

impl ChromaKeySettings {
    /// Whether the two ranges lie within their bounds.
    pub open spec fn wf(self) -> bool {
        self.hue_range <= MAX_HUE_RANGE && self.saturation_range <= MAX_SATURATION_RANGE
    }

    /// The hue range that a text stands for: a number from 0 to 360.
    pub open spec fn hue_range_of(text: Seq<char>) -> Option<int> {
        within(unsigned_value(text), 0, MAX_HUE_RANGE as int)
    }

    /// The saturation range that a text stands for: a number from 0 to 100.
    pub open spec fn saturation_range_of(text: Seq<char>) -> Option<int> {
        within(unsigned_value(text), 0, MAX_SATURATION_RANGE as int)
    }

    /// The settings that the user entered in the dialog: whether keying is
    /// switched on, and the texts of the key colour, the hue range and the
    /// saturation range.
    ///
    /// Refused are, in this order: a key colour that is not of the form
    /// `#RRGGBB`, a hue range that is no number from 0 to 360, and a
    /// saturation range that is no number from 0 to 100.
    pub fn from_dialog(enabled: bool, color: &str, hue_range: &str, saturation_range: &str) -> (result:
        Result<ChromaKeySettings, ConfigError>)
        ensures
            result is Ok <==> TargetColor::of_text(color@) is Some
                && ChromaKeySettings::hue_range_of(hue_range@) is Some
                && ChromaKeySettings::saturation_range_of(saturation_range@) is Some,
            result matches Ok(settings) ==> {
                &&& settings.wf()
                &&& settings.enabled == enabled
                &&& Some(settings.target_color) == TargetColor::of_text(color@)
                &&& Some(settings.hue_range as int) == ChromaKeySettings::hue_range_of(hue_range@)
                &&& Some(settings.saturation_range as int)
                    == ChromaKeySettings::saturation_range_of(saturation_range@)
            },
            result matches Err(e) ==> e == (if TargetColor::of_text(color@) is None {
                ConfigError::KeyColor
            } else if ChromaKeySettings::hue_range_of(hue_range@) is None {
                ConfigError::HueRange
            } else {
                ConfigError::SaturationRange
            }),
    {
        let target_color = match TargetColor::parse(color) {
            Ok(c) => c,
            Err(e) => {
                return Err(e);
            },
        };
        let hue_range = match parse_u16(hue_range) {
            Some(v) => v,
            None => {
                return Err(ConfigError::HueRange);
            },
        };
        if hue_range > MAX_HUE_RANGE {
            return Err(ConfigError::HueRange);
        }
        let saturation_range = match parse_u8(saturation_range) {
            Some(v) => v,
            None => {
                return Err(ConfigError::SaturationRange);
            },
        };
        if saturation_range > MAX_SATURATION_RANGE {
            return Err(ConfigError::SaturationRange);
        }
        Ok(ChromaKeySettings { enabled, target_color, hue_range, saturation_range })
    }

    /// The key for the compositor: the key colour with its hue, as measured
    /// by the caller, and the two ranges as tolerances. Refused where a
    /// range is out of bounds or the hue is a full turn or more.
    pub fn key_color(&self, key_hue: u32) -> (result: Result<KeyColor, PipelineError>)
        ensures
            result is Ok <==> self.wf() && key_hue < FULL_TURN,
            result matches Ok(key) ==> {
                &&& key.wf()
                &&& key.rgb[0] == self.target_color.r
                &&& key.rgb[1] == self.target_color.g
                &&& key.rgb[2] == self.target_color.b
                &&& key.hue == key_hue
                &&& key.hue_tolerance == self.hue_range * DEGREE
                &&& key.saturation_tolerance == self.saturation_range * PERCENT
            },
            result matches Err(e) ==> e == PipelineError::InvalidConfiguration,
    {
        KeyColor::new(
            self.target_color.to_array(),
            key_hue,
            self.hue_range as u32,
            self.saturation_range as u32,
        )
    }
}

} // verus!
