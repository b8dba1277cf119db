//! Settings, frame timing and frames of the WebP output plugin.

use crate::config::{
    as_text, at_most, clamped, read_i32, read_u8, signed_or, stored, stored_text, unsigned_or,
    ColorFormat, ConfigError, SECTION,
};
use crate::ini_file::{ini_document, ini_get, ini_new, ini_parse, ini_set, ini_values, IniValues};
use crate::text::{
    bool_text, bool_value, decimal_text, format_bool, format_signed, format_unsigned,
    lemma_written_bool_reads_back, lemma_written_number_reads_back, parse_bool, parse_i32,
    signed_text, signed_value, within,
};
use ini::Ini;
use vstd::prelude::*;

verus! {

/// The best quality that can be asked for.
pub const MAX_QUALITY: u8 = 100;

/// The most thorough compression method.
pub const MAX_METHOD: u8 = 6;

/// The settings of the WebP output plugin.
#[derive(Clone, Copy, Debug, PartialEq, Eq, Structural)]
pub struct Config {
    /// How often the animation plays; 0 for without end.
    pub repeat: i32,
    /// Whether frames are fetched with an alpha channel.
    pub color_format: ColorFormat,
    /// Whether frames are compressed without loss.
    pub lossless: bool,
    /// Quality, a whole number from 0 to 100.
    pub quality: u8,
    /// Compression method, from 0 (fastest) to 6.
    pub method: u8,
}

impl Config {
    /// Whether quality and method lie in their ranges.
    pub open spec fn wf(self) -> bool {
        self.quality <= MAX_QUALITY && self.method <= MAX_METHOD
    }

    /// The settings of a fresh installation.
    pub open spec fn initial() -> Config {
        Config {
            repeat: 0,
            color_format: ColorFormat::Rgb24,
            lossless: false,
            quality: 75,
            method: 4,
        }
    }

    /// The settings that stored texts stand for. A text that is missing or
    /// does not stand for a value of its setting gives the setting of a
    /// fresh installation. Quality and method outside their ranges are
    /// brought to the nearest end of the range.
    pub open spec fn of_values(
        repeat: Option<Seq<char>>,
        color_format: Option<Seq<char>>,
        lossless: Option<Seq<char>>,
        quality: Option<Seq<char>>,
        method: Option<Seq<char>>,
    ) -> Config {
        Config {
            repeat: signed_or(repeat, 0) as i32,
            color_format: match color_format {
                Some(text) => match ColorFormat::of_text(text) {
                    Some(choice) => choice,
                    None => ColorFormat::Rgb24,
                },
                None => ColorFormat::Rgb24,
            },
            lossless: match lossless {
                Some(text) => match bool_value(text) {
                    Some(flag) => flag,
                    None => false,
                },
                None => false,
            },
            quality: clamped(signed_or(quality, 75), 0, MAX_QUALITY as int) as u8,
            method: at_most(unsigned_or(method, u8::MAX as int, 4), MAX_METHOD as int) as u8,
        }
    }

    /// The settings that a document stands for.
    pub open spec fn of_document(values: IniValues) -> Config {
        Config::of_values(
            stored(values, "repeat"@),
            stored(values, "color_format"@),
            stored(values, "lossless"@),
            stored(values, "quality"@),
            stored(values, "method"@),
        )
    }

    /// The document that holds these settings.
    pub open spec fn document(self) -> IniValues {
        IniValues::empty().insert((SECTION@, "repeat"@), signed_text(self.repeat as int)).insert(
            (SECTION@, "color_format"@),
            decimal_text(self.color_format.index() as nat),
        ).insert((SECTION@, "lossless"@), bool_text(self.lossless)).insert(
            (SECTION@, "quality"@),
            decimal_text(self.quality as nat),
        ).insert((SECTION@, "method"@), decimal_text(self.method as nat))
    }

    /// The settings of a fresh installation.
    pub fn default() -> (config: Config)
        ensures
            config == Config::initial(),
            config.wf(),
    {
        Config {
            repeat: 0,
            color_format: ColorFormat::Rgb24,
            lossless: false,
            quality: 75,
            method: 4,
        }
    }

    /// Reads the settings from the texts stored under their keys.
    pub fn from_values(
        repeat: Option<&str>,
        color_format: Option<&str>,
        lossless: Option<&str>,
        quality: Option<&str>,
        method: Option<&str>,
    ) -> (config: Config)
        ensures
            config == Config::of_values(
                stored_text(repeat),
                stored_text(color_format),
                stored_text(lossless),
                stored_text(quality),
                stored_text(method),
            ),
            config.wf(),
    {
        let color_format = match color_format {
            Some(s) => match ColorFormat::from_str(s) {
                Ok(choice) => choice,
                Err(_) => ColorFormat::Rgb24,
            },
            None => ColorFormat::Rgb24,
        };
        let lossless = match lossless {
            Some(s) => match parse_bool(s) {
                Some(flag) => flag,
                None => false,
            },
            None => false,
        };
        let method = read_u8(method, 4);
        Config {
            repeat: read_i32(repeat, 0),
            color_format,
            lossless,
            quality: quality_in_range(read_i32(quality, 75)),
            method: if method > MAX_METHOD {
                MAX_METHOD
            } else {
                method
            },
        }
    }

    /// Reads the settings from a document.
    pub fn from_ini(doc: &Ini) -> (config: Config)
        ensures
            config == Config::of_document(ini_values(*doc)),
            config.wf(),
    {
        let repeat = ini_get(doc, SECTION, "repeat");
        let color_format = ini_get(doc, SECTION, "color_format");
        let lossless = ini_get(doc, SECTION, "lossless");
        let quality = ini_get(doc, SECTION, "quality");
        let method = ini_get(doc, SECTION, "method");
        Config::from_values(
            as_text(&repeat),
            as_text(&color_format),
            as_text(&lossless),
            as_text(&quality),
            as_text(&method),
        )
    }

    /// Reads the settings from the text of a settings file. A text that is
    /// no settings file gives the settings of a fresh installation.
    pub fn load(text: &str) -> (config: Config)
        ensures
            config == (match ini_document(text@) {
                Some(values) => Config::of_document(values),
                None => Config::initial(),
            }),
            config.wf(),
    {
        match ini_parse(text) {
            Ok(doc) => Config::from_ini(&doc),
            Err(_) => Config::default(),
        }
    }

    /// Writes the settings into a document.
    pub fn save(&self) -> (doc: Ini)
        ensures
            ini_values(doc) == self.document(),
    {
        let mut doc = ini_new();
        ini_set(&mut doc, SECTION, "repeat", format_signed(self.repeat as i64).as_str());
        ini_set(
            &mut doc,
            SECTION,
            "color_format",
            format_unsigned(self.color_format.to_index() as u64).as_str(),
        );
        ini_set(&mut doc, SECTION, "lossless", format_bool(self.lossless).as_str());
        ini_set(&mut doc, SECTION, "quality", format_unsigned(self.quality as u64).as_str());
        ini_set(&mut doc, SECTION, "method", format_unsigned(self.method as u64).as_str());
        doc
    }

    /// The settings that the user entered in the dialog: the text of the
    /// repeat count, the entry selected in the list of colour formats,
    /// whether compression is without loss, and the texts of quality and
    /// method.
    ///
    /// A repeat count that is no number is refused. Without loss, quality is
    /// 100 and method 6 whatever was entered. Otherwise a quality that is no
    /// number counts as 75 and a method that is no number as 4; the quality
    /// is brought into its range, and of the method the low eight bits are
    /// kept and then brought into its range.
    pub fn from_dialog(repeat: &str, color_format: i32, lossless: bool, quality: &str, method: &str) -> (result:
        Result<Config, ConfigError>)
        ensures
            result is Ok <==> within(signed_value(repeat@), i32::MIN as int, i32::MAX as int)
                is Some,
            result matches Ok(config) ==> {
                &&& Some(config.repeat as int) == within(
                    signed_value(repeat@),
                    i32::MIN as int,
                    i32::MAX as int,
                )
                &&& config.color_format == (match ColorFormat::of_index(color_format as int) {
                    Some(c) => c,
                    None => ColorFormat::Rgb24,
                })
                &&& config.lossless == lossless
                &&& config.quality == (if lossless {
                    100
                } else {
                    clamped(signed_or(Some(quality@), 75), 0, 100)
                })
                &&& config.method == (if lossless {
                    6
                } else {
                    at_most(signed_or(Some(method@), 4) % 256, 6)
                })
                &&& config.wf()
            },
            result matches Err(e) ==> e == ConfigError::Repeat,
    {
        let repeat = match parse_i32(repeat) {
            Some(v) => v,
            None => {
                return Err(ConfigError::Repeat);
            },
        };
        let quality: u8 = if lossless {
            100
        } else {
            quality_in_range(read_i32(Some(quality), 75))
        };
        let method: u8 = if lossless {
            6
        } else {
            let entered: i32 = read_i32(Some(method), 4);
            let lifted: i64 = entered as i64 + 0x1_0000_0000;
            let kept: i64 = lifted % 256;
            assert(kept == (entered as int) % 256);
            if kept > 6 {
                6
            } else {
                kept as u8
            }
        };
        Ok(
            Config {
                repeat,
                color_format: ColorFormat::from_selection(color_format),
                lossless,
                quality,
                method,
            },
        )
    }
}

/// A quality brought into its range.
pub fn quality_in_range(quality: i32) -> (q: u8)
    ensures
        q == clamped(quality as int, 0, MAX_QUALITY as int),
{
    if quality < 0 {
        0
    } else if quality > 100 {
        100
    } else {
        quality as u8
    }
}

/// Settings in range that were written into a document are read back from
/// it unchanged.
pub proof fn lemma_saved_settings_load_back(config: Config)
    requires
        config.wf(),
    ensures
        Config::of_document(config.document()) == config,
{
    reveal_strlit("repeat");
    reveal_strlit("color_format");
    reveal_strlit("lossless");
    reveal_strlit("quality");
    reveal_strlit("method");
    let values = config.document();
    assert("repeat"@.len() == 6);
    assert("color_format"@.len() == 12);
    assert("lossless"@.len() == 8);
    assert("quality"@.len() == 7);
    assert("method"@.len() == 6);
    assert("repeat"@[0] == 'r');
    assert("method"@[0] == 'm');
    assert("repeat"@ != "method"@);
    lemma_written_number_reads_back(config.repeat as int);
    lemma_written_number_reads_back(config.color_format.index());
    lemma_written_bool_reads_back(config.lossless);
    lemma_written_number_reads_back(config.quality as int);
    lemma_written_number_reads_back(config.method as int);
    assert(stored(values, "repeat"@) == Some(signed_text(config.repeat as int)));
    assert(stored(values, "color_format"@) == Some(
        decimal_text(config.color_format.index() as nat),
    ));
    assert(stored(values, "lossless"@) == Some(bool_text(config.lossless)));
    assert(stored(values, "quality"@) == Some(decimal_text(config.quality as nat)));
    assert(stored(values, "method"@) == Some(decimal_text(config.method as nat)));
    crate::text::lemma_decimal_text_value(config.quality as nat);
    assert(signed_value(decimal_text(config.quality as nat)) == Some(config.quality as int)) by {
        let text = decimal_text(config.quality as nat);
        assert(crate::text::is_digit(text[0]));
    }
}

/// The time for which one frame of a WebP animation is shown, in
/// milliseconds, for a frame rate of `rate / scale` frames per second:
/// `1000 * scale / rate` with the fraction dropped, but at least 1 and at
/// most the largest 32-bit number.
///
/// A quotient that is zero or negative gives 1. A rate of zero gives the
/// largest 32-bit number for a positive scale and 1 otherwise.
pub open spec fn frame_duration(scale: int, rate: int) -> int {
    if rate == 0 {
        if scale > 0 {
            i32::MAX as int
        } else {
            1
        }
    } else if scale == 0 || (scale > 0) != (rate > 0) {
        1
    } else {
        let n = 1000 * (if scale < 0 {
            -scale
        } else {
            scale
        });
        let d = if rate < 0 {
            -rate
        } else {
            rate
        };
        clamped(n / d, 1, i32::MAX as int)
    }
}

/// Computes the time for which one frame of a WebP animation is shown.
pub fn frame_duration_ms(scale: i32, rate: i32) -> (duration: i32)
    ensures
        duration == frame_duration(scale as int, rate as int),
        duration >= 1,
{
    if rate == 0 {
        return if scale > 0 {
            i32::MAX
        } else {
            1
        };
    }
    if scale == 0 || (scale > 0) != (rate > 0) {
        return 1;
    }
    let s: i64 = scale as i64;
    let r: i64 = rate as i64;
    let n: i64 = 1000 * (if s < 0 {
        -s
    } else {
        s
    });
    let d: i64 = if r < 0 {
        -r
    } else {
        r
    };
    let q: i64 = n / d;
    if q < 1 {
        1
    } else if q > 0x7fff_ffff {
        i32::MAX
    } else {
        q as i32
    }
}

/// The time at which the frame with the given index is shown, in
/// milliseconds: every frame before it, written or skipped, takes
/// `duration` milliseconds. Times that do not fit 32 bits are held at the
/// nearest number that does.
pub open spec fn timestamp(frame: int, duration: int) -> int {
    clamped(frame * duration, i32::MIN as int, i32::MAX as int)
}

/// Computes the time at which the frame with the given index is shown.
pub fn frame_timestamp(frame: u32, duration: i32) -> (time: i32)
    ensures
        time == timestamp(frame as int, duration as int),
{
    assert(-0x8000_0000 * 0xffff_ffff <= (frame as i64) * (duration as i64) <= 0x7fff_ffff
        * 0xffff_ffff) by (nonlinear_arith)
        requires
            0 <= frame <= 0xffff_ffff,
            -0x8000_0000 <= duration <= 0x7fff_ffff,
    ;
    let time: i64 = (frame as i64) * (duration as i64);
    if time > 0x7fff_ffff {
        i32::MAX
    } else if time < -0x8000_0000 {
        i32::MIN
    } else {
        time as i32
    }
}

/// The order of the colour channels of a frame.
#[derive(Clone, Copy, Debug, PartialEq, Eq, Structural)]
pub enum PixelLayout {
    /// Red, green, blue.
    Rgb,
    /// Red, green, blue, alpha.
    Rgba,
}

impl PixelLayout {
    /// The number of bytes of one pixel.
    pub open spec fn spec_bytes_per_pixel(self) -> int {
        match self {
            PixelLayout::Rgb => 3,
            PixelLayout::Rgba => 4,
        }
    }

    /// Whether pixels carry an alpha channel.
    pub fn is_alpha(self) -> (alpha: bool)
        ensures
            alpha == (self == PixelLayout::Rgba),
    {
        match self {
            PixelLayout::Rgb => false,
            PixelLayout::Rgba => true,
        }
    }

    /// The number of bytes of one pixel.
    pub fn bytes_per_pixel(self) -> (count: usize)
        ensures
            count == self.spec_bytes_per_pixel(),
    {
        match self {
            PixelLayout::Rgb => 3,
            PixelLayout::Rgba => 4,
        }
    }
}

/// One frame of an animation: a canonical image and the time at which it is
/// shown.
pub struct AnimFrame {
    image: Vec<u8>,
    layout: PixelLayout,
    width: u32,
    height: u32,
    timestamp: i32,
}

/// The mathematical model of a frame.
pub struct AnimFrameModel {
    /// The bytes of the image.
    pub image: Seq<u8>,
    /// The order of the colour channels.
    pub layout: PixelLayout,
    /// Width in pixels.
    pub width: u32,
    /// Height in pixels.
    pub height: u32,
    /// The time at which the frame is shown, in milliseconds.
    pub timestamp: i32,
}

impl AnimFrameModel {
    /// The number of bytes of one row of the image.
    pub open spec fn stride(self) -> int {
        self.width * self.layout.spec_bytes_per_pixel()
    }

    /// Whether the image holds every pixel that the dimensions call for, so
    /// that an encoder that reads `height` rows of `stride` bytes stays
    /// inside it.
    pub open spec fn is_complete(self) -> bool {
        self.stride() * self.height <= self.image.len()
    }
}

impl View for AnimFrame {
    type V = AnimFrameModel;

    closed spec fn view(&self) -> AnimFrameModel {
        AnimFrameModel {
            image: self.image@,
            layout: self.layout,
            width: self.width,
            height: self.height,
            timestamp: self.timestamp,
        }
    }
}

/// A copy of a sequence of bytes.
fn copy_bytes(bytes: &[u8]) -> (copy: Vec<u8>)
    ensures
        copy@ == bytes@,
{
    let mut copy: Vec<u8> = Vec::new();
    let mut i: usize = 0;
    while i < bytes.len()
        invariant
            i <= bytes@.len(),
            copy@ == bytes@.take(i as int),
        decreases bytes@.len() - i,
    {
        copy.push(bytes[i]);
        assert(bytes@.take(i + 1) =~= bytes@.take(i as int).push(bytes@[i as int]));
        i = i + 1;
    }
    assert(bytes@.take(i as int) =~= bytes@);
    copy
}

impl AnimFrame {
    /// A frame that holds a copy of `image`.
    pub fn new(image: &[u8], layout: PixelLayout, width: u32, height: u32, timestamp: i32) -> (frame:
        AnimFrame)
        ensures
            frame@ == (AnimFrameModel { image: image@, layout, width, height, timestamp }),
    {
        AnimFrame { image: copy_bytes(image), layout, width, height, timestamp }
    }

    /// A frame of red, green and blue.
    pub fn from_rgb(image: &[u8], width: u32, height: u32, timestamp: i32) -> (frame: AnimFrame)
        ensures
            frame@ == (AnimFrameModel {
                image: image@,
                layout: PixelLayout::Rgb,
                width,
                height,
                timestamp,
            }),
    {
        AnimFrame::new(image, PixelLayout::Rgb, width, height, timestamp)
    }

    /// A frame of red, green, blue and alpha.
    pub fn from_rgba(image: &[u8], width: u32, height: u32, timestamp: i32) -> (frame: AnimFrame)
        ensures
            frame@ == (AnimFrameModel {
                image: image@,
                layout: PixelLayout::Rgba,
                width,
                height,
                timestamp,
            }),
    {
        AnimFrame::new(image, PixelLayout::Rgba, width, height, timestamp)
    }

    /// The bytes of the image.
    pub fn get_image(&self) -> (image: &[u8])
        ensures
            image@ == self@.image,
    {
        self.image.as_slice()
    }

    /// The order of the colour channels.
    pub fn get_layout(&self) -> (layout: PixelLayout)
        ensures
            layout == self@.layout,
    {
        self.layout
    }

    /// The time at which the frame is shown, in milliseconds.
    pub fn get_time_ms(&self) -> (timestamp: i32)
        ensures
            timestamp == self@.timestamp,
    {
        self.timestamp
    }

    /// Width in pixels.
    pub fn width(&self) -> (width: u32)
        ensures
            width == self@.width,
    {
        self.width
    }

    /// Height in pixels.
    pub fn height(&self) -> (height: u32)
        ensures
            height == self@.height,
    {
        self.height
    }

    /// The number of bytes of one row of the image.
    pub fn stride(&self) -> (stride: u64)
        ensures
            stride == self@.stride(),
    {
        let per_pixel: u64 = match self.layout {
            PixelLayout::Rgb => 3,
            PixelLayout::Rgba => 4,
        };
        (self.width as u64) * per_pixel
    }

    /// Whether the image holds every pixel that the dimensions call for.
    pub fn is_complete(&self) -> (complete: bool)
        ensures
            complete == self@.is_complete(),
    {
        let stride: u128 = self.stride() as u128;
        assert(stride * (self.height as u128) <= 0x4_0000_0000_0000_0000) by (nonlinear_arith)
            requires
                stride <= 0x4_0000_0000,
                self.height <= 0xffff_ffff,
        ;
        stride * (self.height as u128) <= self.image.len() as u128
    }
}

/// A background colour as the WebP container stores it: alpha in the top
/// byte, then blue, green and red.
pub open spec fn packed_bgcolor(rgba: [u8; 4]) -> int {
    rgba[3] * 0x100_0000 + rgba[2] * 0x1_0000 + rgba[1] * 0x100 + rgba[0]
}

/// Packs a background colour, given as red, green, blue, alpha, the way the
/// WebP container stores it.
pub fn pack_bgcolor(rgba: [u8; 4]) -> (packed: u32)
    ensures
        packed == packed_bgcolor(rgba),
{
    (rgba[3] as u32) * 0x100_0000 + (rgba[2] as u32) * 0x1_0000 + (rgba[1] as u32) * 0x100
        + (rgba[0] as u32)
}

} // verus!
