//! Settings and frame timing of the GIF output plugin.

use crate::config::{
    as_text, clamped, read_i32, read_u16, signed_or, stored, stored_text, unsigned_or,
    ColorFormat, ConfigError, SECTION,
};
use crate::ini_file::{ini_document, ini_get, ini_new, ini_parse, ini_set, ini_values, IniValues};
use crate::text::{
    decimal_text, format_signed, format_unsigned, lemma_written_number_reads_back, parse_i32,
    parse_u16, signed_text, signed_value, unsigned_value, within,
};
use ini::Ini;
use vstd::prelude::*;

verus! {

/// The settings of the GIF output plugin.
#[derive(Clone, Copy, Debug, PartialEq, Eq, Structural)]
pub struct Config {
    /// How often the animation plays; 0 for without end.
    pub repeat: u16,
    /// Whether frames are fetched with an alpha channel.
    pub color_format: ColorFormat,
    /// How fast the palette of a frame is chosen, from 1 (best) to 30
    /// (fastest).
    pub speed: i32,
}

impl Config {
    /// The settings of a fresh installation.
    pub open spec fn initial() -> Config {
        Config { repeat: 0, color_format: ColorFormat::Rgb24, speed: 10 }
    }

    /// The settings that stored texts stand for. A text that is missing or
    /// does not stand for a value of its setting gives the setting of a
    /// fresh installation.
    pub open spec fn of_values(
        repeat: Option<Seq<char>>,
        color_format: Option<Seq<char>>,
        speed: Option<Seq<char>>,
    ) -> Config {
        Config {
            repeat: unsigned_or(repeat, u16::MAX as int, 0) as u16,
            color_format: match color_format {
                Some(text) => match ColorFormat::of_text(text) {
                    Some(choice) => choice,
                    None => ColorFormat::Rgb24,
                },
                None => ColorFormat::Rgb24,
            },
            speed: signed_or(speed, 10) as i32,
        }
    }

    /// The settings that a document stands for.
    pub open spec fn of_document(values: IniValues) -> Config {
        Config::of_values(
            stored(values, "repeat"@),
            stored(values, "color_format"@),
            stored(values, "speed"@),
        )
    }

    /// The document that holds these settings.
    pub open spec fn document(self) -> IniValues {
        IniValues::empty().insert((SECTION@, "repeat"@), decimal_text(self.repeat as nat)).insert(
            (SECTION@, "color_format"@),
            decimal_text(self.color_format.index() as nat),
        ).insert((SECTION@, "speed"@), signed_text(self.speed as int))
    }

    /// The settings of a fresh installation.
    pub fn default() -> (config: Config)
        ensures
            config == Config::initial(),
    {
        Config { repeat: 0, color_format: ColorFormat::Rgb24, speed: 10 }
    }

    /// Reads the settings from the texts stored under their keys.
    pub fn from_values(repeat: Option<&str>, color_format: Option<&str>, speed: Option<&str>) -> (config:
        Config)
        ensures
            config == Config::of_values(
                stored_text(repeat),
                stored_text(color_format),
                stored_text(speed),
            ),
    {
        let color_format = match color_format {
            Some(s) => match ColorFormat::from_str(s) {
                Ok(choice) => choice,
                Err(_) => ColorFormat::Rgb24,
            },
            None => ColorFormat::Rgb24,
        };
        Config { repeat: read_u16(repeat, 0), color_format, speed: read_i32(speed, 10) }
    }

    /// Reads the settings from a document.
    pub fn from_ini(doc: &Ini) -> (config: Config)
        ensures
            config == Config::of_document(ini_values(*doc)),
    {
        let repeat = ini_get(doc, SECTION, "repeat");
        let color_format = ini_get(doc, SECTION, "color_format");
        let speed = ini_get(doc, SECTION, "speed");
        Config::from_values(as_text(&repeat), as_text(&color_format), as_text(&speed))
    }

    /// Reads the settings from the text of a settings file. A text that is
    /// no settings file gives the settings of a fresh installation.
    pub fn load(text: &str) -> (config: Config)
        ensures
            config == (match ini_document(text@) {
                Some(values) => Config::of_document(values),
                None => Config::initial(),
            }),
    {
        match ini_parse(text) {
            Ok(doc) => Config::from_ini(&doc),
            Err(_) => Config::default(),
        }
    }

    /// Writes the settings into a document.
    pub fn save(&self) -> (doc: Ini)
        ensures
            ini_values(doc) == self.document(),
    {
        let mut doc = ini_new();
        ini_set(&mut doc, SECTION, "repeat", format_unsigned(self.repeat as u64).as_str());
        ini_set(
            &mut doc,
            SECTION,
            "color_format",
            format_unsigned(self.color_format.to_index() as u64).as_str(),
        );
        ini_set(&mut doc, SECTION, "speed", format_signed(self.speed as i64).as_str());
        doc
    }

    /// The settings that the user entered in the dialog: the texts of the
    /// repeat count and of the speed, and the entry selected in the list of
    /// colour formats. A repeat count or a speed that is no number is
    /// refused, the repeat count first.
    pub fn from_dialog(repeat: &str, speed: &str, color_format: i32) -> (result: Result<
        Config,
        ConfigError,
    >)
        ensures
            result is Ok <==> within(unsigned_value(repeat@), 0, u16::MAX as int) is Some && within(
                signed_value(speed@),
                i32::MIN as int,
                i32::MAX as int,
            ) is Some,
            result matches Ok(config) ==> {
                &&& Some(config.repeat as int) == within(unsigned_value(repeat@), 0, u16::MAX as int)
                &&& Some(config.speed as int) == within(
                    signed_value(speed@),
                    i32::MIN as int,
                    i32::MAX as int,
                )
                &&& config.color_format == (match ColorFormat::of_index(color_format as int) {
                    Some(c) => c,
                    None => ColorFormat::Rgb24,
                })
            },
            result matches Err(e) ==> e == (if within(unsigned_value(repeat@), 0, u16::MAX as int)
                is None {
                ConfigError::Repeat
            } else {
                ConfigError::Speed
            }),
    {
        let repeat = match parse_u16(repeat) {
            Some(v) => v,
            None => {
                return Err(ConfigError::Repeat);
            },
        };
        let speed = match parse_i32(speed) {
            Some(v) => v,
            None => {
                return Err(ConfigError::Speed);
            },
        };
        Ok(Config { repeat, color_format: ColorFormat::from_selection(color_format), speed })
    }
}

/// Settings that were written into a document are read back from it
/// unchanged.
pub proof fn lemma_saved_settings_load_back(config: Config)
    ensures
        Config::of_document(config.document()) == config,
{
    reveal_strlit("repeat");
    reveal_strlit("color_format");
    reveal_strlit("speed");
    let values = config.document();
    assert("repeat"@.len() == 6);
    assert("color_format"@.len() == 12);
    assert("speed"@.len() == 5);
    lemma_written_number_reads_back(config.repeat as int);
    lemma_written_number_reads_back(config.color_format.index());
    lemma_written_number_reads_back(config.speed as int);
    assert(stored(values, "repeat"@) == Some(decimal_text(config.repeat as nat)));
    assert(stored(values, "color_format"@) == Some(
        decimal_text(config.color_format.index() as nat),
    ));
    assert(stored(values, "speed"@) == Some(signed_text(config.speed as int)));
}

/// The size of the frames of a GIF, which holds width and height in sixteen
/// bits each: the declared size where it fits, else nothing.
pub fn frame_size(width: i32, height: i32) -> (size: Option<(u16, u16)>)
    ensures
        size matches Some((w, h)) ==> w == width && h == height,
        size is None ==> !(0 <= width <= u16::MAX && 0 <= height <= u16::MAX),
{
    if 0 <= width && width <= 0xffff && 0 <= height && height <= 0xffff {
        Some((width as u16, height as u16))
    } else {
        None
    }
}

/// The time for which one frame of a GIF is shown, in hundredths of a
/// second, for a frame rate of `rate / scale` frames per second:
/// `100 * scale / rate` rounded to the nearest whole number, a half rounding
/// up, but at least 1 and at most 65535.
///
/// A quotient that is zero or negative gives 1. A rate of zero gives 65535
/// for a positive scale and 1 otherwise.
pub open spec fn frame_delay(scale: int, rate: int) -> int {
    if rate == 0 {
        if scale > 0 {
            65535
        } else {
            1
        }
    } else if scale == 0 || (scale > 0) != (rate > 0) {
        1
    } else {
        let n = 100 * (if scale < 0 {
            -scale
        } else {
            scale
        });
        let d = if rate < 0 {
            -rate
        } else {
            rate
        };
        clamped((2 * n + d) / (2 * d), 1, 65535)
    }
}

/// Computes the time for which one frame of a GIF is shown.
pub fn gif_frame_delay(scale: i32, rate: i32) -> (delay: u16)
    ensures
        delay == frame_delay(scale as int, rate as int),
        delay >= 1,
{
    if rate == 0 {
        return if scale > 0 {
            65535
        } else {
            1
        };
    }
    if scale == 0 || (scale > 0) != (rate > 0) {
        return 1;
    }
    let s: i64 = scale as i64;
    let r: i64 = rate as i64;
    let n: i64 = 100 * (if s < 0 {
        -s
    } else {
        s
    });
    let d: i64 = if r < 0 {
        -r
    } else {
        r
    };
    let q: i64 = (2 * n + d) / (2 * d);
    if q < 1 {
        1
    } else if q > 65535 {
        65535
    } else {
        q as u16
    }
}

} // verus!
