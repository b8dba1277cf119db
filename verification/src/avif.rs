//! Settings of the AVIF output plugin.

use crate::config::{
    as_text, at_most, read_u8, stored, stored_text, unsigned_or, ColorFormat, ConfigError,
    YuvFormat, SECTION,
};
use crate::ini_file::{ini_document, ini_get, ini_new, ini_parse, ini_set, ini_values, IniValues};
use crate::text::{
    decimal_text, format_unsigned, lemma_written_number_reads_back, parse_u8, parse_unsigned,
    unsigned_value, within,
};
use ini::Ini;
use vstd::prelude::*;

verus! {

/// The best quality that can be asked for.
pub const MAX_QUALITY: u8 = 100;

/// The highest encoder speed.
pub const MAX_SPEED: u8 = 10;

/// The settings of the AVIF output plugin.
#[derive(Clone, Copy, Debug, PartialEq, Eq, Structural)]
pub struct Config {
    /// Quality, from 0 to 100.
    pub quality: u8,
    /// Encoder speed, from 0 (slowest) to 10.
    pub speed: u8,
    /// Whether frames are fetched with an alpha channel.
    pub color_format: ColorFormat,
    /// How colour is subsampled.
    pub yuv_format: YuvFormat,
    /// The number of threads the encoder may use.
    pub threads: usize,
}

/// The name of a colour format as this plugin shows it to the user.
pub open spec fn color_format_label_text(format: ColorFormat) -> Seq<char> {
    match format {
        ColorFormat::Rgb24 => "透過無し"@,
        ColorFormat::Rgba32 => "透過付き"@,
    }
}

/// The name of a colour format as this plugin shows it to the user.
pub fn color_format_label(format: ColorFormat) -> (name: &'static str)
    ensures
        name@ == color_format_label_text(format),
{
    match format {
        ColorFormat::Rgb24 => "透過無し",
        ColorFormat::Rgba32 => "透過付き",
    }
}

impl Config {
    /// Whether quality and speed lie in their ranges.
    pub open spec fn wf(self) -> bool {
        self.quality <= MAX_QUALITY && self.speed <= MAX_SPEED
    }

    /// The settings of a fresh installation on a machine that offers
    /// `threads` threads.
    pub open spec fn initial(threads: usize) -> Config {
        Config {
            quality: 75,
            speed: 10,
            color_format: ColorFormat::Rgb24,
            yuv_format: YuvFormat::Yuv420,
            threads,
        }
    }

    /// The settings that stored texts stand for. A text that is missing or
    /// does not stand for a value of its setting gives the setting of a
    /// fresh installation. Quality and speed above their ranges are lowered
    /// to the top of the range.
    pub open spec fn of_values(
        quality: Option<Seq<char>>,
        speed: Option<Seq<char>>,
        color_format: Option<Seq<char>>,
        yuv_format: Option<Seq<char>>,
        threads: Option<Seq<char>>,
        machine_threads: usize,
    ) -> Config {
        Config {
            quality: at_most(unsigned_or(quality, u8::MAX as int, 75), MAX_QUALITY as int) as u8,
            speed: at_most(unsigned_or(speed, u8::MAX as int, 10), MAX_SPEED as int) as u8,
            color_format: match color_format {
                Some(text) => match ColorFormat::of_text(text) {
                    Some(choice) => choice,
                    None => ColorFormat::Rgb24,
                },
                None => ColorFormat::Rgb24,
            },
            yuv_format: match yuv_format {
                Some(text) => match YuvFormat::of_text(text) {
                    Some(choice) => choice,
                    None => YuvFormat::Yuv420,
                },
                None => YuvFormat::Yuv420,
            },
            threads: unsigned_or(threads, usize::MAX as int, machine_threads as int) as usize,
        }
    }

    /// The settings that a document stands for.
    pub open spec fn of_document(values: IniValues, machine_threads: usize) -> Config {
        Config::of_values(
            stored(values, "quality"@),
            stored(values, "speed"@),
            stored(values, "color_format"@),
            stored(values, "yuv_format"@),
            stored(values, "threads"@),
            machine_threads,
        )
    }

    /// The document that holds these settings.
    pub open spec fn document(self) -> IniValues {
        IniValues::empty().insert((SECTION@, "quality"@), decimal_text(self.quality as nat)).insert(
            (SECTION@, "speed"@),
            decimal_text(self.speed as nat),
        ).insert(
            (SECTION@, "color_format"@),
            decimal_text(self.color_format.index() as nat),
        ).insert((SECTION@, "yuv_format"@), decimal_text(self.yuv_format.index() as nat)).insert(
            (SECTION@, "threads"@),
            decimal_text(self.threads as nat),
        )
    }

    /// The settings of a fresh installation on a machine that offers
    /// `threads` threads.
    pub fn default(threads: usize) -> (config: Config)
        ensures
            config == Config::initial(threads),
            config.wf(),
    {
        Config {
            quality: 75,
            speed: 10,
            color_format: ColorFormat::Rgb24,
            yuv_format: YuvFormat::Yuv420,
            threads,
        }
    }

    /// Reads the settings from the texts stored under their keys.
    pub fn from_values(
        quality: Option<&str>,
        speed: Option<&str>,
        color_format: Option<&str>,
        yuv_format: Option<&str>,
        threads: Option<&str>,
        machine_threads: usize,
    ) -> (config: Config)
        ensures
            config == Config::of_values(
                stored_text(quality),
                stored_text(speed),
                stored_text(color_format),
                stored_text(yuv_format),
                stored_text(threads),
                machine_threads,
            ),
            config.wf(),
    {
        let quality = read_u8(quality, 75);
        let speed = read_u8(speed, 10);
        let color_format = match color_format {
            Some(s) => match ColorFormat::from_str(s) {
                Ok(choice) => choice,
                Err(_) => ColorFormat::Rgb24,
            },
            None => ColorFormat::Rgb24,
        };
        let yuv_format = match yuv_format {
            Some(s) => match YuvFormat::from_str(s) {
                Ok(choice) => choice,
                Err(_) => YuvFormat::Yuv420,
            },
            None => YuvFormat::Yuv420,
        };
        let threads = match threads {
            Some(s) => match parse_unsigned(s, usize::MAX as u64) {
                Some(v) => v as usize,
                None => machine_threads,
            },
            None => machine_threads,
        };
        Config {
            quality: if quality > MAX_QUALITY {
                MAX_QUALITY
            } else {
                quality
            },
            speed: if speed > MAX_SPEED {
                MAX_SPEED
            } else {
                speed
            },
            color_format,
            yuv_format,
            threads,
        }
    }

    /// Reads the settings from a document.
    pub fn from_ini(doc: &Ini, machine_threads: usize) -> (config: Config)
        ensures
            config == Config::of_document(ini_values(*doc), machine_threads),
            config.wf(),
    {
        let quality = ini_get(doc, SECTION, "quality");
        let speed = ini_get(doc, SECTION, "speed");
        let color_format = ini_get(doc, SECTION, "color_format");
        let yuv_format = ini_get(doc, SECTION, "yuv_format");
        let threads = ini_get(doc, SECTION, "threads");
        Config::from_values(
            as_text(&quality),
            as_text(&speed),
            as_text(&color_format),
            as_text(&yuv_format),
            as_text(&threads),
            machine_threads,
        )
    }

    /// Reads the settings from the text of a settings file. A text that is
    /// no settings file gives the settings of a fresh installation.
    pub fn load(text: &str, machine_threads: usize) -> (config: Config)
        ensures
            config == (match ini_document(text@) {
                Some(values) => Config::of_document(values, machine_threads),
                None => Config::initial(machine_threads),
            }),
            config.wf(),
    {
        match ini_parse(text) {
            Ok(doc) => Config::from_ini(&doc, machine_threads),
            Err(_) => Config::default(machine_threads),
        }
    }

    /// Writes the settings into a document.
    pub fn save(&self) -> (doc: Ini)
        ensures
            ini_values(doc) == self.document(),
    {
        let mut doc = ini_new();
        ini_set(&mut doc, SECTION, "quality", format_unsigned(self.quality as u64).as_str());
        ini_set(&mut doc, SECTION, "speed", format_unsigned(self.speed as u64).as_str());
        ini_set(
            &mut doc,
            SECTION,
            "color_format",
            format_unsigned(self.color_format.to_index() as u64).as_str(),
        );
        ini_set(
            &mut doc,
            SECTION,
            "yuv_format",
            format_unsigned(self.yuv_format.to_index() as u64).as_str(),
        );
        ini_set(&mut doc, SECTION, "threads", format_unsigned(self.threads as u64).as_str());
        doc
    }

    /// The settings that the user entered in the dialog: the texts of
    /// quality and speed and the entries selected in the two lists. The
    /// number of threads is not on the dialog; it is the machine's. A
    /// quality or a speed that is no number of eight bits is refused, the
    /// quality first.
    pub fn from_dialog(
        quality: &str,
        speed: &str,
        color_format: i32,
        yuv_format: i32,
        machine_threads: usize,
    ) -> (result: Result<Config, ConfigError>)
        ensures
            result is Ok <==> within(unsigned_value(quality@), 0, u8::MAX as int) is Some && within(
                unsigned_value(speed@),
                0,
                u8::MAX as int,
            ) is Some,
            result matches Ok(config) ==> {
                &&& Some(config.quality as int) == within(
                    unsigned_value(quality@),
                    0,
                    u8::MAX as int,
                )
                &&& Some(config.speed as int) == within(unsigned_value(speed@), 0, u8::MAX as int)
                &&& config.color_format == (match ColorFormat::of_index(color_format as int) {
                    Some(c) => c,
                    None => ColorFormat::Rgb24,
                })
                &&& config.yuv_format == (match YuvFormat::of_index(yuv_format as int) {
                    Some(c) => c,
                    None => YuvFormat::Yuv420,
                })
                &&& config.threads == machine_threads
            },
            result matches Err(e) ==> e == (if within(unsigned_value(quality@), 0, u8::MAX as int)
                is None {
                ConfigError::Quality
            } else {
                ConfigError::Speed
            }),
    {
        let quality = match parse_u8(quality) {
            Some(v) => v,
            None => {
                return Err(ConfigError::Quality);
            },
        };
        let speed = match parse_u8(speed) {
            Some(v) => v,
            None => {
                return Err(ConfigError::Speed);
            },
        };
        Ok(
            Config {
                quality,
                speed,
                color_format: ColorFormat::from_selection(color_format),
                yuv_format: YuvFormat::from_selection(yuv_format),
                threads: machine_threads,
            },
        )
    }
}

/// Settings in range that were written into a document are read back from
/// it unchanged, whatever the machine.
pub proof fn lemma_saved_settings_load_back(config: Config, machine_threads: usize)
    requires
        config.wf(),
    ensures
        Config::of_document(config.document(), machine_threads) == config,
{
    reveal_strlit("quality");
    reveal_strlit("speed");
    reveal_strlit("color_format");
    reveal_strlit("yuv_format");
    reveal_strlit("threads");
    let values = config.document();
    assert("quality"@.len() == 7);
    assert("speed"@.len() == 5);
    assert("color_format"@.len() == 12);
    assert("yuv_format"@.len() == 10);
    assert("threads"@.len() == 7);
    assert("quality"@[0] == 'q');
    assert("threads"@[0] == 't');
    assert("quality"@ != "threads"@);
    lemma_written_number_reads_back(config.quality as int);
    lemma_written_number_reads_back(config.speed as int);
    lemma_written_number_reads_back(config.color_format.index());
    lemma_written_number_reads_back(config.yuv_format.index());
    lemma_written_number_reads_back(config.threads as int);
    assert(stored(values, "quality"@) == Some(decimal_text(config.quality as nat)));
    assert(stored(values, "speed"@) == Some(decimal_text(config.speed as nat)));
    assert(stored(values, "color_format"@) == Some(
        decimal_text(config.color_format.index() as nat),
    ));
    assert(stored(values, "yuv_format"@) == Some(decimal_text(config.yuv_format.index() as nat)));
    assert(stored(values, "threads"@) == Some(decimal_text(config.threads as nat)));
}

} // verus!
