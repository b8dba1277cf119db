//! Settings of the APNG output plugin.

use crate::config::{
    as_text, read_u32, stored, stored_text, unsigned_or, ColorFormat, CompressionType, ConfigError,
    FilterType, SECTION,
};
use crate::ini_file::{ini_document, ini_get, ini_new, ini_parse, ini_set, ini_values, IniValues};
use crate::text::{
    decimal_text, format_unsigned, lemma_written_number_reads_back, parse_u32, unsigned_value,
    within,
};
use ini::Ini;
use vstd::prelude::*;

verus! {

/// The settings of the APNG output plugin.
#[derive(Clone, Copy, Debug, PartialEq, Eq, Structural)]
pub struct Config {
    /// How often the animation plays; 0 for without end.
    pub repeat: u32,
    /// Whether frames are written with an alpha channel.
    pub color_format: ColorFormat,
    /// How hard the encoder works on compression.
    pub compression_type: CompressionType,
    /// The row filter, where the encoder does not pick one itself.
    pub filter_type: FilterType,
    /// Whether the encoder picks the filter for each row itself.
    pub adaptive_filter: bool,
}

impl Config {
    /// The settings of a fresh installation.
    pub open spec fn initial() -> Config {
        Config {
            repeat: 0,
            color_format: ColorFormat::Rgb24,
            compression_type: CompressionType::Default,
            filter_type: FilterType::Sub,
            adaptive_filter: false,
        }
    }

    /// The settings that stored texts stand for. A text that is missing or
    /// does not stand for a value of its setting gives the setting of a
    /// fresh installation.
    pub open spec fn of_values(
        repeat: Option<Seq<char>>,
        color_format: Option<Seq<char>>,
        compression_type: Option<Seq<char>>,
        filter_type: Option<Seq<char>>,
        adaptive_filter: Option<Seq<char>>,
    ) -> Config {
        Config {
            repeat: unsigned_or(repeat, u32::MAX as int, 0) as u32,
            color_format: match color_format {
                Some(text) => match ColorFormat::of_text(text) {
                    Some(choice) => choice,
                    None => ColorFormat::Rgb24,
                },
                None => ColorFormat::Rgb24,
            },
            compression_type: match compression_type {
                Some(text) => match CompressionType::of_text(text) {
                    Some(choice) => choice,
                    None => CompressionType::Default,
                },
                None => CompressionType::Default,
            },
            filter_type: match filter_type {
                Some(text) => match FilterType::of_text(text) {
                    Some(choice) => choice,
                    None => FilterType::Sub,
                },
                None => FilterType::Sub,
            },
            adaptive_filter: unsigned_or(adaptive_filter, u32::MAX as int, 0) != 0,
        }
    }

    /// The settings that a document stands for.
    pub open spec fn of_document(values: IniValues) -> Config {
        Config::of_values(
            stored(values, "repeat"@),
            stored(values, "color_format"@),
            stored(values, "compression_type"@),
            stored(values, "filter_type"@),
            stored(values, "adaptive_filter"@),
        )
    }

    /// The document that holds these settings.
    pub open spec fn document(self) -> IniValues {
        IniValues::empty().insert((SECTION@, "repeat"@), decimal_text(self.repeat as nat)).insert(
            (SECTION@, "color_format"@),
            decimal_text(self.color_format.index() as nat),
        ).insert(
            (SECTION@, "compression_type"@),
            decimal_text(self.compression_type.index() as nat),
        ).insert((SECTION@, "filter_type"@), decimal_text(self.filter_type.index() as nat)).insert(
            (SECTION@, "adaptive_filter"@),
            decimal_text(
                if self.adaptive_filter {
                    1nat
                } else {
                    0nat
                },
            ),
        )
    }

    /// The settings of a fresh installation.
    pub fn default() -> (config: Config)
        ensures
            config == Config::initial(),
    {
        Config {
            repeat: 0,
            color_format: ColorFormat::Rgb24,
            compression_type: CompressionType::Default,
            filter_type: FilterType::Sub,
            adaptive_filter: false,
        }
    }

    /// Reads the settings from the texts stored under their keys.
    pub fn from_values(
        repeat: Option<&str>,
        color_format: Option<&str>,
        compression_type: Option<&str>,
        filter_type: Option<&str>,
        adaptive_filter: Option<&str>,
    ) -> (config: Config)
        ensures
            config == Config::of_values(
                stored_text(repeat),
                stored_text(color_format),
                stored_text(compression_type),
                stored_text(filter_type),
                stored_text(adaptive_filter),
            ),
    {
        let color_format = match color_format {
            Some(s) => match ColorFormat::from_str(s) {
                Ok(choice) => choice,
                Err(_) => ColorFormat::Rgb24,
            },
            None => ColorFormat::Rgb24,
        };
        let compression_type = match compression_type {
            Some(s) => match CompressionType::from_str(s) {
                Ok(choice) => choice,
                Err(_) => CompressionType::Default,
            },
            None => CompressionType::Default,
        };
        let filter_type = match filter_type {
            Some(s) => match FilterType::from_str(s) {
                Ok(choice) => choice,
                Err(_) => FilterType::Sub,
            },
            None => FilterType::Sub,
        };
        Config {
            repeat: read_u32(repeat, 0),
            color_format,
            compression_type,
            filter_type,
            adaptive_filter: read_u32(adaptive_filter, 0) != 0,
        }
    }

    /// Reads the settings from a document.
    pub fn from_ini(doc: &Ini) -> (config: Config)
        ensures
            config == Config::of_document(ini_values(*doc)),
    {
        let repeat = ini_get(doc, SECTION, "repeat");
        let color_format = ini_get(doc, SECTION, "color_format");
        let compression_type = ini_get(doc, SECTION, "compression_type");
        let filter_type = ini_get(doc, SECTION, "filter_type");
        let adaptive_filter = ini_get(doc, SECTION, "adaptive_filter");
        Config::from_values(
            as_text(&repeat),
            as_text(&color_format),
            as_text(&compression_type),
            as_text(&filter_type),
            as_text(&adaptive_filter),
        )
    }

    /// Reads the settings from the text of a settings file. A text that is
    /// no settings file gives the settings of a fresh installation.
    pub fn load(text: &str) -> (config: Config)
        ensures
            config == (match ini_document(text@) {
                Some(values) => Config::of_document(values),
                None => Config::initial(),
            }),
    {
        match ini_parse(text) {
            Ok(doc) => Config::from_ini(&doc),
            Err(_) => Config::default(),
        }
    }

    /// Writes the settings into a document.
    pub fn save(&self) -> (doc: Ini)
        ensures
            ini_values(doc) == self.document(),
    {
        let mut doc = ini_new();
        ini_set(&mut doc, SECTION, "repeat", format_unsigned(self.repeat as u64).as_str());
        ini_set(
            &mut doc,
            SECTION,
            "color_format",
            format_unsigned(self.color_format.to_index() as u64).as_str(),
        );
        ini_set(
            &mut doc,
            SECTION,
            "compression_type",
            format_unsigned(self.compression_type.to_index() as u64).as_str(),
        );
        ini_set(
            &mut doc,
            SECTION,
            "filter_type",
            format_unsigned(self.filter_type.to_index() as u64).as_str(),
        );
        let flag: u64 = if self.adaptive_filter {
            1
        } else {
            0
        };
        ini_set(&mut doc, SECTION, "adaptive_filter", format_unsigned(flag).as_str());
        doc
    }

    /// The settings that the user entered in the dialog: the text of the
    /// repeat count and the entries selected in the three lists. Whether the
    /// encoder picks the filter itself is not on the dialog and stays as it
    /// is. A repeat count that is no number is refused.
    pub fn from_dialog(&self, repeat: &str, color_format: i32, compression_type: i32, filter_type: i32) -> (result:
        Result<Config, ConfigError>)
        ensures
            result is Ok <==> within(unsigned_value(repeat@), 0, u32::MAX as int) is Some,
            result matches Ok(config) ==> {
                &&& Some(config.repeat as int) == within(unsigned_value(repeat@), 0, u32::MAX as int)
                &&& config.color_format == (match ColorFormat::of_index(color_format as int) {
                    Some(c) => c,
                    None => ColorFormat::Rgb24,
                })
                &&& config.compression_type == (match CompressionType::of_index(
                    compression_type as int,
                ) {
                    Some(c) => c,
                    None => CompressionType::Default,
                })
                &&& config.filter_type == (match FilterType::of_index(filter_type as int) {
                    Some(c) => c,
                    None => FilterType::Sub,
                })
                &&& config.adaptive_filter == self.adaptive_filter
            },
            result matches Err(e) ==> e == ConfigError::Repeat,
    {
        match parse_u32(repeat) {
            Some(repeat) => Ok(
                Config {
                    repeat,
                    color_format: ColorFormat::from_selection(color_format),
                    compression_type: CompressionType::from_selection(compression_type),
                    filter_type: FilterType::from_selection(filter_type),
                    adaptive_filter: self.adaptive_filter,
                },
            ),
            None => Err(ConfigError::Repeat),
        }
    }
}

/// Settings that were written into a document are read back from it
/// unchanged.
pub proof fn lemma_saved_settings_load_back(config: Config)
    ensures
        Config::of_document(config.document()) == config,
{
    reveal_strlit("repeat");
    reveal_strlit("color_format");
    reveal_strlit("compression_type");
    reveal_strlit("filter_type");
    reveal_strlit("adaptive_filter");
    let values = config.document();
    assert("repeat"@.len() == 6);
    assert("color_format"@.len() == 12);
    assert("compression_type"@.len() == 16);
    assert("filter_type"@.len() == 11);
    assert("adaptive_filter"@.len() == 15);
    lemma_written_number_reads_back(config.repeat as int);
    lemma_written_number_reads_back(config.color_format.index());
    lemma_written_number_reads_back(config.compression_type.index());
    lemma_written_number_reads_back(config.filter_type.index());
    lemma_written_number_reads_back(0);
    lemma_written_number_reads_back(1);
    assert(stored(values, "repeat"@) == Some(decimal_text(config.repeat as nat)));
    assert(stored(values, "color_format"@) == Some(
        decimal_text(config.color_format.index() as nat),
    ));
    assert(stored(values, "compression_type"@) == Some(
        decimal_text(config.compression_type.index() as nat),
    ));
    assert(stored(values, "filter_type"@) == Some(
        decimal_text(config.filter_type.index() as nat),
    ));
}

} // verus!
