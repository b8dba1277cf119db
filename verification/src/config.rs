//! The choices that the settings of the output plugins are made of, and how
//! a setting is read from the text that holds it.
//!
//! In the settings file a choice is stored as its index, in decimal.

use crate::ini_file::IniValues;
use crate::text::{parse_i32, parse_u16, parse_u32, parse_u8, signed_value, unsigned_value, within};
use vstd::prelude::*;

verus! {

/// The name of the section that holds the settings.
pub const SECTION: &'static str = "Config";

/// Why settings entered by the user were refused.
#[derive(Clone, Copy, Debug, PartialEq, Eq, Structural)]
pub enum ConfigError {
    /// The repeat count is not a number in range.
    Repeat,
    /// The speed is not a number in range.
    Speed,
    /// The quality is not a number in range.
    Quality,
    /// The key colour is not of the form `#RRGGBB`.
    KeyColor,
    /// The hue range is not a number in range.
    HueRange,
    /// The saturation range is not a number in range.
    SaturationRange,
}

/// Whether pixels carry an alpha channel.
#[derive(Clone, Copy, Debug, PartialEq, Eq, Structural)]
pub enum ColorFormat {
    /// Red, green, blue: 24 bits per pixel.
    Rgb24,
    /// Red, green, blue, alpha: 32 bits per pixel.
    Rgba32,
}

impl ColorFormat {
    /// The index under which the choice is stored.
    pub open spec fn index(self) -> int {
        match self {
            ColorFormat::Rgb24 => 0,
            ColorFormat::Rgba32 => 1,
        }
    }

    /// The choice stored under an index.
    pub open spec fn of_index(index: int) -> Option<ColorFormat> {
        if index == 0 {
            Some(ColorFormat::Rgb24)
        } else if index == 1 {
            Some(ColorFormat::Rgba32)
        } else {
            None
        }
    }

    /// The choice that a text stands for: the one stored under the index
    /// that the text holds.
    pub open spec fn of_text(text: Seq<char>) -> Option<ColorFormat> {
        match within(unsigned_value(text), 0, u32::MAX as int) {
            Some(index) => ColorFormat::of_index(index),
            None => None,
        }
    }

    /// The number of channels of an image in this format.
    pub open spec fn spec_channels(self) -> int {
        match self {
            ColorFormat::Rgb24 => 3,
            ColorFormat::Rgba32 => 4,
        }
    }

    /// The name shown to the user.
    pub open spec fn label_text(self) -> Seq<char> {
        match self {
            ColorFormat::Rgb24 => "RGB 24bit"@,
            ColorFormat::Rgba32 => "RGBA 32bit"@,
        }
    }

    /// The index under which the choice is stored.
    pub fn to_index(&self) -> (index: u32)
        ensures
            index == self.index(),
            ColorFormat::of_index(index as int) == Some(*self),
    {
        match self {
            ColorFormat::Rgb24 => 0,
            ColorFormat::Rgba32 => 1,
        }
    }

    /// The choice stored under an index, if there is one.
    pub fn from_index(index: u32) -> (choice: Option<ColorFormat>)
        ensures
            choice == ColorFormat::of_index(index as int),
    {
        match index {
            0 => Some(ColorFormat::Rgb24),
            1 => Some(ColorFormat::Rgba32),
            _ => None,
        }
    }

    /// Reads a choice from the text of its index.
    pub fn from_str(s: &str) -> (choice: Result<ColorFormat, ()>)
        ensures
            choice matches Ok(c) ==> ColorFormat::of_text(s@) == Some(c),
            choice is Err ==> ColorFormat::of_text(s@) is None,
    {
        match parse_u32(s) {
            Some(index) => match ColorFormat::from_index(index) {
                Some(choice) => Ok(choice),
                None => Err(()),
            },
            None => Err(()),
        }
    }

    /// The choice for an entry selected in a list: the entry's, else the
    /// default.
    pub fn from_selection(selected: i32) -> (choice: ColorFormat)
        ensures
            choice == (match ColorFormat::of_index(selected as int) {
                Some(c) => c,
                None => ColorFormat::Rgb24,
            }),
    {
        match selected {
            0 => ColorFormat::Rgb24,
            1 => ColorFormat::Rgba32,
            _ => ColorFormat::Rgb24,
        }
    }

    /// The number of channels of an image in this format.
    pub fn channels(&self) -> (count: usize)
        ensures
            count == self.spec_channels(),
    {
        match self {
            ColorFormat::Rgb24 => 3,
            ColorFormat::Rgba32 => 4,
        }
    }

    /// The name shown to the user.
    pub fn label(&self) -> (name: &'static str)
        ensures
            name@ == self.label_text(),
    {
        match self {
            ColorFormat::Rgb24 => "RGB 24bit",
            ColorFormat::Rgba32 => "RGBA 32bit",
        }
    }
}

impl Default for ColorFormat {
    fn default() -> (choice: ColorFormat)
        ensures
            choice == ColorFormat::Rgb24,
    {
        ColorFormat::Rgb24
    }
}

/// How hard the PNG encoder works on compression.
#[derive(Clone, Copy, Debug, PartialEq, Eq, Structural)]
pub enum CompressionType {
    /// The encoder's default.
    Default,
    /// Faster, larger files.
    Fast,
    /// Slower, smaller files.
    Best,
}

impl CompressionType {
    /// The index under which the choice is stored.
    pub open spec fn index(self) -> int {
        match self {
            CompressionType::Default => 0,
            CompressionType::Fast => 1,
            CompressionType::Best => 2,
        }
    }

    /// The choice stored under an index.
    pub open spec fn of_index(index: int) -> Option<CompressionType> {
        if index == 0 {
            Some(CompressionType::Default)
        } else if index == 1 {
            Some(CompressionType::Fast)
        } else if index == 2 {
            Some(CompressionType::Best)
        } else {
            None
        }
    }

    /// The choice that a text stands for.
    pub open spec fn of_text(text: Seq<char>) -> Option<CompressionType> {
        match within(unsigned_value(text), 0, u32::MAX as int) {
            Some(index) => CompressionType::of_index(index),
            None => None,
        }
    }

    /// The name shown to the user.
    pub open spec fn label_text(self) -> Seq<char> {
        match self {
            CompressionType::Default => "標準"@,
            CompressionType::Fast => "高速"@,
            CompressionType::Best => "最高"@,
        }
    }

    /// The index under which the choice is stored.
    pub fn to_index(&self) -> (index: u32)
        ensures
            index == self.index(),
            CompressionType::of_index(index as int) == Some(*self),
    {
        match self {
            CompressionType::Default => 0,
            CompressionType::Fast => 1,
            CompressionType::Best => 2,
        }
    }

    /// The choice stored under an index, if there is one.
    pub fn from_index(index: u32) -> (choice: Option<CompressionType>)
        ensures
            choice == CompressionType::of_index(index as int),
    {
        match index {
            0 => Some(CompressionType::Default),
            1 => Some(CompressionType::Fast),
            2 => Some(CompressionType::Best),
            _ => None,
        }
    }

    /// Reads a choice from the text of its index.
    pub fn from_str(s: &str) -> (choice: Result<CompressionType, ()>)
        ensures
            choice matches Ok(c) ==> CompressionType::of_text(s@) == Some(c),
            choice is Err ==> CompressionType::of_text(s@) is None,
    {
        match parse_u32(s) {
            Some(index) => match CompressionType::from_index(index) {
                Some(choice) => Ok(choice),
                None => Err(()),
            },
            None => Err(()),
        }
    }

    /// The choice for an entry selected in a list: the entry's, else the
    /// default.
    pub fn from_selection(selected: i32) -> (choice: CompressionType)
        ensures
            choice == (match CompressionType::of_index(selected as int) {
                Some(c) => c,
                None => CompressionType::Default,
            }),
    {
        match selected {
            0 => CompressionType::Default,
            1 => CompressionType::Fast,
            2 => CompressionType::Best,
            _ => CompressionType::Default,
        }
    }

    /// The name shown to the user.
    pub fn label(&self) -> (name: &'static str)
        ensures
            name@ == self.label_text(),
    {
        match self {
            CompressionType::Default => "標準",
            CompressionType::Fast => "高速",
            CompressionType::Best => "最高",
        }
    }
}

impl Default for CompressionType {
    fn default() -> (choice: CompressionType)
        ensures
            choice == CompressionType::Default,
    {
        CompressionType::Default
    }
}

/// The row filter that the PNG encoder applies before compression.
#[derive(Clone, Copy, Debug, PartialEq, Eq, Structural)]
pub enum FilterType {
    /// No filter.
    NoFilter,
    /// Difference to the pixel on the left.
    Sub,
    /// Difference to the pixel above.
    Up,
    /// Difference to the mean of the pixels on the left and above.
    Average,
    /// Difference to the Paeth predictor.
    Paeth,
}

impl FilterType {
    /// The index under which the choice is stored.
    pub open spec fn index(self) -> int {
        match self {
            FilterType::NoFilter => 0,
            FilterType::Sub => 1,
            FilterType::Up => 2,
            FilterType::Average => 3,
            FilterType::Paeth => 4,
        }
    }

    /// The choice stored under an index.
    pub open spec fn of_index(index: int) -> Option<FilterType> {
        if index == 0 {
            Some(FilterType::NoFilter)
        } else if index == 1 {
            Some(FilterType::Sub)
        } else if index == 2 {
            Some(FilterType::Up)
        } else if index == 3 {
            Some(FilterType::Average)
        } else if index == 4 {
            Some(FilterType::Paeth)
        } else {
            None
        }
    }

    /// The choice that a text stands for.
    pub open spec fn of_text(text: Seq<char>) -> Option<FilterType> {
        match within(unsigned_value(text), 0, u32::MAX as int) {
            Some(index) => FilterType::of_index(index),
            None => None,
        }
    }

    /// The name shown to the user.
    pub open spec fn label_text(self) -> Seq<char> {
        match self {
            FilterType::NoFilter => "なし"@,
            FilterType::Sub => "Sub"@,
            FilterType::Up => "Up"@,
            FilterType::Average => "Average"@,
            FilterType::Paeth => "Paeth"@,
        }
    }

    /// The index under which the choice is stored.
    pub fn to_index(&self) -> (index: u32)
        ensures
            index == self.index(),
            FilterType::of_index(index as int) == Some(*self),
    {
        match self {
            FilterType::NoFilter => 0,
            FilterType::Sub => 1,
            FilterType::Up => 2,
            FilterType::Average => 3,
            FilterType::Paeth => 4,
        }
    }

    /// The choice stored under an index, if there is one.
    pub fn from_index(index: u32) -> (choice: Option<FilterType>)
        ensures
            choice == FilterType::of_index(index as int),
    {
        match index {
            0 => Some(FilterType::NoFilter),
            1 => Some(FilterType::Sub),
            2 => Some(FilterType::Up),
            3 => Some(FilterType::Average),
            4 => Some(FilterType::Paeth),
            _ => None,
        }
    }

    /// Reads a choice from the text of its index.
    pub fn from_str(s: &str) -> (choice: Result<FilterType, ()>)
        ensures
            choice matches Ok(c) ==> FilterType::of_text(s@) == Some(c),
            choice is Err ==> FilterType::of_text(s@) is None,
    {
        match parse_u32(s) {
            Some(index) => match FilterType::from_index(index) {
                Some(choice) => Ok(choice),
                None => Err(()),
            },
            None => Err(()),
        }
    }

    /// The choice for an entry selected in a list: the entry's, else the
    /// default.
    pub fn from_selection(selected: i32) -> (choice: FilterType)
        ensures
            choice == (match FilterType::of_index(selected as int) {
                Some(c) => c,
                None => FilterType::Sub,
            }),
    {
        match selected {
            0 => FilterType::NoFilter,
            1 => FilterType::Sub,
            2 => FilterType::Up,
            3 => FilterType::Average,
            4 => FilterType::Paeth,
            _ => FilterType::Sub,
        }
    }

    /// The name shown to the user.
    pub fn label(&self) -> (name: &'static str)
        ensures
            name@ == self.label_text(),
    {
        match self {
            FilterType::NoFilter => "なし",
            FilterType::Sub => "Sub",
            FilterType::Up => "Up",
            FilterType::Average => "Average",
            FilterType::Paeth => "Paeth",
        }
    }
}

impl Default for FilterType {
    fn default() -> (choice: FilterType)
        ensures
            choice == FilterType::Sub,
    {
        FilterType::Sub
    }
}

/// How the AVIF encoder subsamples colour.
#[derive(Clone, Copy, Debug, PartialEq, Eq, Structural)]
pub enum YuvFormat {
    /// Colour at half resolution in both directions.
    Yuv420,
    /// Colour at half resolution horizontally.
    Yuv422,
    /// Colour at full resolution.
    Yuv444,
}

impl YuvFormat {
    /// The index under which the choice is stored.
    pub open spec fn index(self) -> int {
        match self {
            YuvFormat::Yuv420 => 0,
            YuvFormat::Yuv422 => 1,
            YuvFormat::Yuv444 => 2,
        }
    }

    /// The choice stored under an index.
    pub open spec fn of_index(index: int) -> Option<YuvFormat> {
        if index == 0 {
            Some(YuvFormat::Yuv420)
        } else if index == 1 {
            Some(YuvFormat::Yuv422)
        } else if index == 2 {
            Some(YuvFormat::Yuv444)
        } else {
            None
        }
    }

    /// The choice that a text stands for.
    pub open spec fn of_text(text: Seq<char>) -> Option<YuvFormat> {
        match within(unsigned_value(text), 0, u32::MAX as int) {
            Some(index) => YuvFormat::of_index(index),
            None => None,
        }
    }

    /// The name shown to the user.
    pub open spec fn label_text(self) -> Seq<char> {
        match self {
            YuvFormat::Yuv420 => "YUV420"@,
            YuvFormat::Yuv422 => "YUV422"@,
            YuvFormat::Yuv444 => "YUV444"@,
        }
    }

    /// The index under which the choice is stored.
    pub fn to_index(&self) -> (index: u32)
        ensures
            index == self.index(),
            YuvFormat::of_index(index as int) == Some(*self),
    {
        match self {
            YuvFormat::Yuv420 => 0,
            YuvFormat::Yuv422 => 1,
            YuvFormat::Yuv444 => 2,
        }
    }

    /// The choice stored under an index, if there is one.
    pub fn from_index(index: u32) -> (choice: Option<YuvFormat>)
        ensures
            choice == YuvFormat::of_index(index as int),
    {
        match index {
            0 => Some(YuvFormat::Yuv420),
            1 => Some(YuvFormat::Yuv422),
            2 => Some(YuvFormat::Yuv444),
            _ => None,
        }
    }

    /// Reads a choice from the text of its index.
    pub fn from_str(s: &str) -> (choice: Result<YuvFormat, ()>)
        ensures
            choice matches Ok(c) ==> YuvFormat::of_text(s@) == Some(c),
            choice is Err ==> YuvFormat::of_text(s@) is None,
    {
        match parse_u32(s) {
            Some(index) => match YuvFormat::from_index(index) {
                Some(choice) => Ok(choice),
                None => Err(()),
            },
            None => Err(()),
        }
    }

    /// The choice for an entry selected in a list: the entry's, else the
    /// default.
    pub fn from_selection(selected: i32) -> (choice: YuvFormat)
        ensures
            choice == (match YuvFormat::of_index(selected as int) {
                Some(c) => c,
                None => YuvFormat::Yuv420,
            }),
    {
        match selected {
            0 => YuvFormat::Yuv420,
            1 => YuvFormat::Yuv422,
            2 => YuvFormat::Yuv444,
            _ => YuvFormat::Yuv420,
        }
    }

    /// The name shown to the user.
    pub fn label(&self) -> (name: &'static str)
        ensures
            name@ == self.label_text(),
    {
        match self {
            YuvFormat::Yuv420 => "YUV420",
            YuvFormat::Yuv422 => "YUV422",
            YuvFormat::Yuv444 => "YUV444",
        }
    }
}

impl Default for YuvFormat {
    fn default() -> (choice: YuvFormat)
        ensures
            choice == YuvFormat::Yuv420,
    {
        YuvFormat::Yuv420
    }
}

/// The lesser of a number and a bound.
pub open spec fn at_most(value: int, bound: int) -> int {
    if value > bound {
        bound
    } else {
        value
    }
}

/// A number brought into the range from `low` to `high`.
pub open spec fn clamped(value: int, low: int, high: int) -> int {
    if value < low {
        low
    } else if value > high {
        high
    } else {
        value
    }
}

/// The value stored under a key of the settings section, if there is one.
pub open spec fn stored(values: IniValues, key: Seq<char>) -> Option<Seq<char>> {
    if values.contains_key((SECTION@, key)) {
        Some(values[(SECTION@, key)])
    } else {
        None
    }
}

/// The number that a stored text stands for where it is an unsigned number
/// of at most `max`, else the fallback; the fallback too where nothing is
/// stored.
pub open spec fn unsigned_or(stored: Option<Seq<char>>, max: int, fallback: int) -> int {
    match stored {
        Some(text) => match within(unsigned_value(text), 0, max) {
            Some(v) => v,
            None => fallback,
        },
        None => fallback,
    }
}

/// The number that a stored text stands for where it is a signed number
/// that fits 32 bits, else the fallback; the fallback too where nothing is
/// stored.
pub open spec fn signed_or(stored: Option<Seq<char>>, fallback: int) -> int {
    match stored {
        Some(text) => match within(signed_value(text), i32::MIN as int, i32::MAX as int) {
            Some(v) => v,
            None => fallback,
        },
        None => fallback,
    }
}

/// The view of a stored text.
pub open spec fn stored_text(stored: Option<&str>) -> Option<Seq<char>> {
    match stored {
        Some(s) => Some(s@),
        None => None,
    }
}

/// Reads a stored 8-bit number, with a fallback.
pub fn read_u8(stored: Option<&str>, fallback: u8) -> (value: u8)
    ensures
        value == unsigned_or(stored_text(stored), u8::MAX as int, fallback as int),
{
    match stored {
        Some(s) => match parse_u8(s) {
            Some(v) => v,
            None => fallback,
        },
        None => fallback,
    }
}

/// Reads a stored 16-bit number, with a fallback.
pub fn read_u16(stored: Option<&str>, fallback: u16) -> (value: u16)
    ensures
        value == unsigned_or(stored_text(stored), u16::MAX as int, fallback as int),
{
    match stored {
        Some(s) => match parse_u16(s) {
            Some(v) => v,
            None => fallback,
        },
        None => fallback,
    }
}

/// Reads a stored 32-bit number, with a fallback.
pub fn read_u32(stored: Option<&str>, fallback: u32) -> (value: u32)
    ensures
        value == unsigned_or(stored_text(stored), u32::MAX as int, fallback as int),
{
    match stored {
        Some(s) => match parse_u32(s) {
            Some(v) => v,
            None => fallback,
        },
        None => fallback,
    }
}

/// Reads a stored signed 32-bit number, with a fallback.
pub fn read_i32(stored: Option<&str>, fallback: i32) -> (value: i32)
    ensures
        value == signed_or(stored_text(stored), fallback as int),
{
    match stored {
        Some(s) => match parse_i32(s) {
            Some(v) => v,
            None => fallback,
        },
        None => fallback,
    }
}

/// The text held by an optional string.
pub fn as_text(stored: &Option<String>) -> (text: Option<&str>)
    ensures
        stored matches Some(s) ==> text matches Some(t) && t@ == s@,
        stored is None ==> text is None,
{
    match stored {
        Some(s) => Some(s.as_str()),
        None => None,
    }
}

} // verus!
