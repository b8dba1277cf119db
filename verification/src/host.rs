//! What the host declares about one output run, and the frame accessors that
//! turn the buffers it hands out into canonical images.

use crate::error::PipelineError;
use crate::unpack::{
    packed8_fits, premultiplied16_fits, unpack_packed8, unpack_premultiplied16, unpacked16,
    unpacked8, FrameFormat,
};
use vstd::arithmetic::div_mod::{
    lemma_fundamental_div_mod_converse_div, lemma_fundamental_div_mod_converse_mod,
};
use vstd::prelude::*;

verus! {

/// Set in [`OutputInfo::flag`] where the run carries video.
pub const FLAG_VIDEO: i32 = 1;

/// Set in [`OutputInfo::flag`] where the run carries audio.
pub const FLAG_AUDIO: i32 = 2;

/// The codes by which the host names video formats.
pub const BI_RGB: u32 = 0;

/// Packed YUV 4:2:2.
pub const YUY2: u32 = 0x3259_5559;

/// 16 bits per channel, red-green-blue-alpha, premultiplied.
pub const PA64: u32 = 0x3436_4150;

/// 16-bit floating point per channel, red-green-blue-alpha, premultiplied.
pub const HF64: u32 = 0x3436_4648;

/// The host's code for 16-bit integer audio samples.
pub const WAVE_FORMAT_PCM: u32 = 1;

/// The host's code for 32-bit floating point audio samples.
pub const WAVE_FORMAT_IEEE_FLOAT: u32 = 3;

/// The numbers the host declares for one output run.
#[derive(Clone, Copy, Debug, PartialEq, Eq, Structural)]
pub struct OutputInfo {
    /// [`FLAG_VIDEO`] and [`FLAG_AUDIO`], added up.
    pub flag: i32,
    /// Frame width in pixels.
    pub w: i32,
    /// Frame height in pixels.
    pub h: i32,
    /// Frame rate: `rate / scale` frames per second.
    pub rate: i32,
    /// See `rate`.
    pub scale: i32,
    /// Number of frames.
    pub n: i32,
    /// Audio samples per second.
    pub audio_rate: i32,
    /// Number of audio channels.
    pub audio_ch: i32,
    /// Number of audio samples.
    pub audio_n: i32,
}

/// A canonical RGB image with an alpha byte of 255 after every pixel.
pub open spec fn opaque_rgba(rgb: Seq<u8>) -> Seq<u8> {
    Seq::new(
        ((rgb.len() / 3) * 4) as nat,
        |i: int|
            if i % 4 == 3 {
                255u8
            } else {
                rgb[(i / 4) * 3 + i % 4]
            },
    )
}

/// Adds an opaque alpha channel to a canonical RGB image. Bytes after the
/// last whole pixel are dropped.
pub fn with_opaque_alpha(rgb: &Vec<u8>) -> (rgba: Vec<u8>)
    requires
        (rgb@.len() / 3) * 4 <= usize::MAX,
    ensures
        rgba@ == opaque_rgba(rgb@),
{
    let pixels: usize = rgb.len() / 3;
    let mut rgba: Vec<u8> = Vec::new();
    let mut p: usize = 0;
    while p < pixels
        invariant
            pixels == rgb@.len() / 3,
            pixels * 3 <= rgb@.len() <= usize::MAX,
            p <= pixels,
            rgba@.len() == p * 4,
            forall|i: int|
                0 <= i < rgba@.len() ==> rgba@[i] == (if i % 4 == 3 {
                    255u8
                } else {
                    rgb@[(i / 4) * 3 + i % 4]
                }),
        decreases pixels - p,
    {
        proof {
            lemma_fundamental_div_mod_converse_div(p * 4, 4, p as int, 0);
            lemma_fundamental_div_mod_converse_mod(p * 4, 4, p as int, 0);
            lemma_fundamental_div_mod_converse_div(p * 4 + 1, 4, p as int, 1);
            lemma_fundamental_div_mod_converse_mod(p * 4 + 1, 4, p as int, 1);
            lemma_fundamental_div_mod_converse_div(p * 4 + 2, 4, p as int, 2);
            lemma_fundamental_div_mod_converse_mod(p * 4 + 2, 4, p as int, 2);
            lemma_fundamental_div_mod_converse_div(p * 4 + 3, 4, p as int, 3);
            lemma_fundamental_div_mod_converse_mod(p * 4 + 3, 4, p as int, 3);
        }
        rgba.push(rgb[p * 3]);
        rgba.push(rgb[p * 3 + 1]);
        rgba.push(rgb[p * 3 + 2]);
        rgba.push(255);
        p = p + 1;
    }
    proof {
        assert(rgba@ =~= opaque_rgba(rgb@));
    }
    rgba
}

impl OutputInfo {
    /// Whether width and height are both non-negative.
    pub open spec fn has_size(&self) -> bool {
        self.w >= 0 && self.h >= 0
    }

    /// The number of frames the driver walks through: `n`, or none where the
    /// host declares a negative count.
    pub fn frame_count(&self) -> (count: u32)
        ensures
            count == if self.n > 0 {
                self.n as int
            } else {
                0
            },
    {
        if self.n > 0 {
            self.n as u32
        } else {
            0
        }
    }

    /// The number of bytes that the host hands out for a frame of the given
    /// layout, where both dimensions are non-negative and the number fits the
    /// machine.
    pub fn video_len(&self, format: FrameFormat) -> (len: Option<usize>)
        ensures
            len matches Some(n) ==> self.has_size() && n == format.spec_frame_len(
                self.w as int,
                self.h as int,
            ),
            len is None ==> !(self.has_size() && format.spec_frame_len(
                self.w as int,
                self.h as int,
            ) <= usize::MAX),
    {
        if self.w < 0 || self.h < 0 {
            return None;
        }
        format.frame_len(self.w as u32, self.h as u32)
    }

    /// Turns the bytes that the host hands out for a 24-bit frame (bottom-up,
    /// blue-green-red, rows padded to four bytes) into a canonical RGB image.
    ///
    /// Refused where a dimension is negative or `data` is shorter than the
    /// dimensions call for.
    pub fn get_video_rgb(&self, data: &[u8]) -> (result: Result<Vec<u8>, PipelineError>)
        ensures
            result is Ok <==> self.has_size() && packed8_fits(
                data@.len() as int,
                self.w as int,
                self.h as int,
                3,
            ),
            result matches Ok(image) ==> image@ == unpacked8(data@, self.w as int, self.h as int, 3),
            result matches Err(e) ==> e == PipelineError::DataIntegrity,
    {
        if self.w < 0 || self.h < 0 {
            return Err(PipelineError::DataIntegrity);
        }
        unpack_packed8(data, self.w as u32, self.h as u32, 3)
    }

    /// As [`OutputInfo::get_video_rgb`], with an alpha byte of 255 added to
    /// every pixel, for stages that work on four channels.
    pub fn get_video_rgb_4ch(&self, data: &[u8]) -> (result: Result<Vec<u8>, PipelineError>)
        ensures
            result is Ok <==> self.has_size() && packed8_fits(
                data@.len() as int,
                self.w as int,
                self.h as int,
                3,
            ) && self.w * self.h * 4 <= usize::MAX,
            result matches Ok(image) ==> image@ == opaque_rgba(
                unpacked8(data@, self.w as int, self.h as int, 3),
            ),
            result matches Err(e) ==> e == PipelineError::DataIntegrity,
    {
        match self.get_video_rgb(data) {
            Ok(rgb) => {
                let ghost pixels = self.w as int * self.h as int;
                assert(rgb@.len() == pixels * 3);
                assert((pixels * 3) / 3 == pixels);
                if rgb.len() / 3 > usize::MAX / 4 {
                    return Err(PipelineError::DataIntegrity);
                }
                Ok(with_opaque_alpha(&rgb))
            },
            Err(e) => Err(e),
        }
    }

    /// Turns the bytes that the host hands out for a 64-bit frame (top-down,
    /// red-green-blue-alpha, 16 bits each, premultiplied) into a canonical
    /// RGBA image with straight alpha.
    ///
    /// Refused where a dimension is negative or `data` is shorter than the
    /// dimensions call for.
    pub fn get_video_rgba(&self, data: &[u8]) -> (result: Result<Vec<u8>, PipelineError>)
        ensures
            result is Ok <==> self.has_size() && premultiplied16_fits(
                data@.len() as int,
                self.w as int,
                self.h as int,
            ),
            result matches Ok(image) ==> image@ == unpacked16(data@, self.w as int, self.h as int),
            result matches Err(e) ==> e == PipelineError::DataIntegrity,
    {
        if self.w < 0 || self.h < 0 {
            return Err(PipelineError::DataIntegrity);
        }
        unpack_premultiplied16(data, self.w as u32, self.h as u32)
    }
}

} // verus!
