//! Pixel-format conversion, chroma keying and frame sequencing for video
//! output plugins that re-encode host frames into animated image containers.
//!
//! Host frames arrive as raw byte buffers in one of the host's native
//! layouts. [`unpack`] turns them into tightly packed, top-down RGB or RGBA
//! bytes, [`chroma_key`] clears the alpha of pixels close to a key colour, and
//! [`driver`] decides, step by step, what the surrounding plugin does next.
//! [`host`] holds what the host declares about a run.
//!
//! The settings of the four plugins are in [`apng`], [`gif`], [`avif`] and
//! [`webp`], over the choices in [`config`], the number texts in [`text`] and
//! the settings document in [`ini_file`]. [`wide`] encodes text for the host.

pub mod apng;
pub mod avif;
pub mod chroma_key;
pub mod config;
pub mod driver;
pub mod error;
pub mod gif;
pub mod host;
pub mod ini_file;
pub mod text;
pub mod unpack;
pub mod webp;
pub mod wide;
