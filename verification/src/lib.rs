//! Converts SoundFont instrument banks into Deluge synthesizer patches.
//!
//! The library decodes the chunked binary container into a semantic model of
//! presets, instruments, zones and parameter generators, coalesces sample
//! zones onto the Deluge's two oscillator slots, transcodes envelope values
//! into the Deluge's normalized 32-bit parameter domain, and serializes the
//! resulting patch as the Deluge's attribute-based XML document.

pub mod convert;
pub mod deluge;
pub mod levenshtein;
pub mod soundfont;
pub mod text;
pub mod wav;
