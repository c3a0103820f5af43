//! Pricklybird: binary data as a sequence of four-letter words, one word per
//! byte, with a CRC-8 checksum word appended to detect transcription errors.
pub mod codec;
pub mod crc;
pub mod wordlist;

pub use codec::{bytes_to_words, convert_from_pricklybird, convert_to_pricklybird, words_to_bytes, DecodeError};
pub use crc::calculate_crc8;
