//! Morse code: text encoding and decoding, parsing of Morse notation into
//! timing units, and the tone schedule that plays a parsed message.

pub mod message;
pub mod sequencer;
pub mod codec;
