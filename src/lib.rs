//! Translation between text and Morse code, with a RIFF/WAVE container
//! writer for the audio rendering of a Morse stream.
pub mod buffer;
pub mod codec;
pub mod error;
pub mod symbol;
pub mod translator;
pub mod wav;
