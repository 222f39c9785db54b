//! Decoder for the DCF77 longwave time signal.
//!
//! Two pieces work in sequence: [`SimpleDCF77Decoder`] turns a stream of
//! boolean amplitude samples (one every 10 ms) into a 59-bit timeframe
//! register, one bit per second, and [`DCF77Time`] interprets a completed
//! register, decoding the BCD-encoded calendar fields and checking them
//! against the parity bits and value ranges of the DCF77 bit layout.

mod bits;
mod decoder;
mod timeframe;

pub use bits::bcd2;
pub use bits::bit64;
pub use bits::field64;
pub use bits::lemma_bcd_garbage_above_99;
pub use bits::lemma_bcd_round_trip;
pub use bits::lemma_parity_flip;
pub use bits::lemma_parity_only_range;
pub use bits::parity64;
pub use decoder::lemma_ambiguous_bit_faults;
pub use decoder::lemma_decides_one;
pub use decoder::lemma_decides_zero;
pub use decoder::lemma_silence_ends_cycle;
pub use decoder::DecoderModel;
pub use decoder::DecoderState;
pub use decoder::SimpleDCF77Decoder;
pub use timeframe::DCF77Time;
