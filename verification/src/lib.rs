//! Decoding of a flat, position-indexed inventory blob into a structured
//! player record: tolerant per-token parsing, index-stable decoding, and
//! fixed-offset region extraction.

pub mod loadout;
pub mod numeric;
pub mod player;
pub mod regions;
pub mod slots;
pub mod split;
