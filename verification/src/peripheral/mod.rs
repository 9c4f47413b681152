//! Peripherals beside the audio path.

pub mod exio;
pub mod mfrc522;
