//! Bring-up of the audio codec.

use vstd::prelude::*;

verus! {

/// Prepares the codec. Boards whose codec is driven over I2S alone need no
/// preparation.
pub fn audio_init() {
}

} // verus!
