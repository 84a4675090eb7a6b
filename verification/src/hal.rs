//! Board-level audio bring-up.
use vstd::prelude::*;

verus! {

/// Prepare the audio codec for capture and playback. On the board profile
/// this library targets, the codec comes up configured by hardware strap
/// pins, so there is no register work to do; board profiles whose codec
/// needs host-side configuration perform it in the device layer outside
/// the library.
pub fn audio_init() {
}

} // verus!
