//! Procedural drum-hit synthesis: the integer side of the engine.
//!
//! The library decides which instrument plays and with which timbre, and how
//! the stereo frames that the signal graph produces are laid out in the
//! buffers of an output device or an offline render.
use vstd::prelude::*;

pub mod instrument;
pub mod render;
pub mod session;

use crate::instrument::{sample_params, InstrumentType, Voice, DECAY_RATE};

verus! {

/// Chooses the sound of one drum hit: a snare voice with freshly drawn
/// timbre parameters, ready for the signal graph to be built from it.
pub fn generate() -> (r: Voice)
    ensures
        r.wf(),
        r.instrument == InstrumentType::Snare,
{
    Voice { instrument: InstrumentType::Snare, params: sample_params(), decay: DECAY_RATE }
}

} // verus!
