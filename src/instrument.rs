//! Instruments and the timbre parameters that each drum hit draws.
use rand::Rng;
use vstd::prelude::*;

verus! {

/// Lowest base frequency of a hit, in Hz.
pub const FREQUENCY_MIN: u32 = 60;

/// Highest base frequency of a hit, in Hz.
pub const FREQUENCY_MAX: u32 = 300;

/// Lowest drive gain applied before the waveshaper.
pub const DRIVE_MIN: u32 = 1;

/// Highest drive gain applied before the waveshaper.
pub const DRIVE_MAX: u32 = 7;

/// Decay constant `k` of the pitch envelope `frequency * exp(-t * k)`, per second.
pub const DECAY_RATE: u32 = 20;

/// The instruments a hit may be asked for. Only kick and snare have a
/// generator; the others are refused.
#[derive(Clone, Copy, Debug, PartialEq, Eq, Structural)]
pub enum InstrumentType {
    Kick,
    Snare,
    Hihat,
    Rimshot,
    Clap,
    Tambourine,
}

/// Whether the instrument has a generator.
pub open spec fn is_supported(i: InstrumentType) -> bool {
    i is Kick || i is Snare
}

/// Why no voice could be built.
#[derive(Clone, Copy, Debug, PartialEq, Eq, Structural)]
pub enum SynthError {
    /// The instrument has no generator.
    UnsupportedInstrument,
}

/// The randomised part of a hit's timbre.
#[derive(Clone, Copy, Debug, PartialEq, Eq, Structural)]
pub struct TimbreParams {
    /// Base frequency of the pitch sweep, in Hz.
    pub frequency: u32,
    /// Gain applied to the oscillator before saturation.
    pub drive: u32,
}

impl TimbreParams {
    /// Both parameters lie in their closed ranges.
    pub open spec fn in_range(self) -> bool {
        FREQUENCY_MIN <= self.frequency <= FREQUENCY_MAX && DRIVE_MIN <= self.drive <= DRIVE_MAX
    }

    /// Parameters chosen by the caller, accepted only inside the ranges.
    pub fn new(frequency: u32, drive: u32) -> (r: Option<TimbreParams>)
        ensures
            r is Some <==> (FREQUENCY_MIN <= frequency <= FREQUENCY_MAX && DRIVE_MIN <= drive
                <= DRIVE_MAX),
            r matches Some(p) ==> p.frequency == frequency && p.drive == drive,
    {
        if FREQUENCY_MIN <= frequency && frequency <= FREQUENCY_MAX && DRIVE_MIN <= drive && drive
            <= DRIVE_MAX {
            Some(TimbreParams { frequency, drive })
        } else {
            None
        }
    }
}

/// Both ranges are closed: every frequency from 60 to 300 Hz and every drive
/// from 1 to 7 is a valid pair, the bounds included, and nothing outside is.
pub proof fn lemma_ranges_closed(frequency: u32, drive: u32)
    ensures
        (TimbreParams { frequency, drive }).in_range() <==> (60 <= frequency <= 300 && 1 <= drive
            <= 7),
        (TimbreParams { frequency: 60, drive: 1 }).in_range(),
        (TimbreParams { frequency: 300, drive: 7 }).in_range(),
{
}

/// Everything the signal graph of one hit is built from.
#[derive(Clone, Copy, Debug, PartialEq, Eq, Structural)]
pub struct Voice {
    pub instrument: InstrumentType,
    pub params: TimbreParams,
    /// Decay constant of the pitch envelope, per second.
    pub decay: u32,
}

impl Voice {
    /// A voice that a graph can be built from: an instrument with a
    /// generator, parameters in range, and that instrument's decay.
    pub open spec fn wf(self) -> bool {
        is_supported(self.instrument) && self.params.in_range() && self.decay == DECAY_RATE
    }

    /// A voice with parameters chosen by the caller, or an error for an
    /// instrument that has no generator.
    pub fn with_params(instrument: InstrumentType, params: TimbreParams) -> (r: Result<
        Voice,
        SynthError,
    >)
        requires
            params.in_range(),
        ensures
            r is Ok <==> is_supported(instrument),
            r matches Ok(v) ==> v.wf() && v.instrument == instrument && v.params == params,
            r matches Err(e) ==> e == SynthError::UnsupportedInstrument,
    {
        match instrument {
            InstrumentType::Kick | InstrumentType::Snare => Ok(
                Voice { instrument, params, decay: DECAY_RATE },
            ),
            _ => Err(SynthError::UnsupportedInstrument),
        }
    }
}

/// Relies on `rand::thread_rng` and `rand::Rng::gen_range` over an inclusive
/// range: the value drawn lies in `lo..=hi`. `gen_range` panics only on an
/// empty range; `thread_rng` panics only if the operating system's entropy
/// source fails when it is first seeded, which no argument can cause.
#[verifier::external_body]
fn draw_between(lo: u32, hi: u32) -> (r: u32)
    requires
        lo <= hi,
    ensures
        lo <= r <= hi,
{
    rand::thread_rng().gen_range(lo..=hi)
}

/// Draws a fresh frequency and drive amount, each uniformly from its range.
pub fn sample_params() -> (r: TimbreParams)
    ensures
        r.in_range(),
{
    let frequency = draw_between(FREQUENCY_MIN, FREQUENCY_MAX);
    let drive = draw_between(DRIVE_MIN, DRIVE_MAX);
    TimbreParams { frequency, drive }
}

/// A voice for the instrument with freshly drawn parameters, or an error for
/// an instrument that has no generator (then nothing is drawn).
pub fn voice_for(instrument: InstrumentType) -> (r: Result<Voice, SynthError>)
    ensures
        r is Ok <==> is_supported(instrument),
        r matches Ok(v) ==> v.wf() && v.instrument == instrument,
        r matches Err(e) ==> e == SynthError::UnsupportedInstrument,
{
    match instrument {
        InstrumentType::Kick | InstrumentType::Snare => Voice::with_params(
            instrument,
            sample_params(),
        ),
        _ => Err(SynthError::UnsupportedInstrument),
    }
}

} // verus!
