//! The tone schedule of a parsed message: which tones and silences to play,
//! in order, and for how long.

use vstd::prelude::*;
use crate::message::{Message, Unit};

verus! {

/// The largest unit duration, so that every derived duration fits in a `u64`.
pub const MAX_UNIT_MS: u64 = 0x5555_5555_5555_5555;

/// The unit duration of the standard playback, in milliseconds.
pub const STANDARD_UNIT_MS: u64 = 80;

/// The tone frequency of the standard playback, in hertz.
pub const STANDARD_TONE_HZ: u32 = 900;

/// Playback parameters: the unit duration, the pause for a word separator,
/// and the tone frequency.
#[derive(Clone, Copy, PartialEq, Eq, Structural, Debug)]
pub struct Timing {
    pub unit_ms: u64,
    pub word_gap_ms: u64,
    pub tone_hz: u32,
}

/// One step of playback.
#[derive(Clone, Copy, PartialEq, Eq, Structural, Debug)]
pub enum Cue {
    Tone { hz: u32, ms: u64 },
    Silence { ms: u64 },
}

impl Timing {
    /// Every duration derived from the unit fits in a `u64`.
    pub open spec fn valid(&self) -> bool {
        self.unit_ms <= MAX_UNIT_MS
    }

    /// A timing of the given unit in which a word separator pauses as long as
    /// a letter gap, three units.
    pub fn with_unit(unit_ms: u64, tone_hz: u32) -> (r: Timing)
        requires
            unit_ms <= MAX_UNIT_MS,
        ensures
            r.valid(),
            r.unit_ms == unit_ms,
            r.word_gap_ms == 3 * unit_ms,
            r.tone_hz == tone_hz,
    {
        Timing { unit_ms, word_gap_ms: 3 * unit_ms, tone_hz }
    }

    /// The standard playback: 80 ms units and a 900 Hz tone.
    pub fn standard() -> (r: Timing)
        ensures
            r.valid(),
            r.unit_ms == STANDARD_UNIT_MS,
            r.word_gap_ms == 3 * STANDARD_UNIT_MS,
            r.tone_hz == STANDARD_TONE_HZ,
    {
        Timing::with_unit(STANDARD_UNIT_MS, STANDARD_TONE_HZ)
    }
}

/// What one unit plays: a dot is a one-unit tone, a dash a three-unit tone,
/// each followed by a one-unit silence; a gap is a three-unit silence and a
/// word separator a silence of the word gap.
pub open spec fn cues_of(u: Unit, t: Timing) -> Seq<Cue> {
    match u {
        Unit::Dot => seq![
            Cue::Tone { hz: t.tone_hz, ms: t.unit_ms },
            Cue::Silence { ms: t.unit_ms },
        ],
        Unit::Dash => seq![
            Cue::Tone { hz: t.tone_hz, ms: (3 * t.unit_ms) as u64 },
            Cue::Silence { ms: t.unit_ms },
        ],
        Unit::Space => seq![Cue::Silence { ms: (3 * t.unit_ms) as u64 }],
        Unit::Slash => seq![Cue::Silence { ms: t.word_gap_ms }],
    }
}

/// What a sequence of units plays: the cues of each unit, in order.
pub open spec fn schedule_of(units: Seq<Unit>, t: Timing) -> Seq<Cue>
    decreases units.len(),
{
    if units.len() == 0 {
        Seq::empty()
    } else {
        schedule_of(units.drop_last(), t) + cues_of(units.last(), t)
    }
}

/// The cues that one unit plays.
pub fn cues_for(unit: Unit, timing: &Timing) -> (r: Vec<Cue>)
    requires
        timing.valid(),
    ensures
        r@ == cues_of(unit, *timing),
{
    let unit_ms = timing.unit_ms;
    let hz = timing.tone_hz;
    let r = match unit {
        Unit::Dot => vec![Cue::Tone { hz, ms: unit_ms }, Cue::Silence { ms: unit_ms }],
        Unit::Dash => vec![Cue::Tone { hz, ms: 3 * unit_ms }, Cue::Silence { ms: unit_ms }],
        Unit::Space => vec![Cue::Silence { ms: 3 * unit_ms }],
        Unit::Slash => vec![Cue::Silence { ms: timing.word_gap_ms }],
    };
    assert(r@ =~= cues_of(unit, *timing));
    r
}

/// The whole playback of a message, unit after unit; an empty message plays
/// nothing.
pub fn schedule(message: &Message, timing: &Timing) -> (r: Vec<Cue>)
    requires
        timing.valid(),
    ensures
        r@ == schedule_of(message@, *timing),
{
    let mut out: Vec<Cue> = Vec::new();
    let mut i: usize = 0;
    while i < message.0.len()
        invariant
            timing.valid(),
            i <= message@.len(),
            out@ == schedule_of(message@.take(i as int), *timing),
        decreases message@.len() - i,
    {
        let mut cues = cues_for(message.0[i], timing);
        out.append(&mut cues);
        assert(message@.take(i + 1).drop_last() =~= message@.take(i as int));
        i = i + 1;
    }
    assert(message@.take(i as int) =~= message@);
    out
}

} // verus!
