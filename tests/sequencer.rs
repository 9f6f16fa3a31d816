use mead::message::{Message, Unit};
use mead::sequencer::{cues_for, schedule, Cue, Timing};

fn total(cues: &[Cue]) -> u64 {
    cues.iter().map(|c| match c {
        Cue::Tone { ms, .. } => *ms,
        Cue::Silence { ms } => *ms,
    }).sum()
}

#[test]
fn single_dot_at_eighty_ms() {
    let t = Timing::with_unit(80, 900);
    let cues = schedule(&Message(vec![Unit::Dot]), &t);
    assert_eq!(cues, vec![Cue::Tone { hz: 900, ms: 80 }, Cue::Silence { ms: 80 }]);
    assert_eq!(total(&cues), 160);
}

#[test]
fn empty_message_plays_nothing() {
    assert!(schedule(&Message(vec![]), &Timing::standard()).is_empty());
}

#[test]
fn standard_timing() {
    let t = Timing::standard();
    assert_eq!(t, Timing { unit_ms: 80, word_gap_ms: 240, tone_hz: 900 });
}

#[test]
fn cues_of_each_unit() {
    let t = Timing::with_unit(10, 440);
    assert_eq!(cues_for(Unit::Dot, &t), vec![Cue::Tone { hz: 440, ms: 10 }, Cue::Silence { ms: 10 }]);
    assert_eq!(cues_for(Unit::Dash, &t), vec![Cue::Tone { hz: 440, ms: 30 }, Cue::Silence { ms: 10 }]);
    assert_eq!(cues_for(Unit::Space, &t), vec![Cue::Silence { ms: 30 }]);
    assert_eq!(cues_for(Unit::Slash, &t), vec![Cue::Silence { ms: 30 }]);
}

#[test]
fn word_gap_is_configurable() {
    let t = Timing { unit_ms: 10, word_gap_ms: 70, tone_hz: 440 };
    assert_eq!(cues_for(Unit::Slash, &t), vec![Cue::Silence { ms: 70 }]);
}

#[test]
fn schedule_of_sos() {
    let t = Timing::standard();
    let m = Message::parse("... --- ...").unwrap();
    let cues = schedule(&m, &t);
    assert_eq!(cues.len(), 9 * 2 + 2);
    assert_eq!(cues[0], Cue::Tone { hz: 900, ms: 80 });
    assert_eq!(cues[6], Cue::Silence { ms: 240 });
    assert_eq!(cues[7], Cue::Tone { hz: 900, ms: 240 });
    // 6 dots and 3 dashes, each followed by a unit gap, and two letter gaps
    assert_eq!(total(&cues), 80 * (6 * 2 + 3 * 4 + 2 * 3));
}
