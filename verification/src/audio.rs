//! What a chime plays: the tones of a ring, in the order in which they are
//! handed to the sound device.

use crate::notes::{chord_notes, chord_notes_spec, frequency_centihertz, note_centihertz};
use vstd::prelude::*;
use vstd::string::StringExecFns;

verus! {

/// How long a tone sounds where the ring does not say, in milliseconds.
pub const DEFAULT_DURATION_MS: u64 = 500;

/// One tone to play.
#[derive(Clone, Copy, Debug, PartialEq, Eq, Structural)]
pub struct Tone {
    /// The pitch, in hundredths of a hertz.
    pub centihertz: u32,
    pub duration_ms: u64,
}

impl DeepView for Tone {
    type V = Tone;

    open spec fn deep_view(&self) -> Tone {
        *self
    }
}

/// The tones of a list of notes: one for each note that has a name, in the
/// order of the list. A note without a name is passed over.
pub open spec fn note_tones(notes: Seq<Seq<char>>, duration_ms: u64) -> Seq<Tone>
    decreases notes.len(),
{
    if notes.len() == 0 {
        Seq::empty()
    } else {
        let before = note_tones(notes.drop_last(), duration_ms);
        match note_centihertz(notes.last()) {
            Some(centihertz) => before.push(Tone { centihertz, duration_ms }),
            None => before,
        }
    }
}

/// The tones of a list of chords: the tones of the notes of each chord, in
/// the order of the list.
pub open spec fn chord_tones(chords: Seq<Seq<char>>, duration_ms: u64) -> Seq<Tone>
    decreases chords.len(),
{
    if chords.len() == 0 {
        Seq::empty()
    } else {
        chord_tones(chords.drop_last(), duration_ms) + note_tones(
            chord_notes_spec(chords.last()),
            duration_ms,
        )
    }
}

/// The tones of a ring: those of its notes, then those of its chords; for a
/// ring that names neither notes nor chords, the notes C4, E4 and G4. Each
/// tone lasts as long as the ring says, or half a second.
pub open spec fn chime_tones(
    notes: Option<Seq<Seq<char>>>,
    chords: Option<Seq<Seq<char>>>,
    duration_ms: Option<u64>,
) -> Seq<Tone> {
    let duration = match duration_ms {
        Some(d) => d,
        None => DEFAULT_DURATION_MS,
    };
    let from_notes = match notes {
        Some(list) => note_tones(list, duration),
        None => Seq::empty(),
    };
    let from_chords = match chords {
        Some(list) => chord_tones(list, duration),
        None => Seq::empty(),
    };
    let by_default = if notes is None && chords is None {
        note_tones(seq!["C4"@, "E4"@, "G4"@], duration)
    } else {
        Seq::empty()
    };
    from_notes + from_chords + by_default
}

/// Adds the tones of `notes` to `tones`.
fn push_note_tones(tones: &mut Vec<Tone>, notes: &Vec<String>, duration_ms: u64)
    ensures
        final(tones)@ == old(tones)@ + note_tones(notes.deep_view(), duration_ms),
{
    let ghost start = tones@;
    let ghost all = notes.deep_view();
    let mut i: usize = 0;
    while i < notes.len()
        invariant
            i <= notes.len(),
            all == notes.deep_view(),
            tones@ == start + note_tones(all.take(i as int), duration_ms),
        decreases notes.len() - i,
    {
        let ghost more = all.take(i + 1);
        assert(more.drop_last() =~= all.take(i as int));
        match frequency_centihertz(notes[i].as_str()) {
            Some(centihertz) => {
                tones.push(Tone { centihertz, duration_ms });
            },
            None => {},
        }
        i += 1;
    }
    assert(all.take(notes.len() as int) =~= all);
}

/// The tones of a list of notes.
pub fn tones_of_notes(notes: &Vec<String>, duration_ms: u64) -> (tones: Vec<Tone>)
    ensures
        tones@ == note_tones(notes.deep_view(), duration_ms),
{
    let mut tones: Vec<Tone> = Vec::new();
    push_note_tones(&mut tones, notes, duration_ms);
    tones
}

/// Adds the tones of `chords` to `tones`.
fn push_chord_tones(tones: &mut Vec<Tone>, chords: &Vec<String>, duration_ms: u64)
    ensures
        final(tones)@ == old(tones)@ + chord_tones(chords.deep_view(), duration_ms),
{
    let ghost start = tones@;
    let ghost all = chords.deep_view();
    let mut i: usize = 0;
    while i < chords.len()
        invariant
            i <= chords.len(),
            all == chords.deep_view(),
            tones@ == start + chord_tones(all.take(i as int), duration_ms),
        decreases chords.len() - i,
    {
        let ghost more = all.take(i + 1);
        assert(more.drop_last() =~= all.take(i as int));
        let notes = chord_notes(chords[i].as_str());
        push_note_tones(tones, &notes, duration_ms);
        i += 1;
    }
    assert(all.take(chords.len() as int) =~= all);
}

/// The tones of a list of chords.
pub fn tones_of_chords(chords: &Vec<String>, duration_ms: u64) -> (tones: Vec<Tone>)
    ensures
        tones@ == chord_tones(chords.deep_view(), duration_ms),
{
    let mut tones: Vec<Tone> = Vec::new();
    push_chord_tones(&mut tones, chords, duration_ms);
    tones
}

/// The tones of a ring, in the order in which they are played.
pub fn tones_of_chime(
    notes: &Option<Vec<String>>,
    chords: &Option<Vec<String>>,
    duration_ms: Option<u64>,
) -> (tones: Vec<Tone>)
    ensures
        tones@ == chime_tones(notes.deep_view(), chords.deep_view(), duration_ms),
{
    let duration = match duration_ms {
        Some(d) => d,
        None => DEFAULT_DURATION_MS,
    };
    let mut tones: Vec<Tone> = Vec::new();
    if let Some(list) = notes {
        push_note_tones(&mut tones, list, duration);
    }
    if let Some(list) = chords {
        push_chord_tones(&mut tones, list, duration);
    }
    if notes.is_none() && chords.is_none() {
        let mut fallback: Vec<String> = Vec::new();
        fallback.push(String::from_str("C4"));
        fallback.push(String::from_str("E4"));
        fallback.push(String::from_str("G4"));
        assert(fallback.deep_view() =~= seq!["C4"@, "E4"@, "G4"@]);
        push_note_tones(&mut tones, &fallback, duration);
    }
    tones
}

} // verus!
