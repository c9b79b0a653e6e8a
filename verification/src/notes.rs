//! Musical notes and chords by name.

use crate::text::str_eq;
use vstd::prelude::*;
use vstd::string::StringExecFns;

verus! {

/// The pitch of a note, in hundredths of a hertz, for the notes that have a
/// name here. A4 is 440 Hz.
pub open spec fn note_centihertz(note: Seq<char>) -> Option<u32> {
    if note == "A4"@ {
        Some(44000u32)
    } else if note == "A#4"@ {
        Some(46616u32)
    } else if note == "B4"@ {
        Some(49388u32)
    } else if note == "C4"@ {
        Some(26163u32)
    } else if note == "C#4"@ {
        Some(27718u32)
    } else if note == "D4"@ {
        Some(29366u32)
    } else if note == "D#4"@ {
        Some(31113u32)
    } else if note == "E4"@ {
        Some(32963u32)
    } else if note == "F4"@ {
        Some(34923u32)
    } else if note == "F#4"@ {
        Some(36999u32)
    } else if note == "G4"@ {
        Some(39200u32)
    } else if note == "G#4"@ {
        Some(41530u32)
    } else if note == "C5"@ {
        Some(52325u32)
    } else if note == "D5"@ {
        Some(58733u32)
    } else if note == "E5"@ {
        Some(65925u32)
    } else if note == "F5"@ {
        Some(69846u32)
    } else if note == "G5"@ {
        Some(78399u32)
    } else if note == "A5"@ {
        Some(88000u32)
    } else if note == "B5"@ {
        Some(98777u32)
    } else {
        None
    }
}

/// The notes of a chord, lowest first, for the chords that have a name here;
/// no notes for any other.
pub open spec fn chord_notes_spec(chord: Seq<char>) -> Seq<Seq<char>> {
    if chord == "C"@ {
        seq!["C4"@, "E4"@, "G4"@]
    } else if chord == "Am"@ {
        seq!["A4"@, "C5"@, "E5"@]
    } else if chord == "F"@ {
        seq!["F4"@, "A4"@, "C5"@]
    } else if chord == "G"@ {
        seq!["G4"@, "B4"@, "D5"@]
    } else if chord == "Dm"@ {
        seq!["D4"@, "F4"@, "A4"@]
    } else if chord == "Em"@ {
        seq!["E4"@, "G4"@, "B4"@]
    } else {
        Seq::empty()
    }
}

/// The pitch of a note, in hundredths of a hertz.
pub fn frequency_centihertz(note: &str) -> (pitch: Option<u32>)
    ensures
        pitch == note_centihertz(note@),
{
    if str_eq(note, "A4") {
        Some(44000)
    } else if str_eq(note, "A#4") {
        Some(46616)
    } else if str_eq(note, "B4") {
        Some(49388)
    } else if str_eq(note, "C4") {
        Some(26163)
    } else if str_eq(note, "C#4") {
        Some(27718)
    } else if str_eq(note, "D4") {
        Some(29366)
    } else if str_eq(note, "D#4") {
        Some(31113)
    } else if str_eq(note, "E4") {
        Some(32963)
    } else if str_eq(note, "F4") {
        Some(34923)
    } else if str_eq(note, "F#4") {
        Some(36999)
    } else if str_eq(note, "G4") {
        Some(39200)
    } else if str_eq(note, "G#4") {
        Some(41530)
    } else if str_eq(note, "C5") {
        Some(52325)
    } else if str_eq(note, "D5") {
        Some(58733)
    } else if str_eq(note, "E5") {
        Some(65925)
    } else if str_eq(note, "F5") {
        Some(69846)
    } else if str_eq(note, "G5") {
        Some(78399)
    } else if str_eq(note, "A5") {
        Some(88000)
    } else if str_eq(note, "B5") {
        Some(98777)
    } else {
        None
    }
}

fn triad(low: &str, middle: &str, high: &str) -> (notes: Vec<String>)
    ensures
        notes.deep_view() == seq![low@, middle@, high@],
{
    let mut notes: Vec<String> = Vec::new();
    notes.push(String::from_str(low));
    notes.push(String::from_str(middle));
    notes.push(String::from_str(high));
    notes
}

/// The notes of a chord, lowest first; none for a chord without a name here.
pub fn chord_notes(chord: &str) -> (notes: Vec<String>)
    ensures
        notes.deep_view() == chord_notes_spec(chord@),
{
    if str_eq(chord, "C") {
        triad("C4", "E4", "G4")
    } else if str_eq(chord, "Am") {
        triad("A4", "C5", "E5")
    } else if str_eq(chord, "F") {
        triad("F4", "A4", "C5")
    } else if str_eq(chord, "G") {
        triad("G4", "B4", "D5")
    } else if str_eq(chord, "Dm") {
        triad("D4", "F4", "A4")
    } else if str_eq(chord, "Em") {
        triad("E4", "G4", "B4")
    } else {
        let notes: Vec<String> = Vec::new();
        notes
    }
}

} // verus!
