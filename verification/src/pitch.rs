//! Note names for MIDI note numbers, in the classic tracker spelling.
use vstd::prelude::*;
use crate::tracker::clamp;

verus! {

/// Classic tracker name of the pitch class `i` (0 is C): natural notes are
/// padded with '-' so that every name is two characters.
pub open spec fn note_name(i: int) -> Seq<char> {
    if i == 0 {
        seq!['C', '-']
    } else if i == 1 {
        seq!['C', '#']
    } else if i == 2 {
        seq!['D', '-']
    } else if i == 3 {
        seq!['D', '#']
    } else if i == 4 {
        seq!['E', '-']
    } else if i == 5 {
        seq!['F', '-']
    } else if i == 6 {
        seq!['F', '#']
    } else if i == 7 {
        seq!['G', '-']
    } else if i == 8 {
        seq!['G', '#']
    } else if i == 9 {
        seq!['A', '-']
    } else if i == 10 {
        seq!['A', '#']
    } else {
        seq!['B', '-']
    }
}

/// The decimal digit `d` (0 to 9) as a character.
pub open spec fn digit_char(d: int) -> char {
    (48 + d) as char
}

/// Decimal text of an octave number from -1 to 9.
pub open spec fn octave_text(octave: int) -> Seq<char> {
    if octave < 0 {
        seq!['-', digit_char(-octave)]
    } else {
        seq![digit_char(octave)]
    }
}

/// The display text of a MIDI note number: the note number is first clamped to
/// 0 to 127, then written as its pitch-class name followed by its octave, where
/// MIDI 60 is in octave 4 (so MIDI 0 to 11 form octave -1).
pub open spec fn note_display(midi: int) -> Seq<char> {
    let m = clamp(midi, 0, 127);
    note_name(m % 12) + octave_text(m / 12 - 1)
}

fn note_name_str(i: i32) -> (s: &'static str)
    requires
        0 <= i < 12,
    ensures
        s@ == note_name(i as int),
{
    if i == 0 {
        proof { reveal_strlit("C-"); }
        "C-"
    } else if i == 1 {
        proof { reveal_strlit("C#"); }
        "C#"
    } else if i == 2 {
        proof { reveal_strlit("D-"); }
        "D-"
    } else if i == 3 {
        proof { reveal_strlit("D#"); }
        "D#"
    } else if i == 4 {
        proof { reveal_strlit("E-"); }
        "E-"
    } else if i == 5 {
        proof { reveal_strlit("F-"); }
        "F-"
    } else if i == 6 {
        proof { reveal_strlit("F#"); }
        "F#"
    } else if i == 7 {
        proof { reveal_strlit("G-"); }
        "G-"
    } else if i == 8 {
        proof { reveal_strlit("G#"); }
        "G#"
    } else if i == 9 {
        proof { reveal_strlit("A-"); }
        "A-"
    } else if i == 10 {
        proof { reveal_strlit("A#"); }
        "A#"
    } else {
        proof { reveal_strlit("B-"); }
        "B-"
    }
}

fn octave_str(octave: i32) -> (s: &'static str)
    requires
        -1 <= octave <= 9,
    ensures
        s@ == octave_text(octave as int),
{
    if octave == -1 {
        proof { reveal_strlit("-1"); }
        "-1"
    } else if octave == 0 {
        proof { reveal_strlit("0"); }
        "0"
    } else if octave == 1 {
        proof { reveal_strlit("1"); }
        "1"
    } else if octave == 2 {
        proof { reveal_strlit("2"); }
        "2"
    } else if octave == 3 {
        proof { reveal_strlit("3"); }
        "3"
    } else if octave == 4 {
        proof { reveal_strlit("4"); }
        "4"
    } else if octave == 5 {
        proof { reveal_strlit("5"); }
        "5"
    } else if octave == 6 {
        proof { reveal_strlit("6"); }
        "6"
    } else if octave == 7 {
        proof { reveal_strlit("7"); }
        "7"
    } else if octave == 8 {
        proof { reveal_strlit("8"); }
        "8"
    } else {
        proof { reveal_strlit("9"); }
        "9"
    }
}

/// Human-readable note name of a MIDI note number, e.g. "C-4", "A#3". The
/// number is clamped to 0 to 127 first.
pub fn midi_note_display(midi: i32) -> (s: String)
    ensures
        s@ == note_display(midi as int),
        s@.len() == if clamp(midi as int, 0, 127) < 12 { 4int } else { 3int },
{
    let m = if midi < 0 {
        0
    } else if midi > 127 {
        127
    } else {
        midi
    };
    let octave = m / 12 - 1;
    let idx = m % 12;
    let mut s = String::from_str(note_name_str(idx));
    s.append(octave_str(octave));
    s
}

/// The twelve pitch-class names in order from C: C-, C#, D-, D#, E-, F-, F#,
/// G-, G#, A-, A#, B-. A name is a letter followed by '#' for a sharp or '-'
/// for a natural note.
pub proof fn lemma_pitch_class_names()
    ensures
        note_name(0) =~= seq!['C', '-'],
        note_name(1) =~= seq!['C', '#'],
        note_name(2) =~= seq!['D', '-'],
        note_name(3) =~= seq!['D', '#'],
        note_name(4) =~= seq!['E', '-'],
        note_name(5) =~= seq!['F', '-'],
        note_name(6) =~= seq!['F', '#'],
        note_name(7) =~= seq!['G', '-'],
        note_name(8) =~= seq!['G', '#'],
        note_name(9) =~= seq!['A', '-'],
        note_name(10) =~= seq!['A', '#'],
        note_name(11) =~= seq!['B', '-'],
{
}

/// Different pitch classes have different names: they differ in the letter
/// or in the sharp sign.
pub proof fn lemma_pitch_class_names_distinct(i: int, j: int)
    requires
        0 <= i < 12,
        0 <= j < 12,
        i != j,
    ensures
        note_name(i).len() == 2,
        note_name(j).len() == 2,
        note_name(i)[0] != note_name(j)[0] || note_name(i)[1] != note_name(j)[1],
{
    lemma_pitch_class_names();
}

/// Every note whose pitch class is E (MIDI 4, 16, ..., 64, ...) is displayed
/// starting with "E-".
pub proof fn lemma_e_notes_are_named_e(m: int)
    requires
        0 <= m <= 127,
        m % 12 == 4,
    ensures
        note_display(m)[0] == 'E',
        note_display(m)[1] == '-',
{
    lemma_pitch_class_names();
}

/// Different MIDI notes are displayed differently: notes of one octave have
/// different names, and the same name in different octaves carries a
/// different octave number.
pub proof fn lemma_note_display_injective(m1: int, m2: int)
    requires
        0 <= m1 <= 127,
        0 <= m2 <= 127,
        m1 != m2,
    ensures
        note_display(m1) != note_display(m2),
{
    let a = note_display(m1);
    let b = note_display(m2);
    if m1 % 12 != m2 % 12 {
        lemma_pitch_class_names_distinct(m1 % 12, m2 % 12);
        assert(a[0] != b[0] || a[1] != b[1]);
    } else {
        let o1 = m1 / 12 - 1;
        let o2 = m2 / 12 - 1;
        assert(o1 != o2);
        assert(note_name(m1 % 12).len() == 2) by {
            lemma_pitch_class_names();
        }
        if o1 < 0 || o2 < 0 {
            assert(a.len() != b.len());
        } else {
            assert(a[2] == digit_char(o1));
            assert(b[2] == digit_char(o2));
            assert(a[2] != b[2]);
        }
    }
}

/// The octave number follows the name: for MIDI 12 to 127 it is the single
/// digit `m / 12 - 1` (so MIDI 60 is in octave 4), and MIDI 0 to 11 carry
/// "-1".
pub proof fn lemma_octave_digits(m: int)
    requires
        0 <= m <= 127,
    ensures
        m >= 12 ==> note_display(m).len() == 3 && note_display(m)[2] as int - '0' as int == m
            / 12 - 1,
        m < 12 ==> note_display(m).len() == 4 && note_display(m)[2] == '-' && note_display(m)[3]
            == '1',
{
    lemma_pitch_class_names();
}

} // verus!
