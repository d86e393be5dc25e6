//! What each row of the tracker grid shows: its labels, its tone and which of
//! its cells the cursor highlights. Colours and layout are left to the widget
//! that draws it.
use vstd::prelude::*;
use crate::column::Column;
use crate::pitch::{midi_note_display, note_display};
use crate::tracker::{Tracker, TrackerStep};

verus! {

/// Upper-case hexadecimal digit of `d` (0 to 15).
pub open spec fn hex_digit(d: int) -> char {
    if d < 10 {
        (48 + d) as char
    } else {
        (55 + d) as char
    }
}

/// The value of an upper-case hexadecimal digit character ('0' to '9' are 0
/// to 9, 'A' to 'F' are 10 to 15); -1 for any other character.
pub open spec fn hex_char_value(c: char) -> int {
    if '0' <= c && c <= '9' {
        c as int - '0' as int
    } else if 'A' <= c && c <= 'F' {
        c as int - 'A' as int + 10
    } else {
        -1
    }
}

/// Two-digit upper-case hexadecimal text of a byte.
pub open spec fn hex2(v: int) -> Seq<char> {
    seq![hex_digit(v / 16), hex_digit(v % 16)]
}

/// `s` followed by spaces up to `width` characters (unchanged if already that
/// wide).
pub open spec fn pad_right(s: Seq<char>, width: int) -> Seq<char> {
    if s.len() >= width {
        s
    } else {
        s + Seq::new((width - s.len()) as nat, |i: int| ' ')
    }
}

/// How the background of a row is toned: the cursor's row stands out, every
/// fourth row marks a beat, the rest are plain.
#[derive(Clone, Copy, PartialEq, Eq, Debug, Structural)]
pub enum RowTone {
    Cursor,
    Beat,
    Normal,
}

/// The content of one row of the grid.
pub struct RowView {
    /// Row number, two hex digits and a space.
    pub index_label: String,
    pub tone: RowTone,
    /// Note name padded to five characters.
    pub note_label: String,
    /// Velocity level as two hex digits, with a space on each side.
    pub vel_label: String,
    pub gate_on: bool,
    /// Gate length, in 32nds of a step.
    pub length: i32,
    /// The cell under the cursor, if the cursor is on this row.
    pub highlighted: Option<Column>,
}

/// The tone of row `i` when the cursor is on row `cursor`.
pub open spec fn row_tone(i: int, cursor: int) -> RowTone {
    if i == cursor {
        RowTone::Cursor
    } else if i % 4 == 0 {
        RowTone::Beat
    } else {
        RowTone::Normal
    }
}

fn hex_digit_str(d: u8) -> (s: &'static str)
    requires
        d < 16,
    ensures
        s@ == seq![hex_digit(d as int)],
{
    if d == 0 {
        proof { reveal_strlit("0"); }
        "0"
    } else if d == 1 {
        proof { reveal_strlit("1"); }
        "1"
    } else if d == 2 {
        proof { reveal_strlit("2"); }
        "2"
    } else if d == 3 {
        proof { reveal_strlit("3"); }
        "3"
    } else if d == 4 {
        proof { reveal_strlit("4"); }
        "4"
    } else if d == 5 {
        proof { reveal_strlit("5"); }
        "5"
    } else if d == 6 {
        proof { reveal_strlit("6"); }
        "6"
    } else if d == 7 {
        proof { reveal_strlit("7"); }
        "7"
    } else if d == 8 {
        proof { reveal_strlit("8"); }
        "8"
    } else if d == 9 {
        proof { reveal_strlit("9"); }
        "9"
    } else if d == 10 {
        proof { reveal_strlit("A"); }
        "A"
    } else if d == 11 {
        proof { reveal_strlit("B"); }
        "B"
    } else if d == 12 {
        proof { reveal_strlit("C"); }
        "C"
    } else if d == 13 {
        proof { reveal_strlit("D"); }
        "D"
    } else if d == 14 {
        proof { reveal_strlit("E"); }
        "E"
    } else {
        proof { reveal_strlit("F"); }
        "F"
    }
}

/// Two-digit upper-case hexadecimal text of a byte, e.g. "7F".
pub fn hex_byte(v: u8) -> (s: String)
    ensures
        s@ == hex2(v as int),
        s@.len() == 2,
        hex_char_value(s@[0]) * 16 + hex_char_value(s@[1]) == v,
        0 <= hex_char_value(s@[0]) && 0 <= hex_char_value(s@[1]),
{
    proof {
        lemma_hex_text_reads_back(v as int);
    }
    let mut s = String::from_str(hex_digit_str(v / 16));
    s.append(hex_digit_str(v % 16));
    s
}

/// The display text of a MIDI note number padded with spaces to five
/// characters, the width of the note column.
pub fn note_cell(midi: i32) -> (s: String)
    ensures
        s@ == pad_right(note_display(midi as int), 5),
        s@.len() == 5,
{
    let mut s = midi_note_display(midi);
    if s.unicode_len() < 4 {
        proof { reveal_strlit("  "); }
        s.append("  ");
    } else {
        proof { reveal_strlit(" "); }
        s.append(" ");
    }
    s
}

/// The content of row `i`: its labels, its tone, and the cell that the cursor
/// highlights when it is on this row.
pub fn row_view(tracker: &Tracker, i: usize) -> (r: RowView)
    requires
        tracker.wf(),
        i < tracker.active_steps,
    ensures
        r.index_label@ == hex2(i as int) + seq![' '],
        r.tone == row_tone(i as int, tracker.cursor_row as int),
        r.note_label@ == pad_right(note_display(tracker.steps@[i as int].note as int), 5),
        r.vel_label@ == seq![' '] + hex2(tracker.steps@[i as int].vel as int) + seq![' '],
        r.gate_on == tracker.steps@[i as int].gate,
        r.length == tracker.steps@[i as int].length,
        r.highlighted == if i == tracker.cursor_row {
            Some(tracker.cursor_col)
        } else {
            None::<Column>
        },
{
    let step: TrackerStep = tracker.steps[i];
    assert(crate::tracker::step_valid(tracker.steps@[i as int]));
    let tone = if i == tracker.cursor_row {
        RowTone::Cursor
    } else if i % 4 == 0 {
        RowTone::Beat
    } else {
        RowTone::Normal
    };
    let mut index_label = hex_byte(i as u8);
    proof { reveal_strlit(" "); }
    index_label.append(" ");
    let mut vel_label = String::from_str(" ");
    let hex = hex_byte(step.vel as u8);
    vel_label.append(hex.as_str());
    vel_label.append(" ");
    RowView {
        index_label,
        tone,
        note_label: note_cell(step.note),
        vel_label,
        gate_on: step.gate,
        length: step.length,
        highlighted: if i == tracker.cursor_row {
            Some(tracker.cursor_col)
        } else {
            None
        },
    }
}

/// Each digit character reads back as the digit it was written for.
pub proof fn lemma_hex_digit_reads_back(d: int)
    requires
        0 <= d < 16,
    ensures
        hex_char_value(hex_digit(d)) == d,
{
}

/// The two-digit text of a byte consists of hexadecimal digits and reads back,
/// in base 16, as that byte; so different bytes (and different grid rows) get
/// different texts.
pub proof fn lemma_hex_text_reads_back(v: int)
    requires
        0 <= v < 256,
    ensures
        hex2(v).len() == 2,
        0 <= hex_char_value(hex2(v)[0]) < 16,
        0 <= hex_char_value(hex2(v)[1]) < 16,
        hex_char_value(hex2(v)[0]) * 16 + hex_char_value(hex2(v)[1]) == v,
{
    lemma_hex_digit_reads_back(v / 16);
    lemma_hex_digit_reads_back(v % 16);
}

/// Different bytes are shown as different texts.
pub proof fn lemma_hex_text_injective(v: int, w: int)
    requires
        0 <= v < 256,
        0 <= w < 256,
        v != w,
    ensures
        hex2(v) != hex2(w),
{
    lemma_hex_text_reads_back(v);
    lemma_hex_text_reads_back(w);
}

/// The row under the cursor is toned as the cursor's row; any other row is a
/// beat row exactly when its number is a multiple of four, and plain otherwise.
pub proof fn lemma_row_tones(i: int, cursor: int)
    ensures
        (row_tone(i, cursor) == RowTone::Cursor) == (i == cursor),
        (row_tone(i, cursor) == RowTone::Beat) == (i != cursor && i % 4 == 0),
        (row_tone(i, cursor) == RowTone::Normal) == (i != cursor && i % 4 != 0),
{
}

/// Padding keeps the text as its prefix, only adds spaces, and makes it at
/// least `width` long (exactly `width` when it was shorter).
pub proof fn lemma_pad_right(s: Seq<char>, width: int)
    ensures
        pad_right(s, width).len() == if s.len() >= width { s.len() as int } else { width },
        pad_right(s, width).subrange(0, s.len() as int) =~= s,
        forall|k: int| s.len() <= k < pad_right(s, width).len() ==> #[trigger] pad_right(s, width)[k] == ' ',
{
}

} // verus!
