use tracker_tui::column::Column;
use tracker_tui::display::{hex_byte, note_cell, row_view, RowTone};
use tracker_tui::pitch::midi_note_display;
use tracker_tui::tracker::Tracker;
use tracker_tui::visual::VisMode;

#[test]
fn note_names_follow_tracker_spelling() {
    assert_eq!(midi_note_display(60), "C-4");
    assert_eq!(midi_note_display(61), "C#4");
    assert_eq!(midi_note_display(69), "A-4");
    assert_eq!(midi_note_display(70), "A#4");
    assert_eq!(midi_note_display(71), "B-4");
    assert_eq!(midi_note_display(12), "C-0");
    assert_eq!(midi_note_display(127), "G-9");
}

#[test]
fn note_names_of_octave_minus_one_are_four_wide() {
    assert_eq!(midi_note_display(0), "C--1");
    assert_eq!(midi_note_display(11), "B--1");
    assert_eq!(midi_note_display(0).len(), 4);
    for m in 12..128 {
        assert_eq!(midi_note_display(m).len(), 3);
    }
}

#[test]
fn note_numbers_outside_midi_range_are_clamped() {
    assert_eq!(midi_note_display(-5), "C--1");
    assert_eq!(midi_note_display(200), "G-9");
}

#[test]
fn note_cell_pads_to_five() {
    assert_eq!(note_cell(60), "C-4  ");
    assert_eq!(note_cell(3), "D#-1 ");
}

#[test]
fn hex_byte_is_two_upper_case_digits() {
    assert_eq!(hex_byte(0), "00");
    assert_eq!(hex_byte(0x7F), "7F");
    assert_eq!(hex_byte(100), "64");
    assert_eq!(hex_byte(255), "FF");
    assert_eq!(hex_byte(10), "0A");
}

#[test]
fn row_view_of_cursor_row() {
    let t = Tracker::new(8);
    let r = row_view(&t, 0);
    assert_eq!(r.index_label, "00 ");
    assert_eq!(r.tone, RowTone::Cursor);
    assert_eq!(r.note_label, "C-4  ");
    assert_eq!(r.vel_label, " 64 ");
    assert!(!r.gate_on);
    assert_eq!(r.length, 16);
    assert_eq!(r.highlighted, Some(Column::Note));
}

#[test]
fn row_view_tones_beats_every_fourth_row() {
    let mut t = Tracker::new(64);
    t.move_down();
    let r4 = row_view(&t, 4);
    assert_eq!(r4.tone, RowTone::Beat);
    assert_eq!(r4.highlighted, None);
    let r0 = row_view(&t, 0);
    assert_eq!(r0.tone, RowTone::Beat);
    let r2 = row_view(&t, 2);
    assert_eq!(r2.tone, RowTone::Normal);
    let r1 = row_view(&t, 1);
    assert_eq!(r1.tone, RowTone::Cursor);
    let r26 = row_view(&t, 26);
    assert_eq!(r26.index_label, "1A ");
}

#[test]
fn row_view_shows_edits() {
    let mut t = Tracker::new(8);
    t.move_right();
    t.increment();
    t.move_right();
    t.toggle_gate();
    let r = row_view(&t, 0);
    assert_eq!(r.vel_label, " 65 ");
    assert!(r.gate_on);
    assert_eq!(r.highlighted, Some(Column::Gate));
}

#[test]
fn column_names_and_cycle() {
    assert_eq!(Column::Note.name(), "NOTE");
    assert_eq!(Column::Vel.name(), "VEL");
    assert_eq!(Column::Gate.name(), "GATE");
    assert_eq!(Column::Len.name(), "LEN");
    assert_eq!(Column::Note.next(), Column::Vel);
    assert_eq!(Column::Len.next(), Column::Note);
    assert_eq!(Column::Note.prev(), Column::Len);
    assert_eq!(Column::Gate.prev(), Column::Vel);
    for c in [Column::Note, Column::Vel, Column::Gate, Column::Len] {
        assert_eq!(c.next().prev(), c);
        assert_eq!(c.prev().next(), c);
        assert_eq!(c.next().next().next().next(), c);
    }
}

#[test]
fn vis_mode_cycles_through_four() {
    assert_eq!(VisMode::Both.cycle(), VisMode::OscOnly);
    assert_eq!(VisMode::OscOnly.cycle(), VisMode::SpecOnly);
    assert_eq!(VisMode::SpecOnly.cycle(), VisMode::Hidden);
    assert_eq!(VisMode::Hidden.cycle(), VisMode::Both);
    let m = VisMode::SpecOnly;
    assert_eq!(m.cycle().cycle().cycle().cycle(), m);
}

#[test]
fn vis_mode_labels_and_heights() {
    assert_eq!(VisMode::Both.label(), "OSC+SPEC");
    assert_eq!(VisMode::OscOnly.label(), "OSC");
    assert_eq!(VisMode::SpecOnly.label(), "SPEC");
    assert_eq!(VisMode::Hidden.label(), "OFF");
    assert_eq!(VisMode::Both.height(), 10);
    assert_eq!(VisMode::OscOnly.height(), 10);
    assert_eq!(VisMode::Hidden.height(), 0);
}
