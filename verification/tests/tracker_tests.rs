use tracker_tui::column::Column;
use tracker_tui::tracker::{Tracker, TrackerStep, DEFAULT_STEPS, MAX_STEPS};

fn tracker() -> Tracker {
    Tracker::new(DEFAULT_STEPS)
}

#[test]
fn new_clamps_step_count_and_starts_at_top() {
    let t = tracker();
    assert_eq!(t.active_steps, 64);
    assert_eq!(t.cursor_row, 0);
    assert_eq!(t.cursor_col, Column::Note);
    assert_eq!(t.steps.len(), MAX_STEPS);
    assert_eq!(t.table_state.selected(), Some(0));
    assert_eq!(t.bpm, 120);
    assert!(t.steps.iter().all(|s| *s == TrackerStep::default()));
    assert_eq!(Tracker::new(0).active_steps, 1);
    assert_eq!(Tracker::new(1000).active_steps, MAX_STEPS);
    assert_eq!(Tracker::new(256).active_steps, 256);
}

#[test]
fn default_step_is_c4_half_length_gate_off() {
    let s = TrackerStep::default();
    assert_eq!(s, TrackerStep { note: 60, vel: 100, gate: false, length: 16 });
}

#[test]
fn move_up_wraps_to_last_active_row() {
    let mut t = tracker();
    t.move_up();
    assert_eq!(t.cursor_row, 63);
    assert_eq!(t.table_state.selected(), Some(63));
    t.move_up();
    assert_eq!(t.cursor_row, 62);
    assert_eq!(t.table_state.selected(), Some(62));
}

#[test]
fn move_down_wraps_to_first_row() {
    let mut t = tracker();
    t.move_down();
    assert_eq!(t.cursor_row, 1);
    assert_eq!(t.table_state.selected(), Some(1));
    t.move_up();
    t.move_up();
    assert_eq!(t.cursor_row, 63);
    t.move_down();
    assert_eq!(t.cursor_row, 0);
    assert_eq!(t.table_state.selected(), Some(0));
}

#[test]
fn move_down_then_up_returns_to_row() {
    let mut t = tracker();
    for _ in 0..10 {
        t.move_down();
    }
    t.move_down();
    t.move_up();
    assert_eq!(t.cursor_row, 10);
}

#[test]
fn grow_adds_a_step_until_the_maximum() {
    let mut t = tracker();
    assert_eq!(t.grow(), Some(65));
    assert_eq!(t.active_steps, 65);
    let mut full = Tracker::new(MAX_STEPS);
    assert_eq!(full.grow(), None);
    assert_eq!(full.active_steps, MAX_STEPS);
}

#[test]
fn shrink_removes_a_step_and_pulls_cursor_back() {
    let mut t = Tracker::new(4);
    t.move_up();
    assert_eq!(t.cursor_row, 3);
    assert_eq!(t.shrink(), Some(3));
    assert_eq!(t.cursor_row, 2);
    assert_eq!(t.table_state.selected(), Some(2));
    t.move_up();
    assert_eq!(t.shrink(), Some(2));
    assert_eq!(t.cursor_row, 1);
    let mut one = Tracker::new(1);
    assert_eq!(one.shrink(), None);
    assert_eq!(one.active_steps, 1);
}

#[test]
fn shrink_after_grow_restores_count_and_cursor() {
    let mut t = tracker();
    t.move_down();
    t.move_down();
    assert_eq!(t.grow(), Some(65));
    assert_eq!(t.shrink(), Some(64));
    assert_eq!(t.active_steps, 64);
    assert_eq!(t.cursor_row, 2);
}

#[test]
fn left_and_right_cycle_columns() {
    let mut t = tracker();
    t.move_right();
    assert_eq!(t.cursor_col, Column::Vel);
    t.move_left();
    t.move_left();
    assert_eq!(t.cursor_col, Column::Len);
}

#[test]
fn increment_and_decrement_each_column() {
    let mut t = tracker();
    assert!(t.increment());
    assert_eq!(t.steps[0].note, 61);
    assert!(t.decrement());
    assert!(t.decrement());
    assert_eq!(t.steps[0].note, 59);
    t.move_right();
    assert!(t.increment());
    assert_eq!(t.steps[0].vel, 101);
    t.move_right();
    assert!(t.increment());
    assert!(t.steps[0].gate);
    assert!(t.decrement());
    assert!(!t.steps[0].gate);
    t.move_right();
    assert!(t.decrement());
    assert_eq!(t.steps[0].length, 15);
    assert_eq!(t.steps[1], TrackerStep::default());
    assert_eq!(t.cursor_row, 0);
}

#[test]
fn edits_clamp_at_range_ends() {
    let mut t = tracker();
    for _ in 0..100 {
        t.increment();
    }
    assert_eq!(t.steps[0].note, 127);
    for _ in 0..200 {
        t.decrement();
    }
    assert_eq!(t.steps[0].note, 0);
    t.move_right();
    for _ in 0..40 {
        t.increment();
    }
    assert_eq!(t.steps[0].vel, 127);
    t.move_right();
    t.move_right();
    for _ in 0..40 {
        t.increment();
    }
    assert_eq!(t.steps[0].length, 32);
    for _ in 0..40 {
        t.decrement();
    }
    assert_eq!(t.steps[0].length, 0);
}

#[test]
fn increment_then_decrement_restores_step() {
    let mut t = tracker();
    let before = t.steps[0];
    t.increment();
    t.decrement();
    assert_eq!(t.steps[0], before);
}

#[test]
fn octave_up_and_down_on_note_column() {
    let mut t = tracker();
    assert!(t.octave_up());
    assert_eq!(t.steps[0].note, 72);
    assert!(t.octave_down());
    assert!(t.octave_down());
    assert_eq!(t.steps[0].note, 48);
    for _ in 0..10 {
        t.octave_up();
    }
    assert_eq!(t.steps[0].note, 127);
}

#[test]
fn octave_keys_do_nothing_off_the_note_column() {
    let mut t = tracker();
    t.move_right();
    assert!(!t.octave_up());
    assert!(!t.octave_down());
    assert_eq!(t.steps[0], TrackerStep::default());
}

#[test]
fn toggle_gate_twice_restores_step() {
    let mut t = tracker();
    t.move_down();
    assert!(t.toggle_gate());
    assert!(t.steps[1].gate);
    assert!(t.toggle_gate());
    assert_eq!(t.steps[1], TrackerStep::default());
}

#[test]
fn current_step_is_the_cursor_row() {
    let mut t = tracker();
    t.move_down();
    t.increment();
    assert_eq!(t.current_step().note, 61);
    assert_eq!(*t.current_step(), t.steps[1]);
}
