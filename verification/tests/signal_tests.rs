use tracker_tui::controls::{command_for, handle_key, Command, Key, KeyOutcome};
use tracker_tui::ring::{SampleRing, RING_SIZE};
use tracker_tui::tracker::{Tracker, TrackerStep};
use tracker_tui::trigger::{find_trigger, trigger_window_start, DISPLAY_SAMPLES};
use tracker_tui::visual::VisMode;
use tracker_tui::column::Column;

fn wave(len: usize, pairs: &[(usize, i32)]) -> Vec<i32> {
    let mut v = vec![0i32; len];
    for &(i, x) in pairs {
        v[i] = x;
    }
    v
}

#[test]
fn trigger_needs_arming_then_rise_then_confirmation() {
    let mut s = wave(600, &[]);
    s[10] = -5;
    s[20] = 5;
    s[21] = 1;
    s[22] = 1;
    s[23] = 1;
    assert_eq!(find_trigger(&s, -2, 2, 0, 3), Some(20));
}

#[test]
fn trigger_without_arming_is_none() {
    let mut s = wave(600, &[]);
    s[20] = 5;
    assert_eq!(find_trigger(&s, -2, 2, 0, 3), None);
}

#[test]
fn trigger_rejected_when_a_confirming_sample_dips() {
    let mut s = vec![1i32; 700];
    s[0] = -5;
    s[5] = 5;
    s[7] = -1;
    s[9] = 5;
    assert_eq!(find_trigger(&s, -2, 2, 0, 3), Some(9));
}

#[test]
fn trigger_before_arming_sample_does_not_count() {
    let mut s = vec![0i32; 700];
    s[3] = 5;
    s[4] = -5;
    s[6] = 5;
    assert_eq!(find_trigger(&s, -2, 2, 0, 3), Some(6));
}

#[test]
fn trigger_search_leaves_a_display_window() {
    let len = 600;
    let mut s = vec![1i32; len];
    s[0] = -5;
    let last = len - 3 - DISPLAY_SAMPLES;
    s[last] = 5;
    assert_eq!(find_trigger(&s, -2, 2, 0, 3), None);
    s[last - 1] = 5;
    assert_eq!(find_trigger(&s, -2, 2, 0, 3), Some(last - 1));
    let short = vec![0i32; 100];
    assert_eq!(find_trigger(&short, -2, 2, 0, 3), None);
}

#[test]
fn window_start_falls_back_to_zero() {
    let s = vec![0i32; RING_SIZE];
    assert_eq!(trigger_window_start(&s, -2, 2, 0, 3), 0);
    let mut t = vec![0i32; RING_SIZE];
    t[100] = -9;
    t[200] = 9;
    t[201] = 1;
    t[202] = 1;
    t[203] = 1;
    assert_eq!(trigger_window_start(&t, -2, 2, 0, 3), 200);
}

#[test]
fn ring_keeps_the_newest_samples() {
    let mut r = SampleRing::new(4, 0i32);
    assert_eq!(r.len(), 4);
    r.push(1);
    r.push(2);
    assert_eq!(r.as_slice(), &[0, 0, 1, 2]);
    r.push(3);
    r.push(4);
    r.push(5);
    assert_eq!(r.len(), 4);
    assert_eq!(r.as_slice(), &[2, 3, 4, 5]);
    let mut empty = SampleRing::new(0, 0i32);
    empty.push(7);
    assert_eq!(empty.as_slice(), &[7]);
}

#[test]
fn ring_of_ring_size() {
    let mut r = SampleRing::new(RING_SIZE, 0.0f32);
    r.push(0.5);
    let s = r.as_slice();
    assert_eq!(s.len(), RING_SIZE);
    assert_eq!(s[RING_SIZE - 1], 0.5);
}

#[test]
fn key_bindings() {
    assert_eq!(command_for(Key::Char('q')), Command::Quit);
    assert_eq!(command_for(Key::Char('Q')), Command::Quit);
    assert_eq!(command_for(Key::Char('V')), Command::CycleVis);
    assert_eq!(command_for(Key::Char('=')), Command::Increment);
    assert_eq!(command_for(Key::Char('_')), Command::Decrement);
    assert_eq!(command_for(Key::Char(']')), Command::OctaveUp);
    assert_eq!(command_for(Key::Char('[')), Command::OctaveDown);
    assert_eq!(command_for(Key::Char(' ')), Command::ToggleGate);
    assert_eq!(command_for(Key::Char('x')), Command::Nothing);
    assert_eq!(command_for(Key::Up), Command::MoveUp);
    assert_eq!(command_for(Key::Other), Command::Nothing);
}

#[test]
fn edits_report_the_row_to_sync() {
    let mut t = Tracker::new(16);
    let mut vis = VisMode::Both;
    assert_eq!(handle_key(&mut t, &mut vis, Key::Down), KeyOutcome::Continue);
    assert_eq!(handle_key(&mut t, &mut vis, Key::Char('+')), KeyOutcome::Sync(1));
    assert_eq!(t.steps[1].note, 61);
    assert_eq!(handle_key(&mut t, &mut vis, Key::Char(' ')), KeyOutcome::Sync(1));
    assert!(t.steps[1].gate);
    assert_eq!(handle_key(&mut t, &mut vis, Key::Char(']')), KeyOutcome::Sync(1));
    assert_eq!(t.steps[1].note, 73);
    assert_eq!(handle_key(&mut t, &mut vis, Key::Right), KeyOutcome::Continue);
    assert_eq!(t.cursor_col, Column::Vel);
    assert_eq!(handle_key(&mut t, &mut vis, Key::Char('[')), KeyOutcome::Continue);
    assert_eq!(handle_key(&mut t, &mut vis, Key::Char('-')), KeyOutcome::Sync(1));
    assert_eq!(t.steps[1].vel, 99);
    assert_eq!(t.cursor_row, 1);
}

#[test]
fn quit_and_visualiser_keys() {
    let mut t = Tracker::new(16);
    let mut vis = VisMode::Both;
    assert_eq!(handle_key(&mut t, &mut vis, Key::Char('v')), KeyOutcome::Continue);
    assert_eq!(vis, VisMode::OscOnly);
    assert_eq!(handle_key(&mut t, &mut vis, Key::Char('z')), KeyOutcome::Continue);
    assert_eq!(handle_key(&mut t, &mut vis, Key::Char('q')), KeyOutcome::Quit);
    assert_eq!(vis, VisMode::OscOnly);
    assert!(t.steps.iter().all(|s| *s == TrackerStep::default()));
    assert_eq!(t.cursor_row, 0);
}
