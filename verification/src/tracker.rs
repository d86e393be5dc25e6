//! The tracker grid: a preallocated bank of steps, the part of it that plays,
//! a cursor over it, and the edits that the cursor applies.
use vstd::prelude::*;
use ratatui::widgets::TableState;
use crate::column::{Column, column_at, column_index};
use crate::table::table_selection;

verus! {

/// The backend pre-allocates this many steps; the tracker never goes above it.
pub const MAX_STEPS: usize = 256;

/// How many steps play when the program starts.
pub const DEFAULT_STEPS: usize = 64;

/// Highest MIDI note number a step can hold.
pub const MAX_NOTE: i32 = 127;

/// Highest velocity level (128 discrete levels, 0 to 127).
pub const MAX_VEL: i32 = 127;

/// Gate length resolution: a length is a number of 32nds of a step, 0 to 32.
pub const MAX_LENGTH: i32 = 32;

/// One row of the sequencer.
///
/// Pitch is held as a MIDI note number, velocity as one of 128 levels and the
/// gate length as a count of 32nds; these are the grids on which every edit
/// quantises its value, and the audio side converts them to Hz and to
/// fractions of one.
#[derive(Clone, Copy, PartialEq, Eq, Debug, Structural)]
pub struct TrackerStep {
    /// MIDI note number, 0 to 127.
    pub note: i32,
    /// Velocity level, 0 to 127.
    pub vel: i32,
    /// Whether the step triggers.
    pub gate: bool,
    /// Gate length in 32nds of a step, 0 to 32.
    pub length: i32,
}

/// The step that every row starts with: C4 (MIDI 60), velocity 100, gate off,
/// half length.
pub open spec fn default_step() -> TrackerStep {
    TrackerStep { note: 60, vel: 100, gate: false, length: 16 }
}

/// Every field of the step lies on its grid.
pub open spec fn step_valid(s: TrackerStep) -> bool {
    &&& 0 <= s.note <= MAX_NOTE
    &&& 0 <= s.vel <= MAX_VEL
    &&& 0 <= s.length <= MAX_LENGTH
}

/// `v` limited to the range `lo ..= hi`.
pub open spec fn clamp(v: int, lo: int, hi: int) -> int {
    if v < lo {
        lo
    } else if v > hi {
        hi
    } else {
        v
    }
}

/// The step with its note moved by `semitones`, kept inside the MIDI range.
pub open spec fn step_transposed(s: TrackerStep, semitones: int) -> TrackerStep {
    TrackerStep { note: clamp(s.note + semitones, 0, MAX_NOTE as int) as i32, ..s }
}

/// The step with its gate toggled.
pub open spec fn step_gate_toggled(s: TrackerStep) -> TrackerStep {
    TrackerStep { gate: !s.gate, ..s }
}

/// The step with the value in column `col` nudged by `dir` units: a semitone,
/// a velocity level or a 32nd of length, clamped to its range. On the
/// gate column both directions toggle its gate flag.
pub open spec fn step_adjusted(s: TrackerStep, col: Column, dir: int) -> TrackerStep {
    match col {
        Column::Note => step_transposed(s, dir),
        Column::Vel => TrackerStep { vel: clamp(s.vel + dir, 0, MAX_VEL as int) as i32, ..s },
        Column::Gate => step_gate_toggled(s),
        Column::Len => TrackerStep {
            length: clamp(s.length + dir, 0, MAX_LENGTH as int) as i32,
            ..s
        },
    }
}

/// The row above `row` among `active` rows, wrapping from the top to the bottom.
pub open spec fn row_above(row: int, active: int) -> int {
    if row == 0 {
        active - 1
    } else {
        row - 1
    }
}

/// The row below `row` among `active` rows, wrapping from the bottom to the top.
pub open spec fn row_below(row: int, active: int) -> int {
    (row + 1) % active
}

/// `row` pulled back inside a window of `active` rows.
pub open spec fn row_clamped(row: int, active: int) -> int {
    if row >= active {
        active - 1
    } else {
        row
    }
}

fn clamp_i32(v: i32, lo: i32, hi: i32) -> (r: i32)
    requires
        lo <= hi,
    ensures
        r == clamp(v as int, lo as int, hi as int),
{
    if v < lo {
        lo
    } else if v > hi {
        hi
    } else {
        v
    }
}

impl Default for TrackerStep {
    fn default() -> (s: Self)
        ensures
            s == default_step(),
    {
        TrackerStep { note: 60, vel: 100, gate: false, length: 16 }
    }
}

/// The tracker state: all `MAX_STEPS` steps, how many of them play, and the
/// cursor.
pub struct Tracker {
    /// Full preallocated bank, always `MAX_STEPS` long.
    pub steps: Vec<TrackerStep>,
    /// How many steps the sequencer currently plays (1 to `MAX_STEPS`).
    pub active_steps: usize,
    pub cursor_row: usize,
    pub cursor_col: Column,
    /// Kept in sync with `cursor_row` so that the table widget scrolls with it.
    pub table_state: TableState,
    /// Tempo in beats per minute.
    pub bpm: u32,
}

impl Tracker {
    /// The tracker's invariant: a full bank of steps on their grids, a playing
    /// window of 1 to `MAX_STEPS` rows, the cursor inside it, and the table
    /// widget selecting the cursor's row.
    pub open spec fn wf(&self) -> bool {
        &&& self.steps@.len() == MAX_STEPS
        &&& 1 <= self.active_steps <= MAX_STEPS
        &&& self.cursor_row < self.active_steps
        &&& forall|i: int| 0 <= i < self.steps@.len() ==> #[trigger] step_valid(self.steps@[i])
        &&& table_selection(self.table_state) == Some(self.cursor_row)
    }

    /// The step under the cursor.
    pub open spec fn cursor_step(&self) -> TrackerStep {
        self.steps@[self.cursor_row as int]
    }

    /// A tracker with `initial_steps` playing steps (clamped to 1 to
    /// `MAX_STEPS`), every step at its default, the cursor on the first row's
    /// note column.
    pub fn new(initial_steps: usize) -> (t: Self)
        ensures
            t.wf(),
            t.active_steps == clamp(initial_steps as int, 1, MAX_STEPS as int),
            t.steps@ == Seq::new(MAX_STEPS as nat, |i: int| default_step()),
            t.cursor_row == 0,
            t.cursor_col == Column::Note,
            t.bpm == 120,
    {
        let active_steps = if initial_steps < 1 {
            1
        } else if initial_steps > MAX_STEPS {
            MAX_STEPS
        } else {
            initial_steps
        };
        let mut table_state = TableState::new();
        table_state.select(Some(0));
        let mut steps: Vec<TrackerStep> = Vec::new();
        while steps.len() < MAX_STEPS
            invariant
                steps@.len() <= MAX_STEPS,
                forall|i: int| 0 <= i < steps@.len() ==> steps@[i] == default_step(),
            decreases MAX_STEPS - steps@.len(),
        {
            steps.push(TrackerStep::default());
        }
        assert(steps@ =~= Seq::new(MAX_STEPS as nat, |i: int| default_step()));
        Tracker {
            steps,
            active_steps,
            cursor_row: 0,
            cursor_col: Column::Note,
            table_state,
            bpm: 120,
        }
    }

    // --- Navigation ---

    /// Moves the cursor one row up, wrapping from the first row to the last
    /// playing row.
    pub fn move_up(&mut self)
        requires
            old(self).wf(),
        ensures
            final(self).wf(),
            final(self).cursor_row == row_above(old(self).cursor_row as int, old(self).active_steps as int),
            final(self).steps@ == old(self).steps@,
            final(self).active_steps == old(self).active_steps,
            final(self).cursor_col == old(self).cursor_col,
            final(self).bpm == old(self).bpm,
    {
        self.cursor_row = if self.cursor_row == 0 {
            self.active_steps - 1
        } else {
            self.cursor_row - 1
        };
        self.table_state.select(Some(self.cursor_row));
    }

    /// Moves the cursor one row down, wrapping from the last playing row to
    /// the first.
    pub fn move_down(&mut self)
        requires
            old(self).wf(),
        ensures
            final(self).wf(),
            final(self).cursor_row == row_below(old(self).cursor_row as int, old(self).active_steps as int),
            final(self).steps@ == old(self).steps@,
            final(self).active_steps == old(self).active_steps,
            final(self).cursor_col == old(self).cursor_col,
            final(self).bpm == old(self).bpm,
    {
        self.cursor_row = (self.cursor_row + 1) % self.active_steps;
        self.table_state.select(Some(self.cursor_row));
    }

    // --- Step count ---

    /// Adds one playing step. Returns the new count, or `None` (and changes
    /// nothing) if already at `MAX_STEPS`.
    pub fn grow(&mut self) -> (r: Option<usize>)
        requires
            old(self).wf(),
        ensures
            final(self).wf(),
            old(self).active_steps >= MAX_STEPS ==> r == None::<usize> && *final(self) == *old(self),
            old(self).active_steps < MAX_STEPS ==> {
                &&& final(self).active_steps == old(self).active_steps + 1
                &&& r == Some(final(self).active_steps)
            },
            final(self).steps@ == old(self).steps@,
            final(self).cursor_row == old(self).cursor_row,
            final(self).cursor_col == old(self).cursor_col,
            final(self).table_state == old(self).table_state,
            final(self).bpm == old(self).bpm,
    {
        if self.active_steps >= MAX_STEPS {
            return None;
        }
        self.active_steps = self.active_steps + 1;
        Some(self.active_steps)
    }

    /// Removes one playing step. Returns the new count, or `None` (and changes
    /// nothing) if already at 1. The cursor is pulled back inside the window.
    pub fn shrink(&mut self) -> (r: Option<usize>)
        requires
            old(self).wf(),
        ensures
            final(self).wf(),
            old(self).active_steps <= 1 ==> r == None::<usize> && *final(self) == *old(self),
            old(self).active_steps > 1 ==> {
                &&& final(self).active_steps == old(self).active_steps - 1
                &&& r == Some(final(self).active_steps)
                &&& final(self).cursor_row == row_clamped(
                    old(self).cursor_row as int,
                    final(self).active_steps as int,
                )
            },
            final(self).steps@ == old(self).steps@,
            final(self).cursor_col == old(self).cursor_col,
            final(self).bpm == old(self).bpm,
    {
        if self.active_steps <= 1 {
            return None;
        }
        self.active_steps = self.active_steps - 1;
        if self.cursor_row >= self.active_steps {
            self.cursor_row = self.active_steps - 1;
            self.table_state.select(Some(self.cursor_row));
        }
        Some(self.active_steps)
    }

    /// Moves the cursor one column left, wrapping around.
    pub fn move_left(&mut self)
        requires
            old(self).wf(),
        ensures
            final(self).wf(),
            final(self).cursor_col == column_at(column_index(old(self).cursor_col) + 3),
            final(self).steps@ == old(self).steps@,
            final(self).active_steps == old(self).active_steps,
            final(self).cursor_row == old(self).cursor_row,
            final(self).table_state == old(self).table_state,
            final(self).bpm == old(self).bpm,
    {
        self.cursor_col = self.cursor_col.prev();
    }

    /// Moves the cursor one column right, wrapping around.
    pub fn move_right(&mut self)
        requires
            old(self).wf(),
        ensures
            final(self).wf(),
            final(self).cursor_col == column_at(column_index(old(self).cursor_col) + 1),
            final(self).steps@ == old(self).steps@,
            final(self).active_steps == old(self).active_steps,
            final(self).cursor_row == old(self).cursor_row,
            final(self).table_state == old(self).table_state,
            final(self).bpm == old(self).bpm,
    {
        self.cursor_col = self.cursor_col.next();
    }

    // --- Editing (each returns whether the step changed and must be sent to
    // the audio side) ---

    /// Nudges the focused cell up by one unit.
    pub fn increment(&mut self) -> (r: bool)
        requires
            old(self).wf(),
        ensures
            final(self).wf(),
            r,
            final(self).steps@ == old(self).steps@.update(
                old(self).cursor_row as int,
                step_adjusted(old(self).cursor_step(), old(self).cursor_col, 1),
            ),
            final(self).active_steps == old(self).active_steps,
            final(self).cursor_row == old(self).cursor_row,
            final(self).cursor_col == old(self).cursor_col,
            final(self).table_state == old(self).table_state,
            final(self).bpm == old(self).bpm,
    {
        self.adjust(1)
    }

    /// Nudges the focused cell down by one unit.
    pub fn decrement(&mut self) -> (r: bool)
        requires
            old(self).wf(),
        ensures
            final(self).wf(),
            r,
            final(self).steps@ == old(self).steps@.update(
                old(self).cursor_row as int,
                step_adjusted(old(self).cursor_step(), old(self).cursor_col, -1),
            ),
            final(self).active_steps == old(self).active_steps,
            final(self).cursor_row == old(self).cursor_row,
            final(self).cursor_col == old(self).cursor_col,
            final(self).table_state == old(self).table_state,
            final(self).bpm == old(self).bpm,
    {
        self.adjust(-1)
    }

    /// Jumps the focused step up one octave; applies only on the note column,
    /// and returns whether it applied.
    pub fn octave_up(&mut self) -> (r: bool)
        requires
            old(self).wf(),
        ensures
            final(self).wf(),
            r == (old(self).cursor_col == Column::Note),
            final(self).steps@ == if r {
                old(self).steps@.update(
                    old(self).cursor_row as int,
                    step_transposed(old(self).cursor_step(), 12),
                )
            } else {
                old(self).steps@
            },
            final(self).active_steps == old(self).active_steps,
            final(self).cursor_row == old(self).cursor_row,
            final(self).cursor_col == old(self).cursor_col,
            final(self).table_state == old(self).table_state,
            final(self).bpm == old(self).bpm,
    {
        if self.cursor_col != Column::Note {
            return false;
        }
        self.transpose(12);
        true
    }

    /// Jumps the focused step down one octave; applies only on the note
    /// column, and returns whether it applied.
    pub fn octave_down(&mut self) -> (r: bool)
        requires
            old(self).wf(),
        ensures
            final(self).wf(),
            r == (old(self).cursor_col == Column::Note),
            final(self).steps@ == if r {
                old(self).steps@.update(
                    old(self).cursor_row as int,
                    step_transposed(old(self).cursor_step(), -12),
                )
            } else {
                old(self).steps@
            },
            final(self).active_steps == old(self).active_steps,
            final(self).cursor_row == old(self).cursor_row,
            final(self).cursor_col == old(self).cursor_col,
            final(self).table_state == old(self).table_state,
            final(self).bpm == old(self).bpm,
    {
        if self.cursor_col != Column::Note {
            return false;
        }
        self.transpose(-12);
        true
    }

    /// Toggles the focused step's gate.
    pub fn toggle_gate(&mut self) -> (r: bool)
        requires
            old(self).wf(),
        ensures
            final(self).wf(),
            r,
            final(self).steps@ == old(self).steps@.update(
                old(self).cursor_row as int,
                step_gate_toggled(old(self).cursor_step()),
            ),
            final(self).cursor_step().gate == !old(self).cursor_step().gate,
            final(self).cursor_step().note == old(self).cursor_step().note,
            final(self).cursor_step().vel == old(self).cursor_step().vel,
            final(self).cursor_step().length == old(self).cursor_step().length,
            final(self).active_steps == old(self).active_steps,
            final(self).cursor_row == old(self).cursor_row,
            final(self).cursor_col == old(self).cursor_col,
            final(self).table_state == old(self).table_state,
            final(self).bpm == old(self).bpm,
    {
        let row = self.cursor_row;
        let mut step = self.steps[row];
        assert(step_valid(self.steps@[row as int]));
        step.gate = !step.gate;
        self.steps.set(row, step);
        true
    }

    /// The step under the cursor.
    pub fn current_step(&self) -> (s: &TrackerStep)
        requires
            self.wf(),
        ensures
            *s == self.cursor_step(),
    {
        &self.steps[self.cursor_row]
    }

    // --- Internal ---

    fn transpose(&mut self, semitones: i32)
        requires
            old(self).wf(),
            -12 <= semitones <= 12,
        ensures
            final(self).wf(),
            final(self).steps@ == old(self).steps@.update(
                old(self).cursor_row as int,
                step_transposed(old(self).cursor_step(), semitones as int),
            ),
            final(self).active_steps == old(self).active_steps,
            final(self).cursor_row == old(self).cursor_row,
            final(self).cursor_col == old(self).cursor_col,
            final(self).table_state == old(self).table_state,
            final(self).bpm == old(self).bpm,
    {
        let row = self.cursor_row;
        let mut step = self.steps[row];
        assert(step_valid(self.steps@[row as int]));
        step.note = clamp_i32(step.note + semitones, 0, MAX_NOTE);
        self.steps.set(row, step);
    }

    fn adjust(&mut self, dir: i32) -> (r: bool)
        requires
            old(self).wf(),
            dir == 1 || dir == -1,
        ensures
            final(self).wf(),
            r,
            final(self).steps@ == old(self).steps@.update(
                old(self).cursor_row as int,
                step_adjusted(old(self).cursor_step(), old(self).cursor_col, dir as int),
            ),
            final(self).active_steps == old(self).active_steps,
            final(self).cursor_row == old(self).cursor_row,
            final(self).cursor_col == old(self).cursor_col,
            final(self).table_state == old(self).table_state,
            final(self).bpm == old(self).bpm,
    {
        let row = self.cursor_row;
        let mut step = self.steps[row];
        assert(step_valid(self.steps@[row as int]));
        match self.cursor_col {
            Column::Note => {
                step.note = clamp_i32(step.note + dir, 0, MAX_NOTE);
            },
            Column::Vel => {
                // 128 discrete levels (0-127)
                step.vel = clamp_i32(step.vel + dir, 0, MAX_VEL);
            },
            Column::Gate => {
                // +/- both toggle for convenience
                step.gate = !step.gate;
            },
            Column::Len => {
                // 32 steps of resolution
                step.length = clamp_i32(step.length + dir, 0, MAX_LENGTH);
            },
        }
        self.steps.set(row, step);
        true
    }
}

/// Moving the cursor down and then up (or up and then down) puts it back on
/// the row it started from.
pub proof fn lemma_row_moves_undo(row: int, active: int)
    requires
        0 <= row < active,
    ensures
        row_above(row_below(row, active), active) == row,
        row_below(row_above(row, active), active) == row,
        0 <= row_below(row, active) < active,
        0 <= row_above(row, active) < active,
{
    if row + 1 < active {
        vstd::arithmetic::div_mod::lemma_small_mod((row + 1) as nat, active as nat);
    } else {
        vstd::arithmetic::div_mod::lemma_mod_self_0(active);
    }
    if row == 0 {
        vstd::arithmetic::div_mod::lemma_mod_self_0(active);
    } else {
        vstd::arithmetic::div_mod::lemma_small_mod(row as nat, active as nat);
    }
}

/// Nudging a value up and then down restores the step, unless the value was
/// already at the top of its range (a gate flag, which both directions toggle,
/// always comes back).
pub proof fn lemma_increment_then_decrement(s: TrackerStep, col: Column)
    requires
        step_valid(s),
        col == Column::Note ==> s.note < MAX_NOTE,
        col == Column::Vel ==> s.vel < MAX_VEL,
        col == Column::Len ==> s.length < MAX_LENGTH,
    ensures
        step_adjusted(step_adjusted(s, col, 1), col, -1) == s,
{
}

/// Nudging a value down and then up restores the step, unless the value was
/// already at the bottom of its range.
pub proof fn lemma_decrement_then_increment(s: TrackerStep, col: Column)
    requires
        step_valid(s),
        col == Column::Note ==> s.note > 0,
        col == Column::Vel ==> s.vel > 0,
        col == Column::Len ==> s.length > 0,
    ensures
        step_adjusted(step_adjusted(s, col, -1), col, 1) == s,
{
}

/// An octave up followed by an octave down restores the note when the octave
/// up did not hit the top of the MIDI range; an octave down followed by an
/// octave up restores it when the octave down did not hit the bottom.
pub proof fn lemma_octave_undo(s: TrackerStep)
    requires
        step_valid(s),
    ensures
        s.note + 12 <= MAX_NOTE ==> step_transposed(step_transposed(s, 12), -12) == s,
        s.note >= 12 ==> step_transposed(step_transposed(s, -12), 12) == s,
{
}

/// Toggling a step's gate twice gives back the step.
pub proof fn lemma_gate_toggle_involution(s: TrackerStep)
    ensures
        step_gate_toggled(step_gate_toggled(s)) == s,
{
}

/// Every edit keeps a step on its grid.
pub proof fn lemma_edits_keep_steps_valid(s: TrackerStep, col: Column, dir: int, semitones: int)
    requires
        step_valid(s),
    ensures
        step_valid(step_adjusted(s, col, dir)),
        step_valid(step_transposed(s, semitones)),
        step_valid(step_gate_toggled(s)),
{
}

/// Shrinking right after a successful grow gives back the step count and
/// leaves the cursor where it was.
pub proof fn lemma_shrink_undoes_grow(active: int, row: int)
    requires
        1 <= active < MAX_STEPS,
        0 <= row < active,
    ensures
        (active + 1) - 1 == active,
        row_clamped(row, (active + 1) - 1) == row,
{
}

/// Toggling changes a step's gate flag and nothing else: the note, velocity
/// and length of the step stay as they were.
pub proof fn lemma_gate_toggle_only_flips_gate(s: TrackerStep)
    ensures
        step_gate_toggled(s).gate == !s.gate,
        step_gate_toggled(s).note == s.note,
        step_gate_toggled(s).vel == s.vel,
        step_gate_toggled(s).length == s.length,
{
}

/// Each nudge changes only the value in its own column, by exactly `dir`
/// units when that stays in range and otherwise to the nearest end of the
/// range; on column Gate it flips its gate flag whatever the direction.
pub proof fn lemma_adjust_changes_only_its_column(s: TrackerStep, col: Column, dir: int)
    requires
        step_valid(s),
    ensures
        col == Column::Note ==> {
            let t = step_adjusted(s, col, dir);
            &&& t.vel == s.vel && t.gate == s.gate && t.length == s.length
            &&& 0 <= s.note + dir <= 127 ==> t.note == s.note + dir
            &&& s.note + dir < 0 ==> t.note == 0
            &&& s.note + dir > 127 ==> t.note == 127
        },
        col == Column::Vel ==> {
            let t = step_adjusted(s, col, dir);
            &&& t.note == s.note && t.gate == s.gate && t.length == s.length
            &&& 0 <= s.vel + dir <= 127 ==> t.vel == s.vel + dir
            &&& s.vel + dir < 0 ==> t.vel == 0
            &&& s.vel + dir > 127 ==> t.vel == 127
        },
        col == Column::Gate ==> {
            let t = step_adjusted(s, col, dir);
            &&& t.note == s.note && t.vel == s.vel && t.length == s.length
            &&& t.gate == !s.gate
        },
        col == Column::Len ==> {
            let t = step_adjusted(s, col, dir);
            &&& t.note == s.note && t.vel == s.vel && t.gate == s.gate
            &&& 0 <= s.length + dir <= 32 ==> t.length == s.length + dir
            &&& s.length + dir < 0 ==> t.length == 0
            &&& s.length + dir > 32 ==> t.length == 32
        },
{
}

/// An octave shift moves the note by twelve semitones, or to the nearest end
/// of the MIDI range, and leaves velocity, gate and length alone.
pub proof fn lemma_transpose_changes_only_note(s: TrackerStep, semitones: int)
    ensures
        step_transposed(s, semitones).vel == s.vel,
        step_transposed(s, semitones).gate == s.gate,
        step_transposed(s, semitones).length == s.length,
        0 <= s.note + semitones <= 127 ==> step_transposed(s, semitones).note == s.note + semitones,
        s.note + semitones < 0 ==> step_transposed(s, semitones).note == 0,
        s.note + semitones > 127 ==> step_transposed(s, semitones).note == 127,
{
}

/// Moving down goes to the next row, or from the last playing row back to the
/// first; moving up goes to the previous row, or from the first to the last.
pub proof fn lemma_row_moves_step_by_one(row: int, active: int)
    requires
        0 <= row < active,
    ensures
        row + 1 < active ==> row_below(row, active) == row + 1,
        row + 1 == active ==> row_below(row, active) == 0,
        row > 0 ==> row_above(row, active) == row - 1,
        row == 0 ==> row_above(row, active) == active - 1,
{
    if row + 1 < active {
        vstd::arithmetic::div_mod::lemma_small_mod((row + 1) as nat, active as nat);
    } else {
        vstd::arithmetic::div_mod::lemma_mod_self_0(active);
    }
}

/// The default step is C4 (MIDI 60) at velocity 100 of 127, gate off, half a
/// step long, and lies on its grid.
pub proof fn lemma_default_step()
    ensures
        default_step().note == 60,
        default_step().vel == 100,
        !default_step().gate,
        default_step().length * 2 == MAX_LENGTH,
        step_valid(default_step()),
{
}

/// Clamping gives a value inside the range, and leaves a value already inside
/// it unchanged.
pub proof fn lemma_clamp(v: int, lo: int, hi: int)
    requires
        lo <= hi,
    ensures
        lo <= clamp(v, lo, hi) <= hi,
        lo <= v <= hi ==> clamp(v, lo, hi) == v,
        v < lo ==> clamp(v, lo, hi) == lo,
        v > hi ==> clamp(v, lo, hi) == hi,
{
}

/// Shrinking the window keeps the cursor's row when it is still inside,
/// and otherwise moves it to the last row that still plays.
pub proof fn lemma_shrink_cursor(row: int, active: int)
    requires
        active >= 1,
        0 <= row <= active,
    ensures
        0 <= row_clamped(row, active) < active,
        row < active ==> row_clamped(row, active) == row,
        row == active ==> row_clamped(row, active) == active - 1,
{
}

} // verus!
