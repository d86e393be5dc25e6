//! What each key does to the tracker and the visualiser panel, and whether a
//! step has to be sent to the audio side afterwards.
use vstd::prelude::*;
use crate::column::{column_at, column_index};
use crate::tracker::{
    Tracker, row_above, row_below, step_adjusted, step_gate_toggled, step_transposed,
};
use crate::column::Column;
use crate::visual::{VisMode, vis_at, vis_index};

verus! {

/// A key press, as far as the controls tell keys apart.
#[derive(Clone, Copy, PartialEq, Eq, Debug, Structural)]
pub enum Key {
    Char(char),
    Up,
    Down,
    Left,
    Right,
    Other,
}

/// The action bound to a key.
#[derive(Clone, Copy, PartialEq, Eq, Debug, Structural)]
pub enum Command {
    Quit,
    CycleVis,
    MoveUp,
    MoveDown,
    MoveLeft,
    MoveRight,
    Increment,
    Decrement,
    OctaveUp,
    OctaveDown,
    ToggleGate,
    Nothing,
}

/// What the event loop does after a key.
#[derive(Clone, Copy, PartialEq, Eq, Debug, Structural)]
pub enum KeyOutcome {
    /// Leave the program.
    Quit,
    /// Only redraw.
    Continue,
    /// Send the step at this row to the audio side, then redraw.
    Sync(usize),
}

/// The key bindings: q quits, v cycles the visualisers, the arrows move the
/// cursor, + or = and - or _ nudge the focused cell, ] and [ shift the note by
/// an octave, space toggles the step's gate; every other key does nothing.
pub open spec fn key_command(key: Key) -> Command {
    match key {
        Key::Char(c) => {
            if c == 'q' || c == 'Q' {
                Command::Quit
            } else if c == 'v' || c == 'V' {
                Command::CycleVis
            } else if c == '+' || c == '=' {
                Command::Increment
            } else if c == '-' || c == '_' {
                Command::Decrement
            } else if c == ']' {
                Command::OctaveUp
            } else if c == '[' {
                Command::OctaveDown
            } else if c == ' ' {
                Command::ToggleGate
            } else {
                Command::Nothing
            }
        },
        Key::Up => Command::MoveUp,
        Key::Down => Command::MoveDown,
        Key::Left => Command::MoveLeft,
        Key::Right => Command::MoveRight,
        Key::Other => Command::Nothing,
    }
}

/// The command bound to `key`.
pub fn command_for(key: Key) -> (c: Command)
    ensures
        c == key_command(key),
{
    match key {
        Key::Char(c) => {
            if c == 'q' || c == 'Q' {
                Command::Quit
            } else if c == 'v' || c == 'V' {
                Command::CycleVis
            } else if c == '+' || c == '=' {
                Command::Increment
            } else if c == '-' || c == '_' {
                Command::Decrement
            } else if c == ']' {
                Command::OctaveUp
            } else if c == '[' {
                Command::OctaveDown
            } else if c == ' ' {
                Command::ToggleGate
            } else {
                Command::Nothing
            }
        },
        Key::Up => Command::MoveUp,
        Key::Down => Command::MoveDown,
        Key::Left => Command::MoveLeft,
        Key::Right => Command::MoveRight,
        Key::Other => Command::Nothing,
    }
}

/// `next` keeps the steps, the playing window and the tempo of `prev`.
pub open spec fn same_grid(prev: Tracker, next: Tracker) -> bool {
    &&& next.steps@ == prev.steps@
    &&& next.active_steps == prev.active_steps
    &&& next.bpm == prev.bpm
}

/// `next` keeps the cursor of `prev`, and the table widget's state with it.
pub open spec fn same_cursor(prev: Tracker, next: Tracker) -> bool {
    &&& next.cursor_row == prev.cursor_row
    &&& next.cursor_col == prev.cursor_col
    &&& next.table_state == prev.table_state
}

/// The effect of `cmd` on the tracker (`prev` to `next`), on the visualiser
/// mode (`vis` to `next_vis`), and the outcome `r` reported to the loop. An
/// edit reports the row it changed, which is the cursor's row: edits never
/// move the cursor.
pub open spec fn command_effect(
    cmd: Command,
    prev: Tracker,
    next: Tracker,
    vis: VisMode,
    next_vis: VisMode,
    r: KeyOutcome,
) -> bool {
    let row = prev.cursor_row as int;
    match cmd {
        Command::Quit => r == KeyOutcome::Quit && next == prev && next_vis == vis,
        Command::CycleVis => r == KeyOutcome::Continue && next == prev && next_vis == vis_at(
            vis_index(vis) + 1,
        ),
        Command::MoveUp => {
            &&& r == KeyOutcome::Continue
            &&& next_vis == vis
            &&& same_grid(prev, next)
            &&& next.cursor_col == prev.cursor_col
            &&& next.cursor_row == row_above(row, prev.active_steps as int)
        },
        Command::MoveDown => {
            &&& r == KeyOutcome::Continue
            &&& next_vis == vis
            &&& same_grid(prev, next)
            &&& next.cursor_col == prev.cursor_col
            &&& next.cursor_row == row_below(row, prev.active_steps as int)
        },
        Command::MoveLeft => {
            &&& r == KeyOutcome::Continue
            &&& next_vis == vis
            &&& same_grid(prev, next)
            &&& next.cursor_row == prev.cursor_row
            &&& next.table_state == prev.table_state
            &&& next.cursor_col == column_at(column_index(prev.cursor_col) + 3)
        },
        Command::MoveRight => {
            &&& r == KeyOutcome::Continue
            &&& next_vis == vis
            &&& same_grid(prev, next)
            &&& next.cursor_row == prev.cursor_row
            &&& next.table_state == prev.table_state
            &&& next.cursor_col == column_at(column_index(prev.cursor_col) + 1)
        },
        Command::Increment => {
            &&& r == KeyOutcome::Sync(prev.cursor_row)
            &&& next_vis == vis
            &&& same_cursor(prev, next)
            &&& next.active_steps == prev.active_steps
            &&& next.bpm == prev.bpm
            &&& next.steps@ == prev.steps@.update(
                row,
                step_adjusted(prev.steps@[row], prev.cursor_col, 1),
            )
        },
        Command::Decrement => {
            &&& r == KeyOutcome::Sync(prev.cursor_row)
            &&& next_vis == vis
            &&& same_cursor(prev, next)
            &&& next.active_steps == prev.active_steps
            &&& next.bpm == prev.bpm
            &&& next.steps@ == prev.steps@.update(
                row,
                step_adjusted(prev.steps@[row], prev.cursor_col, -1),
            )
        },
        Command::OctaveUp => {
            &&& r == if prev.cursor_col == Column::Note {
                KeyOutcome::Sync(prev.cursor_row)
            } else {
                KeyOutcome::Continue
            }
            &&& next_vis == vis
            &&& same_cursor(prev, next)
            &&& next.active_steps == prev.active_steps
            &&& next.bpm == prev.bpm
            &&& next.steps@ == if prev.cursor_col == Column::Note {
                prev.steps@.update(row, step_transposed(prev.steps@[row], 12))
            } else {
                prev.steps@
            }
        },
        Command::OctaveDown => {
            &&& r == if prev.cursor_col == Column::Note {
                KeyOutcome::Sync(prev.cursor_row)
            } else {
                KeyOutcome::Continue
            }
            &&& next_vis == vis
            &&& same_cursor(prev, next)
            &&& next.active_steps == prev.active_steps
            &&& next.bpm == prev.bpm
            &&& next.steps@ == if prev.cursor_col == Column::Note {
                prev.steps@.update(row, step_transposed(prev.steps@[row], -12))
            } else {
                prev.steps@
            }
        },
        Command::ToggleGate => {
            &&& r == KeyOutcome::Sync(prev.cursor_row)
            &&& next_vis == vis
            &&& same_cursor(prev, next)
            &&& next.active_steps == prev.active_steps
            &&& next.bpm == prev.bpm
            &&& next.steps@ == prev.steps@.update(row, step_gate_toggled(prev.steps@[row]))
        },
        Command::Nothing => r == KeyOutcome::Continue && next == prev && next_vis == vis,
    }
}

/// Applies one key press to the tracker and the visualiser mode, and tells the
/// event loop whether to quit, and which step, if any, to send to the audio
/// side.
pub fn handle_key(tracker: &mut Tracker, vis: &mut VisMode, key: Key) -> (r: KeyOutcome)
    requires
        old(tracker).wf(),
    ensures
        final(tracker).wf(),
        command_effect(key_command(key), *old(tracker), *final(tracker), *old(vis), *final(vis), r),
{
    // The row before any edit; edits never move the cursor, so it is the row
    // that changed.
    let row_before_edit = tracker.cursor_row;
    let dirty = match command_for(key) {
        Command::Quit => {
            return KeyOutcome::Quit;
        },
        Command::CycleVis => {
            *vis = vis.cycle();
            false
        },
        Command::MoveUp => {
            tracker.move_up();
            false
        },
        Command::MoveDown => {
            tracker.move_down();
            false
        },
        Command::MoveLeft => {
            tracker.move_left();
            false
        },
        Command::MoveRight => {
            tracker.move_right();
            false
        },
        Command::Increment => tracker.increment(),
        Command::Decrement => tracker.decrement(),
        Command::OctaveUp => tracker.octave_up(),
        Command::OctaveDown => tracker.octave_down(),
        Command::ToggleGate => tracker.toggle_gate(),
        Command::Nothing => false,
    };
    if dirty {
        KeyOutcome::Sync(row_before_edit)
    } else {
        KeyOutcome::Continue
    }
}

/// The key bindings, key by key: each command is bound to exactly the keys
/// listed for it, and every other key does nothing.
pub proof fn lemma_key_bindings(key: Key)
    ensures
        key_command(key) == Command::Quit <==> (key == Key::Char('q') || key == Key::Char('Q')),
        key_command(key) == Command::CycleVis <==> (key == Key::Char('v') || key == Key::Char(
            'V',
        )),
        key_command(key) == Command::MoveUp <==> key == Key::Up,
        key_command(key) == Command::MoveDown <==> key == Key::Down,
        key_command(key) == Command::MoveLeft <==> key == Key::Left,
        key_command(key) == Command::MoveRight <==> key == Key::Right,
        key_command(key) == Command::Increment <==> (key == Key::Char('+') || key == Key::Char(
            '=',
        )),
        key_command(key) == Command::Decrement <==> (key == Key::Char('-') || key == Key::Char(
            '_',
        )),
        key_command(key) == Command::OctaveUp <==> key == Key::Char(']'),
        key_command(key) == Command::OctaveDown <==> key == Key::Char('['),
        key_command(key) == Command::ToggleGate <==> key == Key::Char(' '),
{
}

/// The left arrow moves the cursor one column to the left (Note to Len, Vel
/// to Note, Gate to Vel, Len to Gate) and the right arrow one column to the
/// right (Note to Vel, Vel to Gate, Gate to Len, Len to Note); neither moves
/// the row, edits a step or asks for a step to be sent.
pub proof fn lemma_arrow_keys_move_columns(
    key: Key,
    prev: Tracker,
    next: Tracker,
    vis: VisMode,
    next_vis: VisMode,
    r: KeyOutcome,
)
    requires
        key == Key::Left || key == Key::Right,
        command_effect(key_command(key), prev, next, vis, next_vis, r),
    ensures
        r == KeyOutcome::Continue,
        next.cursor_row == prev.cursor_row,
        next.steps@ == prev.steps@,
        key == Key::Left && prev.cursor_col == Column::Note ==> next.cursor_col == Column::Len,
        key == Key::Left && prev.cursor_col == Column::Vel ==> next.cursor_col == Column::Note,
        key == Key::Left && prev.cursor_col == Column::Gate ==> next.cursor_col == Column::Vel,
        key == Key::Left && prev.cursor_col == Column::Len ==> next.cursor_col == Column::Gate,
        key == Key::Right && prev.cursor_col == Column::Note ==> next.cursor_col == Column::Vel,
        key == Key::Right && prev.cursor_col == Column::Vel ==> next.cursor_col == Column::Gate,
        key == Key::Right && prev.cursor_col == Column::Gate ==> next.cursor_col == Column::Len,
        key == Key::Right && prev.cursor_col == Column::Len ==> next.cursor_col == Column::Note,
{
}

/// The up and down arrows move the cursor one row (wrapping inside the
/// playing window) without editing a step or asking for one to be sent.
pub proof fn lemma_vertical_keys_move_rows(
    key: Key,
    prev: Tracker,
    next: Tracker,
    vis: VisMode,
    next_vis: VisMode,
    r: KeyOutcome,
)
    requires
        key == Key::Up || key == Key::Down,
        prev.wf(),
        command_effect(key_command(key), prev, next, vis, next_vis, r),
    ensures
        r == KeyOutcome::Continue,
        next.steps@ == prev.steps@,
        next.cursor_col == prev.cursor_col,
        key == Key::Down && prev.cursor_row + 1 < prev.active_steps ==> next.cursor_row
            == prev.cursor_row + 1,
        key == Key::Down && prev.cursor_row + 1 == prev.active_steps ==> next.cursor_row == 0,
        key == Key::Up && prev.cursor_row > 0 ==> next.cursor_row == prev.cursor_row - 1,
        key == Key::Up && prev.cursor_row == 0 ==> next.cursor_row == prev.active_steps - 1,
{
    crate::tracker::lemma_row_moves_step_by_one(
        prev.cursor_row as int,
        prev.active_steps as int,
    );
}

/// Every edit key asks for exactly the cursor's row to be sent (the octave
/// keys only on the note column) and leaves the cursor where it was; quitting
/// changes nothing.
pub proof fn lemma_edit_keys_sync_cursor_row(
    key: Key,
    prev: Tracker,
    next: Tracker,
    vis: VisMode,
    next_vis: VisMode,
    r: KeyOutcome,
)
    requires
        command_effect(key_command(key), prev, next, vis, next_vis, r),
    ensures
        key == Key::Char('+') || key == Key::Char('=') || key == Key::Char('-') || key == Key::Char(
            '_',
        ) || key == Key::Char(' ') ==> {
            &&& r == KeyOutcome::Sync(prev.cursor_row)
            &&& next.cursor_row == prev.cursor_row
            &&& next.cursor_col == prev.cursor_col
        },
        key == Key::Char(']') || key == Key::Char('[') ==> {
            &&& (r == KeyOutcome::Sync(prev.cursor_row)) == (prev.cursor_col == Column::Note)
            &&& (r == KeyOutcome::Continue) == (prev.cursor_col != Column::Note)
            &&& next.cursor_row == prev.cursor_row
        },
        key == Key::Char('q') || key == Key::Char('Q') ==> r == KeyOutcome::Quit && next == prev
            && next_vis == vis,
        key == Key::Char(' ') ==> next.steps@[prev.cursor_row as int].gate
            != prev.steps@[prev.cursor_row as int].gate || prev.cursor_row >= prev.steps@.len(),
{
}

} // verus!
