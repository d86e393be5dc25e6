//! The scroll state of the ratatui table that displays the tracker grid.
use vstd::prelude::*;
use ratatui::widgets::TableState;

verus! {

/// ratatui's `TableState`, carried by the tracker so that the grid widget
/// scrolls with the cursor.
#[verifier::external_type_specification]
#[verifier::external_body]
pub struct ExTableState(TableState);

/// The row that a `TableState` has selected (what `TableState::selected`
/// returns); ratatui keeps it in a field of the state.
pub uninterp spec fn table_selection(state: TableState) -> Option<usize>;

/// `TableState::new` (ratatui-widgets, table/state.rs): builds a state whose
/// offset is 0 and that selects no row.
pub assume_specification[ TableState::new ]() -> (state: TableState)
    ensures
        table_selection(state) == None::<usize>,
;

/// `TableState::select` (ratatui-widgets, table/state.rs): stores `index` as the
/// selected row (and resets the scroll offset when `index` is `None`).
pub assume_specification[ TableState::select ](state: &mut TableState, index: Option<usize>)
    ensures
        table_selection(*final(state)) == index,
;

} // verus!
