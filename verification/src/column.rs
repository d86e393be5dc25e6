use vstd::prelude::*;

verus! {

/// The editable columns of a tracker row, in display order.
#[derive(Clone, Copy, PartialEq, Eq, Debug, Structural)]
pub enum Column {
    Note,
    Vel,
    Gate,
    Len,
}

/// Position of a column in display order (Note first).
pub open spec fn column_index(c: Column) -> int {
    match c {
        Column::Note => 0,
        Column::Vel => 1,
        Column::Gate => 2,
        Column::Len => 3,
    }
}

/// The column at position `i` modulo four.
pub open spec fn column_at(i: int) -> Column {
    let k = i % 4;
    if k == 0 {
        Column::Note
    } else if k == 1 {
        Column::Vel
    } else if k == 2 {
        Column::Gate
    } else {
        Column::Len
    }
}

/// Name of a column in the status bar.
pub open spec fn column_name(c: Column) -> Seq<char> {
    match c {
        Column::Note => seq!['N', 'O', 'T', 'E'],
        Column::Vel => seq!['V', 'E', 'L'],
        Column::Gate => seq!['G', 'A', 'T', 'E'],
        Column::Len => seq!['L', 'E', 'N'],
    }
}

impl Column {
    /// Name of the column in the status bar.
    pub fn name(self) -> (s: &'static str)
        ensures
            s@ == column_name(self),
    {
        match self {
            Column::Note => {
                proof { reveal_strlit("NOTE"); }
                "NOTE"
            },
            Column::Vel => {
                proof { reveal_strlit("VEL"); }
                "VEL"
            },
            Column::Gate => {
                proof { reveal_strlit("GATE"); }
                "GATE"
            },
            Column::Len => {
                proof { reveal_strlit("LEN"); }
                "LEN"
            },
        }
    }

    /// The column to the right, wrapping from the last back to the first.
    pub fn next(self) -> (r: Self)
        ensures
            r == column_at(column_index(self) + 1),
    {
        match self {
            Column::Note => Column::Vel,
            Column::Vel => Column::Gate,
            Column::Gate => Column::Len,
            Column::Len => Column::Note,
        }
    }

    /// The column to the left, wrapping from the first to the last.
    pub fn prev(self) -> (r: Self)
        ensures
            r == column_at(column_index(self) + 3),
    {
        match self {
            Column::Note => Column::Len,
            Column::Vel => Column::Note,
            Column::Gate => Column::Vel,
            Column::Len => Column::Gate,
        }
    }
}

/// Moving right and then left (or left and then right) returns to the same
/// column, and four moves in one direction go all the way round.
pub proof fn lemma_column_moves(c: Column)
    ensures
        column_at(column_index(column_at(column_index(c) + 1)) + 3) == c,
        column_at(column_index(column_at(column_index(c) + 3)) + 1) == c,
        column_at(column_index(c) + 4) == c,
        column_at(column_index(c)) == c,
{
}

/// The columns from left to right are Note, Vel, Gate, Len: moving right goes
/// Note to Vel to Gate to Len and back to Note, moving left the other way.
pub proof fn lemma_column_neighbours()
    ensures
        column_at(column_index(Column::Note) + 1) == Column::Vel,
        column_at(column_index(Column::Vel) + 1) == Column::Gate,
        column_at(column_index(Column::Gate) + 1) == Column::Len,
        column_at(column_index(Column::Len) + 1) == Column::Note,
        column_at(column_index(Column::Note) + 3) == Column::Len,
        column_at(column_index(Column::Vel) + 3) == Column::Note,
        column_at(column_index(Column::Gate) + 3) == Column::Vel,
        column_at(column_index(Column::Len) + 3) == Column::Gate,
{
}

/// The status-bar names of the columns: NOTE, VEL, GATE and LEN.
pub proof fn lemma_column_names()
    ensures
        column_name(Column::Note) =~= seq!['N', 'O', 'T', 'E'],
        column_name(Column::Vel) =~= seq!['V', 'E', 'L'],
        column_name(Column::Gate) =~= seq!['G', 'A', 'T', 'E'],
        column_name(Column::Len) =~= seq!['L', 'E', 'N'],
{
}

} // verus!
