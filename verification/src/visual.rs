//! Which audio visualisers are on screen.
use vstd::prelude::*;

verus! {

/// The visualiser panel shows the oscilloscope, the spectrum, both, or
/// nothing; the user cycles through these four in order.
#[derive(Clone, Copy, PartialEq, Eq, Debug, Structural)]
pub enum VisMode {
    Both,
    OscOnly,
    SpecOnly,
    Hidden,
}

/// Position of a mode in the cycle (Both first).
pub open spec fn vis_index(m: VisMode) -> int {
    match m {
        VisMode::Both => 0,
        VisMode::OscOnly => 1,
        VisMode::SpecOnly => 2,
        VisMode::Hidden => 3,
    }
}

/// The mode at position `i` of the cycle, modulo four.
pub open spec fn vis_at(i: int) -> VisMode {
    let k = i % 4;
    if k == 0 {
        VisMode::Both
    } else if k == 1 {
        VisMode::OscOnly
    } else if k == 2 {
        VisMode::SpecOnly
    } else {
        VisMode::Hidden
    }
}

/// Status-bar label of a mode.
pub open spec fn vis_label(m: VisMode) -> Seq<char> {
    match m {
        VisMode::Both => seq!['O', 'S', 'C', '+', 'S', 'P', 'E', 'C'],
        VisMode::OscOnly => seq!['O', 'S', 'C'],
        VisMode::SpecOnly => seq!['S', 'P', 'E', 'C'],
        VisMode::Hidden => seq!['O', 'F', 'F'],
    }
}

impl VisMode {
    /// The next mode: Both, then oscilloscope only, then spectrum only, then
    /// hidden, then Both again.
    pub fn cycle(self) -> (r: Self)
        ensures
            r == vis_at(vis_index(self) + 1),
    {
        match self {
            VisMode::Both => VisMode::OscOnly,
            VisMode::OscOnly => VisMode::SpecOnly,
            VisMode::SpecOnly => VisMode::Hidden,
            VisMode::Hidden => VisMode::Both,
        }
    }

    /// Short label for the status bar.
    pub fn label(self) -> (s: &'static str)
        ensures
            s@ == vis_label(self),
    {
        match self {
            VisMode::Both => {
                proof { reveal_strlit("OSC+SPEC"); }
                "OSC+SPEC"
            },
            VisMode::OscOnly => {
                proof { reveal_strlit("OSC"); }
                "OSC"
            },
            VisMode::SpecOnly => {
                proof { reveal_strlit("SPEC"); }
                "SPEC"
            },
            VisMode::Hidden => {
                proof { reveal_strlit("OFF"); }
                "OFF"
            },
        }
    }

    /// Height, in terminal rows, of the visualiser panel: nothing when hidden,
    /// ten rows otherwise.
    pub fn height(self) -> (h: u16)
        ensures
            h == (if self == VisMode::Hidden { 0u16 } else { 10u16 }),
    {
        match self {
            VisMode::Hidden => 0,
            _ => 10,
        }
    }
}

/// Cycling four times comes back to the mode one started from.
pub proof fn lemma_cycle_period(m: VisMode)
    ensures
        vis_at(vis_index(vis_at(vis_index(vis_at(vis_index(vis_at(vis_index(m) + 1)) + 1)) + 1)) + 1) == m,
        vis_at(vis_index(m)) == m,
{
}

/// The cycle runs Both, OscOnly, SpecOnly, Hidden and back to Both.
pub proof fn lemma_cycle_order()
    ensures
        vis_at(vis_index(VisMode::Both) + 1) == VisMode::OscOnly,
        vis_at(vis_index(VisMode::OscOnly) + 1) == VisMode::SpecOnly,
        vis_at(vis_index(VisMode::SpecOnly) + 1) == VisMode::Hidden,
        vis_at(vis_index(VisMode::Hidden) + 1) == VisMode::Both,
{
}

/// The status-bar labels of the modes: OSC+SPEC, OSC, SPEC and OFF.
pub proof fn lemma_vis_labels()
    ensures
        vis_label(VisMode::Both) =~= seq!['O', 'S', 'C', '+', 'S', 'P', 'E', 'C'],
        vis_label(VisMode::OscOnly) =~= seq!['O', 'S', 'C'],
        vis_label(VisMode::SpecOnly) =~= seq!['S', 'P', 'E', 'C'],
        vis_label(VisMode::Hidden) =~= seq!['O', 'F', 'F'],
{
}

} // verus!
