//! Trigger search for the oscilloscope: find where the waveform crosses a
//! threshold upwards, so that successive frames show it at the same phase.
//!
//! Samples arrive as order keys: integers that compare exactly as the audio
//! samples they stand for, so every comparison below is the one the waveform
//! asks for.
use vstd::prelude::*;

verus! {

/// Number of samples the oscilloscope shows after the trigger point.
pub const DISPLAY_SAMPLES: usize = 512;

/// How many leading positions the search looks at: it stops early enough that
/// `depth` confirming samples and a full display window follow every
/// candidate (none when the buffer is too short).
pub open spec fn search_len(len: int, depth: int) -> int {
    if len > depth + DISPLAY_SAMPLES {
        len - depth - DISPLAY_SAMPLES
    } else {
        0
    }
}

/// Some sample at or before `i` lay below `low`, which arms the trigger.
pub open spec fn armed_at(s: Seq<i32>, low: i32, i: int) -> bool {
    exists|j: int| 0 <= j <= i && #[trigger] s[j] < low
}

/// The `depth` samples after `i` all exist and stay at or above `threshold`.
pub open spec fn confirmed_at(s: Seq<i32>, threshold: i32, depth: int, i: int) -> bool {
    forall|d: int| 1 <= d <= depth ==> i + d < s.len() && #[trigger] s[i + d] >= threshold
}

/// Position `i` is a trigger point: inside the searched prefix, armed, at or
/// above `high`, and confirmed by the following `depth` samples.
pub open spec fn is_trigger(
    s: Seq<i32>,
    low: i32,
    high: i32,
    threshold: i32,
    depth: int,
    i: int,
) -> bool {
    &&& 0 <= i < search_len(s.len() as int, depth)
    &&& armed_at(s, low, i)
    &&& s[i] >= high
    &&& confirmed_at(s, threshold, depth, i)
}

/// The first trigger point of `samples`: the first position, in the searched
/// prefix, whose sample is at or above `high` after some earlier (or the same)
/// sample fell below `low`, and whose next `depth` samples stay at or above
/// `threshold`. `None` when there is no such position.
pub fn find_trigger(samples: &[i32], low: i32, high: i32, threshold: i32, depth: usize) -> (r:
    Option<usize>)
    requires
        depth + DISPLAY_SAMPLES <= usize::MAX,
    ensures
        match r {
            Some(i) => {
                &&& is_trigger(samples@, low, high, threshold, depth as int, i as int)
                &&& i + depth + DISPLAY_SAMPLES < samples@.len()
                &&& exists|j: int| 0 <= j <= i && #[trigger] samples@[j] < low
                &&& samples@[i as int] >= high
                &&& forall|d: int|
                    1 <= d <= depth ==> i + d < samples@.len() && #[trigger] samples@[i + d] >= threshold
                &&& forall|j: int|
                    0 <= j < i ==> !is_trigger(samples@, low, high, threshold, depth as int, j)
            },
            None => forall|j: int| !is_trigger(samples@, low, high, threshold, depth as int, j),
        },
{
    let len = samples.len();
    let limit = if len > depth + DISPLAY_SAMPLES {
        len - (depth + DISPLAY_SAMPLES)
    } else {
        0
    };
    let mut armed = false;
    let mut i: usize = 0;
    while i < limit
        invariant
            limit == search_len(samples@.len() as int, depth as int),
            len == samples@.len(),
            i <= limit,
            armed == (exists|j: int| 0 <= j < i && #[trigger] samples@[j] < low),
            forall|j: int|
                0 <= j < i ==> !is_trigger(samples@, low, high, threshold, depth as int, j),
        decreases limit - i,
    {
        if samples[i] < low {
            armed = true;
        }
        assert(armed == armed_at(samples@, low, i as int));
        if armed && samples[i] >= high {
            // Confirm `depth` consecutive samples stay above the threshold.
            let mut confirmed = true;
            let mut d: usize = 1;
            while d <= depth
                invariant
                    i < limit,
                    limit == search_len(samples@.len() as int, depth as int),
                    depth + DISPLAY_SAMPLES <= usize::MAX,
                    len == samples@.len(),
                    1 <= d <= depth + 1,
                    confirmed == (forall|e: int|
                        1 <= e < d ==> i + e < samples@.len() && #[trigger] samples@[i + e]
                            >= threshold),
                decreases depth + 1 - d,
            {
                let ghost before = confirmed;
                if i + d >= len || samples[i + d] < threshold {
                    confirmed = false;
                }
                assert(confirmed == (before && i + d < samples@.len() && samples@[i + d as int]
                    >= threshold));
                d = d + 1;
            }
            assert(confirmed == confirmed_at(samples@, threshold, depth as int, i as int));
            if confirmed {
                return Some(i);
            }
        }
        i = i + 1;
    }
    assert forall|j: int| !is_trigger(samples@, low, high, threshold, depth as int, j) by {
        if 0 <= j < i {
        }
    }
    None
}

/// Where the oscilloscope window starts: at the first trigger point, or at the
/// start of the buffer when there is none. A full display window always fits
/// after it.
pub fn trigger_window_start(samples: &[i32], low: i32, high: i32, threshold: i32, depth: usize) -> (start: usize)
    requires
        depth + DISPLAY_SAMPLES <= usize::MAX,
        samples@.len() >= DISPLAY_SAMPLES,
    ensures
        start + DISPLAY_SAMPLES <= samples@.len(),
        is_trigger(samples@, low, high, threshold, depth as int, start as int) ==> forall|j: int|
            0 <= j < start ==> !is_trigger(samples@, low, high, threshold, depth as int, j),
        !is_trigger(samples@, low, high, threshold, depth as int, start as int) ==> {
            &&& start == 0
            &&& forall|j: int| !is_trigger(samples@, low, high, threshold, depth as int, j)
        },
{
    match find_trigger(samples, low, high, threshold, depth) {
        Some(i) => i,
        None => 0,
    }
}

/// A trigger point leaves room for its `depth` confirming samples and a full
/// display window after them, was preceded (or is itself) a dip below `low`,
/// reaches `high`, and every one of the `depth` samples after it is inside the
/// buffer and at or above `threshold`. Conversely a position with all of these
/// properties is a trigger point.
pub proof fn lemma_trigger_point(
    s: Seq<i32>,
    low: i32,
    high: i32,
    threshold: i32,
    depth: int,
    i: int,
)
    requires
        depth >= 0,
    ensures
        is_trigger(s, low, high, threshold, depth, i) <==> {
            &&& 0 <= i
            &&& i + depth + DISPLAY_SAMPLES < s.len()
            &&& exists|j: int| 0 <= j <= i && #[trigger] s[j] < low
            &&& s[i] >= high
            &&& forall|d: int| 1 <= d <= depth ==> i + d < s.len() && #[trigger] s[i + d] >= threshold
        },
{
    if is_trigger(s, low, high, threshold, depth, i) {
        let j = choose|j: int| 0 <= j <= i && #[trigger] s[j] < low;
        assert(0 <= j <= i && s[j] < low);
    }
    if ({
        &&& 0 <= i
        &&& i + depth + DISPLAY_SAMPLES < s.len()
        &&& exists|j: int| 0 <= j <= i && #[trigger] s[j] < low
        &&& s[i] >= high
        &&& forall|d: int| 1 <= d <= depth ==> i + d < s.len() && #[trigger] s[i + d] >= threshold
    }) {
        let j = choose|j: int| 0 <= j <= i && s[j] < low;
        assert(s[j] < low);
        assert forall|d: int| 1 <= d <= depth implies i + d < s.len() && #[trigger] s[i + d]
            >= threshold by {}
    }
}

} // verus!
