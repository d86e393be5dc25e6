//! A fixed-length window over the most recent audio samples: each new sample
//! pushes the oldest one out.
use vstd::prelude::*;
use std::collections::VecDeque;

verus! {

/// Number of recent samples kept for the visualisers.
pub const RING_SIZE: usize = 4096;

/// The last `len` samples of a stream, oldest first.
pub struct SampleRing<T> {
    samples: VecDeque<T>,
}

/// `VecDeque::make_contiguous` (std): rearranges the storage so that the
/// elements lie in one slice, without changing their order, and returns that
/// slice.
#[verifier::external_body]
fn make_contiguous<T>(buf: &mut VecDeque<T>) -> (s: &[T])
    ensures
        final(buf)@ == old(buf)@,
        s@ == old(buf)@,
{
    &*buf.make_contiguous()
}

impl<T: Copy> SampleRing<T> {
    /// The samples held, oldest first.
    pub closed spec fn view(&self) -> Seq<T> {
        self.samples@
    }

    /// A window of `len` samples, all equal to `fill`.
    pub fn new(len: usize, fill: T) -> (r: Self)
        ensures
            r.view() == Seq::new(len as nat, |i: int| fill),
    {
        let mut samples: VecDeque<T> = VecDeque::with_capacity(len);
        let mut i: usize = 0;
        while i < len
            invariant
                i <= len,
                samples@ == Seq::new(i as nat, |k: int| fill),
            decreases len - i,
        {
            samples.push_back(fill);
            i = i + 1;
            assert(samples@ =~= Seq::new(i as nat, |k: int| fill));
        }
        SampleRing { samples }
    }

    /// Number of samples held.
    pub fn len(&self) -> (n: usize)
        ensures
            n == self.view().len(),
    {
        self.samples.len()
    }

    /// Appends `sample` as the newest and drops the oldest, so the length is
    /// unchanged (an empty window just takes the sample).
    pub fn push(&mut self, sample: T)
        ensures
            final(self).view() == if old(self).view().len() > 0 {
                old(self).view().drop_first().push(sample)
            } else {
                seq![sample]
            },
    {
        let _ = self.samples.pop_front();
        self.samples.push_back(sample);
        assert(old(self).view().len() > 0 ==> old(self).view().subrange(1, old(self).view().len() as int) =~= old(self).view().drop_first());
    }

    /// The samples held, oldest first, as one slice.
    pub fn as_slice(&mut self) -> (s: &[T])
        ensures
            final(self).view() == old(self).view(),
            s@ == old(self).view(),
    {
        make_contiguous(&mut self.samples)
    }
}

/// Pushing into a non-empty window keeps its length and makes the pushed
/// sample the newest.
pub proof fn lemma_push_keeps_length<T>(window: Seq<T>, sample: T)
    requires
        window.len() > 0,
    ensures
        window.drop_first().push(sample).len() == window.len(),
        window.drop_first().push(sample).last() == sample,
{
}

} // verus!
