use vstd::prelude::*;

verus! {

/// Running tally of one transfer: bytes moved so far, the expected total when
/// the response declared one, and whether the caller asked for silent
/// operation. Rendering is left to the caller; this state only counts.
pub struct ProgressState {
    pub transferred: u64,
    pub total: Option<u64>,
    pub quiet: bool,
    pub finished: bool,
}

impl ProgressState {
    pub fn new(total: Option<u64>, quiet: bool) -> (r: ProgressState)
        ensures
            r.transferred == 0,
            r.total == total,
            r.quiet == quiet,
            !r.finished,
    {
        ProgressState { transferred: 0, total, quiet, finished: false }
    }

    /// Record that `n` more bytes of the body have been consumed.
    pub fn advance(&mut self, n: u64)
        requires
            !old(self).finished,
            old(self).transferred + n <= u64::MAX,
        ensures
            final(self).transferred == old(self).transferred + n,
            final(self).total == old(self).total,
            final(self).quiet == old(self).quiet,
            !final(self).finished,
    {
        self.transferred = self.transferred + n;
    }

    /// Mark the transfer complete; everything else is left as it was.
    pub fn finish(&mut self)
        ensures
            *final(self) == (ProgressState { finished: true, ..*old(self) }),
    {
        self.finished = true;
    }
}

} // verus!
