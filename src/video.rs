use vstd::prelude::*;

pub mod resolution;

verus! {

/// How many frames a decoded stream still owes, as its container declared.
pub struct FrameCount {
    remaining: u64,
}

impl FrameCount {
    pub closed spec fn spec_remaining(&self) -> nat {
        self.remaining as nat
    }

    /// The count a stream starts with; a negative declared count stands for no
    /// count at all.
    pub fn new(number_of_frames: i64) -> (r: Option<FrameCount>)
        ensures
            number_of_frames >= 0 <==> r is Some,
            r matches Some(c) ==> c.spec_remaining() == number_of_frames,
    {
        if number_of_frames < 0 {
            None
        } else {
            Some(FrameCount { remaining: number_of_frames as u64 })
        }
    }

    /// Counts one decoded frame off; a frame beyond the declared count is
    /// refused and leaves the count as it was.
    pub fn take_frame(&mut self) -> (r: bool)
        ensures
            r <==> old(self).spec_remaining() > 0,
            r ==> final(self).spec_remaining() == old(self).spec_remaining() - 1,
            !r ==> final(self).spec_remaining() == old(self).spec_remaining(),
    {
        if self.remaining == 0 {
            false
        } else {
            self.remaining = self.remaining - 1;
            true
        }
    }

    /// The frames still to come, as an exact size hint; a count beyond the
    /// platform's size type is capped at its largest value.
    pub fn remaining(&self) -> (r: usize)
        ensures
            self.spec_remaining() <= usize::MAX ==> r == self.spec_remaining(),
            self.spec_remaining() > usize::MAX ==> r == usize::MAX,
    {
        match usize::try_from(self.remaining) {
            Ok(n) => n,
            Err(_) => usize::MAX,
        }
    }
}

} // verus!
