use vstd::prelude::*;

use crate::track::{LoopPolicy, Track};

verus! {

/// The ordered tracks of one guild; the first one is the current track.
#[derive(Debug)]
pub struct PlaybackQueue {
    tracks: Vec<Track>,
}

impl View for PlaybackQueue {
    type V = Seq<Track>;

    closed spec fn view(&self) -> Seq<Track> {
        self.tracks@
    }
}

/// The current track after a change of its loop policy.
pub open spec fn relooped(tracks: Seq<Track>, p: LoopPolicy) -> Seq<Track> {
    tracks.update(0, tracks[0].with_policy(p))
}

/// The queue after the current track has played to its end: a looping
/// track stays current with one repetition fewer, any other leaves.
pub open spec fn after_finish(tracks: Seq<Track>) -> Seq<Track> {
    if tracks[0].loop_policy is Disabled {
        tracks.drop_first()
    } else {
        relooped(tracks, tracks[0].loop_policy.after_play())
    }
}

impl PlaybackQueue {
    pub fn new() -> (r: PlaybackQueue)
        ensures
            r@ == Seq::<Track>::empty(),
    {
        PlaybackQueue { tracks: Vec::new() }
    }

    pub fn len(&self) -> (r: usize)
        ensures
            r == self@.len(),
    {
        self.tracks.len()
    }

    pub fn is_empty(&self) -> (r: bool)
        ensures
            r == (self@.len() == 0),
    {
        self.tracks.len() == 0
    }

    /// Appends a track at the tail.
    pub fn push(&mut self, t: Track)
        ensures
            final(self)@ == old(self)@.push(t),
    {
        self.tracks.push(t);
    }

    /// Removes the current track; the second one becomes current.
    pub fn pop_front(&mut self) -> (r: Track)
        requires
            old(self)@.len() > 0,
        ensures
            r == old(self)@[0],
            final(self)@ == old(self)@.drop_first(),
    {
        let r = self.tracks.remove(0);
        assert(self.tracks@ =~= old(self)@.drop_first());
        r
    }

    /// Drops every track at once.
    pub fn clear(&mut self)
        ensures
            final(self)@ == Seq::<Track>::empty(),
    {
        self.tracks.clear();
    }

    /// Sets the loop policy of the current track.
    pub fn set_current_policy(&mut self, p: LoopPolicy)
        requires
            old(self)@.len() > 0,
        ensures
            final(self)@ == relooped(old(self)@, p),
    {
        let mut t = self.tracks.remove(0);
        t.loop_policy = p;
        self.tracks.insert(0, t);
        assert(self.tracks@ =~= relooped(old(self)@, p));
    }

    /// Records that the current track has played to its end.
    pub fn finish_current(&mut self)
        requires
            old(self)@.len() > 0,
        ensures
            final(self)@ == after_finish(old(self)@),
    {
        let p = self.tracks[0].loop_policy;
        if p.is_looping() {
            let next = p.next_after_play();
            self.set_current_policy(next);
        } else {
            let _ = self.pop_front();
        }
    }

    /// A copy of the current track, if any.
    pub fn current(&self) -> (r: Option<Track>)
        ensures
            self@.len() == 0 ==> r is None,
            self@.len() > 0 ==> r == Some(self@[0]),
    {
        if self.tracks.len() == 0 {
            None
        } else {
            Some(self.tracks[0].copy())
        }
    }

    /// A copy of every track, in queue order.
    pub fn snapshot(&self) -> (r: Vec<Track>)
        ensures
            r@ == self@,
    {
        let mut out: Vec<Track> = Vec::new();
        let mut i: usize = 0;
        while i < self.tracks.len()
            invariant
                i <= self.tracks@.len(),
                out@ == self.tracks@.take(i as int),
            decreases self.tracks@.len() - i,
        {
            out.push(self.tracks[i].copy());
            i = i + 1;
            assert(out@ =~= self.tracks@.take(i as int));
        }
        assert(self.tracks@.take(i as int) =~= self.tracks@);
        out
    }
}

} // verus!
