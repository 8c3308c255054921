use vstd::prelude::*;

use crate::queue::{after_finish, relooped, PlaybackQueue};
use crate::track::{LoopMode, Track, TrackMetadata};

verus! {

/// Why a source could not be turned into playable audio.
#[derive(Clone, Copy, PartialEq, Eq, Structural, Debug)]
pub enum ResolutionError {
    /// The source was removed, made private or is restricted.
    Unavailable,
    /// Any other failure of the resolver.
    Other,
}

/// The typed errors of the session operations.
#[derive(Clone, Copy, PartialEq, Eq, Structural, Debug)]
pub enum SessionError {
    NoActiveSession,
    QueueEmpty,
    NoCurrentTrack,
    JoinError,
    ResolutionFailed(ResolutionError),
    FetchError,
}

impl SessionError {
    /// The message a user reads for the error.
    pub open spec fn text(self) -> Seq<char> {
        match self {
            SessionError::NoActiveSession => "❌ **No active voice session on the server**"@,
            SessionError::QueueEmpty => "❌ **No tracks in the queue**"@,
            SessionError::NoCurrentTrack => "❌ **No song is playing**"@,
            SessionError::JoinError => "❌ **Failed to join a voice channel**"@,
            SessionError::ResolutionFailed(ResolutionError::Unavailable) =>
                "❌ **Video is unavailable!**\n\nThis video may be private, deleted, or region-restricted."@,
            SessionError::ResolutionFailed(ResolutionError::Other) =>
                "❌ **Couldn't add audio source to the queue!**\n\nPlease check the URL or search query."@,
            SessionError::FetchError => "❌ **Could not read the playlist**"@,
        }
    }

    pub fn message(&self) -> (r: &'static str)
        ensures
            r@ == self.text(),
    {
        match self {
            SessionError::NoActiveSession => "❌ **No active voice session on the server**",
            SessionError::QueueEmpty => "❌ **No tracks in the queue**",
            SessionError::NoCurrentTrack => "❌ **No song is playing**",
            SessionError::JoinError => "❌ **Failed to join a voice channel**",
            SessionError::ResolutionFailed(ResolutionError::Unavailable) =>
                "❌ **Video is unavailable!**\n\nThis video may be private, deleted, or region-restricted.",
            SessionError::ResolutionFailed(ResolutionError::Other) =>
                "❌ **Couldn't add audio source to the queue!**\n\nPlease check the URL or search query.",
            SessionError::FetchError => "❌ **Could not read the playlist**",
        }
    }
}

/// What the inactivity watchdog decides on one of its ticks.
#[derive(Clone, Copy, PartialEq, Eq, Structural, Debug)]
pub enum WatchdogVerdict {
    /// The tick belongs to a registration that has since been replaced.
    Stale,
    /// The session has tracks and stays connected.
    Keep,
    /// The session has been idle for a whole interval and leaves.
    Disconnect,
}

/// The abstract state of a guild voice session.
pub struct SessionModel {
    pub guild_id: u64,
    pub channel_id: u64,
    pub tracks: Seq<Track>,
    pub paused: bool,
    pub watchdog: u64,
}

/// The registration that replaces watchdog registration `g`.
pub open spec fn next_generation(g: u64) -> u64 {
    if g == u64::MAX {
        0
    } else {
        (g + 1) as u64
    }
}

impl SessionModel {
    /// A fresh session: empty queue, first watchdog registration.
    pub open spec fn fresh(guild_id: u64, channel_id: u64) -> SessionModel {
        SessionModel { guild_id, channel_id, tracks: Seq::empty(), paused: false, watchdog: 0 }
    }

    /// The session after `t` was appended; playback starts at once when the
    /// queue was empty.
    pub open spec fn with_track(self, t: Track) -> SessionModel {
        SessionModel {
            tracks: self.tracks.push(t),
            paused: if self.tracks.len() == 0 {
                false
            } else {
                self.paused
            },
            ..self
        }
    }

    /// The session after its watchdog registration was replaced.
    pub open spec fn rearmed(self) -> SessionModel {
        SessionModel { watchdog: next_generation(self.watchdog), ..self }
    }

    pub open spec fn pause_spec(self) -> (SessionModel, Result<(), SessionError>) {
        if self.tracks.len() == 0 {
            (self, Err(SessionError::QueueEmpty))
        } else {
            (SessionModel { paused: true, ..self }, Ok(()))
        }
    }

    pub open spec fn resume_spec(self) -> (SessionModel, Result<(), SessionError>) {
        if self.tracks.len() == 0 {
            (self, Err(SessionError::QueueEmpty))
        } else {
            (SessionModel { paused: false, ..self }, Ok(()))
        }
    }

    pub open spec fn skip_spec(self) -> (SessionModel, Result<(), SessionError>) {
        if self.tracks.len() == 0 {
            (self, Err(SessionError::QueueEmpty))
        } else {
            (SessionModel { tracks: self.tracks.drop_first(), paused: false, ..self }, Ok(()))
        }
    }

    pub open spec fn stop_spec(self) -> (SessionModel, Result<(), SessionError>) {
        if self.tracks.len() == 0 {
            (self, Err(SessionError::QueueEmpty))
        } else {
            (SessionModel { tracks: Seq::empty(), paused: false, ..self }, Ok(()))
        }
    }

    pub open spec fn set_loop_spec(self, mode: LoopMode) -> (SessionModel, Result<(), SessionError>) {
        if self.tracks.len() == 0 {
            (self, Err(SessionError::NoCurrentTrack))
        } else {
            (
                SessionModel { tracks: relooped(self.tracks, mode.spec_policy()), ..self },
                Ok(()),
            )
        }
    }

    pub open spec fn finish_spec(self) -> (SessionModel, Result<(), SessionError>) {
        if self.tracks.len() == 0 {
            (self, Err(SessionError::QueueEmpty))
        } else {
            (SessionModel { tracks: after_finish(self.tracks), ..self }, Ok(()))
        }
    }

    pub open spec fn tick_spec(self, generation: u64) -> WatchdogVerdict {
        if generation != self.watchdog {
            WatchdogVerdict::Stale
        } else if self.tracks.len() == 0 {
            WatchdogVerdict::Disconnect
        } else {
            WatchdogVerdict::Keep
        }
    }
}

/// The session after each track of `ts` was added in turn.
pub open spec fn add_all(s: SessionModel, ts: Seq<Track>) -> SessionModel
    decreases ts.len(),
{
    if ts.len() == 0 {
        s
    } else {
        add_all(s, ts.drop_last()).with_track(ts.last()).rearmed()
    }
}

/// Adds, one completing before the next begins, queue their tracks at the
/// tail in order of arrival; on an empty session the queue is exactly the
/// arrival order.
pub proof fn lemma_add_fifo(s: SessionModel, ts: Seq<Track>)
    ensures
        add_all(s, ts).tracks == s.tracks + ts,
        s.tracks.len() == 0 ==> add_all(s, ts).tracks == ts,
    decreases ts.len(),
{
    if ts.len() > 0 {
        lemma_add_fifo(s, ts.drop_last());
        assert(s.tracks + ts =~= (s.tracks + ts.drop_last()).push(ts.last()));
    }
    assert(s.tracks + ts =~= s.tracks + ts);
    if s.tracks.len() == 0 {
        assert(s.tracks + ts =~= ts);
    }
}

/// Stop always leaves an empty queue, so a second stop in a row reports
/// `QueueEmpty`.
pub proof fn lemma_stop_twice(s: SessionModel)
    ensures
        s.stop_spec().0.tracks.len() == 0,
        s.stop_spec().0.stop_spec().1 == Err::<(), SessionError>(SessionError::QueueEmpty),
        s.stop_spec().0.stop_spec().0 == s.stop_spec().0,
{
}

/// Pausing twice in a row is harmless: the second pause succeeds without
/// change when there is a track, and otherwise reports only `QueueEmpty`.
pub proof fn lemma_pause_twice(s: SessionModel)
    ensures
        s.tracks.len() > 0 ==> s.pause_spec().0.pause_spec() == (s.pause_spec().0, Ok::<
            (),
            SessionError,
        >(())),
        s.tracks.len() == 0 ==> s.pause_spec().0.pause_spec() == (s, Err::<(), SessionError>(
            SessionError::QueueEmpty,
        )),
{
}

/// One guild's voice connection together with its queue.
#[derive(Debug)]
pub struct GuildVoiceSession {
    guild_id: u64,
    channel_id: u64,
    queue: PlaybackQueue,
    paused: bool,
    watchdog: u64,
}

impl View for GuildVoiceSession {
    type V = SessionModel;

    closed spec fn view(&self) -> SessionModel {
        SessionModel {
            guild_id: self.guild_id,
            channel_id: self.channel_id,
            tracks: self.queue@,
            paused: self.paused,
            watchdog: self.watchdog,
        }
    }
}

impl GuildVoiceSession {
    /// The session that a successful join of `channel_id` opens.
    pub fn new(guild_id: u64, channel_id: u64) -> (r: GuildVoiceSession)
        ensures
            r@ == SessionModel::fresh(guild_id, channel_id),
    {
        GuildVoiceSession { guild_id, channel_id, queue: PlaybackQueue::new(), paused: false, watchdog: 0 }
    }

    pub fn guild_id(&self) -> (r: u64)
        ensures
            r == self@.guild_id,
    {
        self.guild_id
    }

    pub fn channel_id(&self) -> (r: u64)
        ensures
            r == self@.channel_id,
    {
        self.channel_id
    }

    /// The current watchdog registration.
    pub fn watchdog(&self) -> (r: u64)
        ensures
            r == self@.watchdog,
    {
        self.watchdog
    }

    pub fn is_paused(&self) -> (r: bool)
        ensures
            r == self@.paused,
    {
        self.paused
    }

    pub fn len(&self) -> (r: usize)
        ensures
            r == self@.tracks.len(),
    {
        self.queue.len()
    }

    pub fn is_empty(&self) -> (r: bool)
        ensures
            r == (self@.tracks.len() == 0),
    {
        self.queue.is_empty()
    }

    /// Appends a track at the tail, without touching the watchdog.
    pub fn enqueue(&mut self, t: Track)
        ensures
            final(self)@ == old(self)@.with_track(t),
    {
        if self.queue.is_empty() {
            self.paused = false;
        }
        self.queue.push(t);
    }

    /// Replaces the watchdog registration and returns the new one.
    pub fn rearm(&mut self) -> (r: u64)
        ensures
            final(self)@ == old(self)@.rearmed(),
            r == final(self)@.watchdog,
    {
        self.watchdog = if self.watchdog == u64::MAX {
            0
        } else {
            self.watchdog + 1
        };
        self.watchdog
    }

    /// Adds what the resolver made of `requested`: on success the track goes
    /// to the tail and the watchdog is rearmed; on failure nothing changes.
    pub fn add(
        &mut self,
        requested: String,
        is_direct_url: bool,
        outcome: Result<TrackMetadata, ResolutionError>,
    ) -> (r: Result<Track, SessionError>)
        ensures
            match outcome {
                Ok(meta) => r is Ok && r->Ok_0.resolved(requested@, is_direct_url, meta)
                    && final(self)@ == old(self)@.with_track(r->Ok_0).rearmed(),
                Err(e) => r == Err::<Track, SessionError>(SessionError::ResolutionFailed(e))
                    && final(self)@ == old(self)@,
            },
    {
        match outcome {
            Ok(meta) => {
                let t = Track::from_metadata(requested, is_direct_url, meta);
                self.enqueue(t.copy());
                let _ = self.rearm();
                Ok(t)
            },
            Err(e) => Err(SessionError::ResolutionFailed(e)),
        }
    }

    pub fn pause(&mut self) -> (r: Result<(), SessionError>)
        ensures
            (final(self)@, r) == old(self)@.pause_spec(),
    {
        if self.queue.is_empty() {
            Err(SessionError::QueueEmpty)
        } else {
            self.paused = true;
            Ok(())
        }
    }

    pub fn resume(&mut self) -> (r: Result<(), SessionError>)
        ensures
            (final(self)@, r) == old(self)@.resume_spec(),
    {
        if self.queue.is_empty() {
            Err(SessionError::QueueEmpty)
        } else {
            self.paused = false;
            Ok(())
        }
    }

    /// Removes the current track; the next one becomes current.
    pub fn skip(&mut self) -> (r: Result<(), SessionError>)
        ensures
            (final(self)@, r) == old(self)@.skip_spec(),
            old(self)@.tracks.len() > 0 ==> final(self)@.tracks.len() == old(self)@.tracks.len() - 1,
            old(self)@.tracks.len() > 1 ==> final(self)@.tracks[0] == old(self)@.tracks[1],
    {
        if self.queue.is_empty() {
            Err(SessionError::QueueEmpty)
        } else {
            let _ = self.queue.pop_front();
            self.paused = false;
            Ok(())
        }
    }

    /// Clears the whole queue and halts playback.
    pub fn stop(&mut self) -> (r: Result<(), SessionError>)
        ensures
            (final(self)@, r) == old(self)@.stop_spec(),
            final(self)@.tracks.len() == 0,
    {
        if self.queue.is_empty() {
            Err(SessionError::QueueEmpty)
        } else {
            self.queue.clear();
            self.paused = false;
            Ok(())
        }
    }

    /// Changes the loop policy of the current track.
    pub fn set_loop(&mut self, mode: LoopMode) -> (r: Result<(), SessionError>)
        requires
            mode.wf(),
        ensures
            (final(self)@, r) == old(self)@.set_loop_spec(mode),
    {
        if self.queue.is_empty() {
            Err(SessionError::NoCurrentTrack)
        } else {
            let p = mode.policy();
            self.queue.set_current_policy(p);
            Ok(())
        }
    }

    /// Records that the playback engine finished playing the current track.
    pub fn track_finished(&mut self) -> (r: Result<(), SessionError>)
        ensures
            (final(self)@, r) == old(self)@.finish_spec(),
    {
        if self.queue.is_empty() {
            Err(SessionError::QueueEmpty)
        } else {
            self.queue.finish_current();
            Ok(())
        }
    }

    /// A copy of the current track.
    pub fn current(&self) -> (r: Result<Track, SessionError>)
        ensures
            self@.tracks.len() == 0 ==> r == Err::<Track, SessionError>(SessionError::NoCurrentTrack),
            self@.tracks.len() > 0 ==> r == Ok::<Track, SessionError>(self@.tracks[0]),
    {
        match self.queue.current() {
            Some(t) => Ok(t),
            None => Err(SessionError::NoCurrentTrack),
        }
    }

    /// A copy of the whole queue, current track first.
    pub fn snapshot(&self) -> (r: Vec<Track>)
        ensures
            r@ == self@.tracks,
    {
        self.queue.snapshot()
    }

    /// What the watchdog decides on a tick of registration `generation`.
    pub fn watchdog_tick(&self, generation: u64) -> (r: WatchdogVerdict)
        ensures
            r == self@.tick_spec(generation),
    {
        if generation != self.watchdog {
            WatchdogVerdict::Stale
        } else if self.queue.is_empty() {
            WatchdogVerdict::Disconnect
        } else {
            WatchdogVerdict::Keep
        }
    }
}

} // verus!
