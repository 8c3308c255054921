use vstd::prelude::*;

use std::collections::HashMap;

use crate::session::{GuildVoiceSession, ResolutionError, SessionError, SessionModel, WatchdogVerdict};
use crate::track::{LoopMode, Track, TrackMetadata};

verus! {

broadcast use vstd::std_specs::hash::group_hash_axioms;

/// The result of an operation `f` on the session of guild `g`, or
/// `NoActiveSession` when the guild has none.
pub open spec fn on_session(
    m: Map<u64, SessionModel>,
    g: u64,
    f: spec_fn(SessionModel) -> (SessionModel, Result<(), SessionError>),
) -> (Map<u64, SessionModel>, Result<(), SessionError>) {
    if m.contains_key(g) {
        (m.insert(g, f(m[g]).0), f(m[g]).1)
    } else {
        (m, Err(SessionError::NoActiveSession))
    }
}

/// The registry after a watchdog tick of registration `generation` for
/// guild `g`, with the verdict.
pub open spec fn tick_registry(m: Map<u64, SessionModel>, g: u64, generation: u64) -> (
    Map<u64, SessionModel>,
    WatchdogVerdict,
) {
    if !m.contains_key(g) {
        (m, WatchdogVerdict::Stale)
    } else if m[g].tick_spec(generation) == WatchdogVerdict::Disconnect {
        (m.remove(g), WatchdogVerdict::Disconnect)
    } else {
        (m, m[g].tick_spec(generation))
    }
}

/// A session whose queue is empty, ticked by its current watchdog
/// registration after a full interval without an add, is disconnected and
/// leaves the registry.
pub proof fn lemma_watchdog_disconnects_idle(m: Map<u64, SessionModel>, g: u64)
    requires
        m.contains_key(g),
        m[g].tracks.len() == 0,
    ensures
        tick_registry(m, g, m[g].watchdog) == (m.remove(g), WatchdogVerdict::Disconnect),
        !tick_registry(m, g, m[g].watchdog).0.contains_key(g),
{
}

/// A session that receives an add before its interval elapses survives the
/// tick of the registration that the add replaced, and the tick of the new
/// registration too.
pub proof fn lemma_watchdog_spares_added(m: Map<u64, SessionModel>, g: u64, t: Track)
    requires
        m.contains_key(g),
    ensures
        ({
            let added = m.insert(g, m[g].with_track(t).rearmed());
            &&& tick_registry(added, g, m[g].watchdog) == (added, WatchdogVerdict::Stale)
            &&& tick_registry(added, g, added[g].watchdog) == (added, WatchdogVerdict::Keep)
            &&& added.contains_key(g)
        }),
{
    let added = m.insert(g, m[g].with_track(t).rearmed());
    assert(added[g].watchdog != m[g].watchdog);
    assert(added[g].tracks.len() > 0);
}

/// Every guild's voice session, at most one per guild.
#[derive(Debug)]
pub struct SessionRegistry {
    sessions: HashMap<u64, GuildVoiceSession>,
}

impl View for SessionRegistry {
    type V = Map<u64, SessionModel>;

    closed spec fn view(&self) -> Map<u64, SessionModel> {
        self.sessions@.map_values(|s: GuildVoiceSession| s@)
    }
}

impl SessionRegistry {
    /// Each session is filed under its own guild.
    pub closed spec fn wf(&self) -> bool {
        forall|g: u64| #[trigger] self.sessions@.contains_key(g) ==> self.sessions@[g]@.guild_id == g
    }

    pub fn new() -> (r: SessionRegistry)
        ensures
            r.wf(),
            r@ == Map::<u64, SessionModel>::empty(),
    {
        let r = SessionRegistry { sessions: HashMap::new() };
        assert(r@ =~= Map::<u64, SessionModel>::empty());
        r
    }

    pub fn contains(&self, guild_id: u64) -> (r: bool)
        ensures
            r == self@.contains_key(guild_id),
    {
        self.sessions.contains_key(&guild_id)
    }

    /// The session of a guild, without creating one.
    pub fn lookup(&self, guild_id: u64) -> (r: Option<&GuildVoiceSession>)
        ensures
            r is Some == self@.contains_key(guild_id),
            r is Some ==> r->0@ == self@[guild_id],
    {
        self.sessions.get(&guild_id)
    }

    /// Opens the session of a guild on its first join. `joined` is the
    /// channel that the join reached, or `None` where the join failed; it
    /// is not looked at when the guild already has a session.
    pub fn get_or_join(&mut self, guild_id: u64, joined: Option<u64>) -> (r: Result<(), SessionError>)
        requires
            old(self).wf(),
        ensures
            final(self).wf(),
            old(self)@.contains_key(guild_id) ==> r is Ok && final(self)@ == old(self)@,
            !old(self)@.contains_key(guild_id) ==> match joined {
                Some(c) => r is Ok && final(self)@ == old(self)@.insert(
                    guild_id,
                    SessionModel::fresh(guild_id, c),
                ),
                None => r == Err::<(), SessionError>(SessionError::JoinError) && final(self)@
                    == old(self)@,
            },
    {
        if self.sessions.contains_key(&guild_id) {
            return Ok(());
        }
        match joined {
            Some(c) => {
                let s = GuildVoiceSession::new(guild_id, c);
                self.sessions.insert(guild_id, s);
                assert(self@ =~= old(self)@.insert(guild_id, SessionModel::fresh(guild_id, c)));
                Ok(())
            },
            None => Err(SessionError::JoinError),
        }
    }

    /// Drops the session of a guild; a later lookup finds none.
    pub fn remove(&mut self, guild_id: u64) -> (r: Option<GuildVoiceSession>)
        requires
            old(self).wf(),
        ensures
            final(self).wf(),
            final(self)@ == old(self)@.remove(guild_id),
            r is Some == old(self)@.contains_key(guild_id),
            r is Some ==> r->0@ == old(self)@[guild_id],
    {
        let r = self.sessions.remove(&guild_id);
        assert(self@ =~= old(self)@.remove(guild_id));
        r
    }

    /// Takes the session of a guild out for an operation of several steps
    /// (such as an ingestion); `restore` files it again.
    pub fn take(&mut self, guild_id: u64) -> (r: Option<GuildVoiceSession>)
        requires
            old(self).wf(),
        ensures
            final(self).wf(),
            final(self)@ == old(self)@.remove(guild_id),
                        r is Some == old(self)@.contains_key(guild_id),
            r is Some ==> r->0@ == old(self)@[guild_id] && r->0@.guild_id == guild_id,
    {
        let r = self.sessions.remove(&guild_id);
        assert(self@ =~= old(self)@.remove(guild_id));
        r
    }

    /// Files a session under its guild.
    pub fn restore(&mut self, s: GuildVoiceSession)
        requires
            old(self).wf(),
        ensures
            final(self).wf(),
            final(self)@ == old(self)@.insert(s@.guild_id, s@),
    {
        let g = s.guild_id();
        proof {
            let ghost sv = s@;
            assert(sv.guild_id == g);
        }
        self.sessions.insert(g, s);
        assert(self@ =~= old(self)@.insert(g, self.sessions@[g]@));
    }

    /// Adds a resolved source to a guild's queue (see `GuildVoiceSession::add`).
    pub fn add(
        &mut self,
        guild_id: u64,
        requested: String,
        is_direct_url: bool,
        outcome: Result<TrackMetadata, ResolutionError>,
    ) -> (r: Result<Track, SessionError>)
        requires
            old(self).wf(),
        ensures
            final(self).wf(),
            !old(self)@.contains_key(guild_id) ==> r == Err::<Track, SessionError>(
                SessionError::NoActiveSession,
            ) && final(self)@ == old(self)@,
            old(self)@.contains_key(guild_id) ==> match outcome {
                Ok(meta) => r is Ok && r->Ok_0.resolved(requested@, is_direct_url, meta)
                    && final(self)@ == old(self)@.insert(
                    guild_id,
                    old(self)@[guild_id].with_track(r->Ok_0).rearmed(),
                ),
                Err(e) => r == Err::<Track, SessionError>(SessionError::ResolutionFailed(e))
                    && final(self)@ == old(self)@,
            },
    {
        match self.take(guild_id) {
            None => Err(SessionError::NoActiveSession),
            Some(mut s) => {
                let r = s.add(requested, is_direct_url, outcome);
                self.restore(s);
                proof {
                    if r is Err {
                        assert(self@ =~= old(self)@);
                    }
                }
                r
            },
        }
    }

    pub fn pause(&mut self, guild_id: u64) -> (r: Result<(), SessionError>)
        requires
            old(self).wf(),
        ensures
            final(self).wf(),
            (final(self)@, r) == on_session(old(self)@, guild_id, |s: SessionModel| s.pause_spec()),
    {
        match self.take(guild_id) {
            None => {
                assert(self@ =~= old(self)@);
                Err(SessionError::NoActiveSession)
            },
            Some(mut s) => {
                let r = s.pause();
                self.restore(s);
                r
            },
        }
    }

    pub fn resume(&mut self, guild_id: u64) -> (r: Result<(), SessionError>)
        requires
            old(self).wf(),
        ensures
            final(self).wf(),
            (final(self)@, r) == on_session(old(self)@, guild_id, |s: SessionModel| s.resume_spec()),
    {
        match self.take(guild_id) {
            None => {
                assert(self@ =~= old(self)@);
                Err(SessionError::NoActiveSession)
            },
            Some(mut s) => {
                let r = s.resume();
                self.restore(s);
                r
            },
        }
    }

    pub fn skip(&mut self, guild_id: u64) -> (r: Result<(), SessionError>)
        requires
            old(self).wf(),
        ensures
            final(self).wf(),
            (final(self)@, r) == on_session(old(self)@, guild_id, |s: SessionModel| s.skip_spec()),
    {
        match self.take(guild_id) {
            None => {
                assert(self@ =~= old(self)@);
                Err(SessionError::NoActiveSession)
            },
            Some(mut s) => {
                let r = s.skip();
                self.restore(s);
                r
            },
        }
    }

    pub fn stop(&mut self, guild_id: u64) -> (r: Result<(), SessionError>)
        requires
            old(self).wf(),
        ensures
            final(self).wf(),
            (final(self)@, r) == on_session(old(self)@, guild_id, |s: SessionModel| s.stop_spec()),
    {
        match self.take(guild_id) {
            None => {
                assert(self@ =~= old(self)@);
                Err(SessionError::NoActiveSession)
            },
            Some(mut s) => {
                let r = s.stop();
                self.restore(s);
                r
            },
        }
    }

    pub fn set_loop(&mut self, guild_id: u64, mode: LoopMode) -> (r: Result<(), SessionError>)
        requires
            old(self).wf(),
            mode.wf(),
        ensures
            final(self).wf(),
            (final(self)@, r) == on_session(
                old(self)@,
                guild_id,
                |s: SessionModel| s.set_loop_spec(mode),
            ),
    {
        match self.take(guild_id) {
            None => {
                assert(self@ =~= old(self)@);
                Err(SessionError::NoActiveSession)
            },
            Some(mut s) => {
                let r = s.set_loop(mode);
                self.restore(s);
                r
            },
        }
    }

    pub fn track_finished(&mut self, guild_id: u64) -> (r: Result<(), SessionError>)
        requires
            old(self).wf(),
        ensures
            final(self).wf(),
            (final(self)@, r) == on_session(old(self)@, guild_id, |s: SessionModel| s.finish_spec()),
    {
        match self.take(guild_id) {
            None => {
                assert(self@ =~= old(self)@);
                Err(SessionError::NoActiveSession)
            },
            Some(mut s) => {
                let r = s.track_finished();
                self.restore(s);
                r
            },
        }
    }

    /// A copy of the current track of a guild.
    pub fn current(&self, guild_id: u64) -> (r: Result<Track, SessionError>)
        ensures
            !self@.contains_key(guild_id) ==> r == Err::<Track, SessionError>(
                SessionError::NoActiveSession,
            ),
            self@.contains_key(guild_id) && self@[guild_id].tracks.len() == 0 ==> r == Err::<
                Track,
                SessionError,
            >(SessionError::NoCurrentTrack),
            self@.contains_key(guild_id) && self@[guild_id].tracks.len() > 0 ==> r == Ok::<
                Track,
                SessionError,
            >(self@[guild_id].tracks[0]),
    {
        match self.sessions.get(&guild_id) {
            None => Err(SessionError::NoActiveSession),
            Some(s) => s.current(),
        }
    }

    /// A copy of a guild's whole queue, current track first.
    pub fn snapshot(&self, guild_id: u64) -> (r: Result<Vec<Track>, SessionError>)
        ensures
            !self@.contains_key(guild_id) ==> r is Err && r->Err_0 == SessionError::NoActiveSession,
            self@.contains_key(guild_id) ==> r is Ok && r->Ok_0@ == self@[guild_id].tracks,
    {
        match self.sessions.get(&guild_id) {
            None => Err(SessionError::NoActiveSession),
            Some(s) => Ok(s.snapshot()),
        }
    }

    /// Handles a watchdog tick: an idle session whose registration is
    /// current leaves the registry.
    pub fn watchdog_tick(&mut self, guild_id: u64, generation: u64) -> (r: WatchdogVerdict)
        requires
            old(self).wf(),
        ensures
            final(self).wf(),
            (final(self)@, r) == tick_registry(old(self)@, guild_id, generation),
    {
        let verdict = match self.sessions.get(&guild_id) {
            None => WatchdogVerdict::Stale,
            Some(s) => s.watchdog_tick(generation),
        };
        if verdict == WatchdogVerdict::Disconnect {
            let _ = self.remove(guild_id);
        }
        verdict
    }
}

} // verus!
