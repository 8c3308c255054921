use vstd::prelude::*;

use crate::error::{command_error, is_command_error, CadencyError};
use crate::registry::{on_session, SessionRegistry};
use crate::session::{SessionError, SessionModel};
use crate::track::{LoopMode, Track};

verus! {

pub open spec fn server_only_text() -> Seq<char> {
    "❌ **This command can only be executed on a server**"@
}

pub open spec fn no_session_text() -> Seq<char> {
    "❌ **No active voice session on the server**"@
}

pub open spec fn no_song_text() -> Seq<char> {
    "❌ **No song is playing**"@
}

pub open spec fn loop_failed_text() -> Seq<char> {
    "❌ **Could not loop track**"@
}

/// The guild of a voice command, checked to run on a server that has a
/// voice session.
pub open spec fn voice_guild_ok(registry: Map<u64, SessionModel>, guild_id: Option<u64>) -> bool {
    guild_id is Some && registry.contains_key(guild_id->0)
}

/// The error of a voice command whose guild check fails.
pub open spec fn voice_guild_error<T>(
    registry: Map<u64, SessionModel>,
    guild_id: Option<u64>,
    r: Result<T, CadencyError>,
) -> bool {
    match guild_id {
        None => is_command_error(r, server_only_text()),
        Some(g) => !registry.contains_key(g) && is_command_error(r, no_session_text()),
    }
}

/// Checks that a voice command runs on a server with a voice session.
pub fn voice_guild(registry: &SessionRegistry, guild_id: Option<u64>) -> (r: Result<
    u64,
    CadencyError,
>)
    ensures
        voice_guild_ok(registry@, guild_id) ==> r == Ok::<u64, CadencyError>(guild_id->0),
        !voice_guild_ok(registry@, guild_id) ==> voice_guild_error(registry@, guild_id, r),
{
    match guild_id {
        None => Err(command_error("❌ **This command can only be executed on a server**")),
        Some(g) => if registry.contains(g) {
            Ok(g)
        } else {
            Err(command_error("❌ **No active voice session on the server**"))
        },
    }
}

/// The contract shared by the queue commands: the guild check, then the
/// session operation `f`, whose `QueueEmpty` becomes `Ok(false)` ("nothing
/// to do") and whose success becomes `Ok(true)`.
pub open spec fn queue_command(
    old_reg: Map<u64, SessionModel>,
    new_reg: Map<u64, SessionModel>,
    guild_id: Option<u64>,
    f: spec_fn(SessionModel) -> (SessionModel, Result<(), SessionError>),
    r: Result<bool, CadencyError>,
) -> bool {
    if voice_guild_ok(old_reg, guild_id) {
        let (m, res) = on_session(old_reg, guild_id->0, f);
        &&& new_reg == m
        &&& r == Ok::<bool, CadencyError>(res is Ok)
    } else {
        &&& new_reg == old_reg
        &&& voice_guild_error(old_reg, guild_id, r)
    }
}

/// Turns the outcome of a queue operation into a command reply.
fn queue_reply(res: Result<(), SessionError>) -> (r: Result<bool, CadencyError>)
    requires
        res is Ok || res == Err::<(), SessionError>(SessionError::QueueEmpty),
    ensures
        r == Ok::<bool, CadencyError>(res is Ok),
{
    match res {
        Ok(()) => Ok(true),
        Err(_) => Ok(false),
    }
}

/// Pauses the current song.
#[derive(Debug, Default)]
pub struct Pause {}

impl Pause {
    /// `Ok(true)` when playback was paused, `Ok(false)` when there was
    /// nothing to pause.
    pub fn run(&self, registry: &mut SessionRegistry, guild_id: Option<u64>) -> (r: Result<
        bool,
        CadencyError,
    >)
        requires
            old(registry).wf(),
        ensures
            final(registry).wf(),
            queue_command(
                old(registry)@,
                final(registry)@,
                guild_id,
                |s: SessionModel| s.pause_spec(),
                r,
            ),
    {
        let g = voice_guild(registry, guild_id)?;
        let res = registry.pause(g);
        queue_reply(res)
    }
}

/// Resumes the current song if paused.
#[derive(Debug, Default)]
pub struct Resume {}

impl Resume {
    /// `Ok(true)` when playback was resumed, `Ok(false)` when the queue was
    /// empty.
    pub fn run(&self, registry: &mut SessionRegistry, guild_id: Option<u64>) -> (r: Result<
        bool,
        CadencyError,
    >)
        requires
            old(registry).wf(),
        ensures
            final(registry).wf(),
            queue_command(
                old(registry)@,
                final(registry)@,
                guild_id,
                |s: SessionModel| s.resume_spec(),
                r,
            ),
    {
        let g = voice_guild(registry, guild_id)?;
        let res = registry.resume(g);
        queue_reply(res)
    }
}

/// Skips the current song.
#[derive(Debug, Default)]
pub struct Skip {}

impl Skip {
    /// `Ok(true)` when the current song was skipped, `Ok(false)` when there
    /// was nothing to skip.
    pub fn run(&self, registry: &mut SessionRegistry, guild_id: Option<u64>) -> (r: Result<
        bool,
        CadencyError,
    >)
        requires
            old(registry).wf(),
        ensures
            final(registry).wf(),
            queue_command(
                old(registry)@,
                final(registry)@,
                guild_id,
                |s: SessionModel| s.skip_spec(),
                r,
            ),
    {
        let g = voice_guild(registry, guild_id)?;
        let res = registry.skip(g);
        queue_reply(res)
    }
}

/// Stops the music and clears the track list.
#[derive(Debug, Default)]
pub struct Stop {}

impl Stop {
    /// `Ok(true)` when the queue was cleared, `Ok(false)` when there was
    /// nothing to stop.
    pub fn run(&self, registry: &mut SessionRegistry, guild_id: Option<u64>) -> (r: Result<
        bool,
        CadencyError,
    >)
        requires
            old(registry).wf(),
        ensures
            final(registry).wf(),
            queue_command(
                old(registry)@,
                final(registry)@,
                guild_id,
                |s: SessionModel| s.stop_spec(),
                r,
            ),
    {
        let g = voice_guild(registry, guild_id)?;
        let res = registry.stop(g);
        queue_reply(res)
    }
}

/// Shows the current song.
#[derive(Debug, Default)]
pub struct Now {}

impl Now {
    /// The current track of the guild.
    pub fn run(&self, registry: &SessionRegistry, guild_id: Option<u64>) -> (r: Result<
        Track,
        CadencyError,
    >)
        ensures
            !voice_guild_ok(registry@, guild_id) ==> voice_guild_error(registry@, guild_id, r),
            voice_guild_ok(registry@, guild_id) && registry@[guild_id->0].tracks.len() == 0
                ==> is_command_error(r, no_song_text()),
            voice_guild_ok(registry@, guild_id) && registry@[guild_id->0].tracks.len() > 0
                ==> r == Ok::<Track, CadencyError>(registry@[guild_id->0].tracks[0]),
    {
        let g = voice_guild(registry, guild_id)?;
        match registry.current(g) {
            Ok(t) => Ok(t),
            Err(_) => Err(command_error("❌ **No song is playing**")),
        }
    }
}

/// Lists all tracks in the queue.
#[derive(Debug, Default)]
pub struct Tracks {}

impl Tracks {
    /// The guild's queue, current track first; empty when nothing is queued.
    pub fn run(&self, registry: &SessionRegistry, guild_id: Option<u64>) -> (r: Result<
        Vec<Track>,
        CadencyError,
    >)
        ensures
            !voice_guild_ok(registry@, guild_id) ==> voice_guild_error(registry@, guild_id, r),
            voice_guild_ok(registry@, guild_id) ==> r is Ok && r->Ok_0@ == registry@[guild_id->0].tracks,
    {
        let g = voice_guild(registry, guild_id)?;
        match registry.snapshot(g) {
            Ok(v) => Ok(v),
            Err(_) => Err(command_error("❌ **No active voice session on the server**")),
        }
    }
}

/// The loop request that the arguments of the loop command make: `stop`
/// set disables looping, else an amount asks for that many repetitions
/// (`None` for an amount below one), else the track loops forever.
pub open spec fn loop_request(amount: Option<i64>, stop: Option<bool>) -> Option<LoopMode> {
    if stop == Some(true) {
        Some(LoopMode::Disable)
    } else {
        match amount {
            Some(a) => if a > 0 {
                Some(LoopMode::Finite(a as u64))
            } else {
                None
            },
            None => Some(LoopMode::Infinite),
        }
    }
}

/// Loops the current track.
#[derive(Debug, Default)]
pub struct TrackLoop {}

impl TrackLoop {
    pub fn mode(amount: Option<i64>, stop: Option<bool>) -> (r: Option<LoopMode>)
        ensures
            r == loop_request(amount, stop),
            r is Some ==> r->0.wf(),
    {
        if stop == Some(true) {
            return Some(LoopMode::Disable);
        }
        match amount {
            Some(a) => if a > 0 {
                Some(LoopMode::Finite(a as u64))
            } else {
                None
            },
            None => Some(LoopMode::Infinite),
        }
    }

    /// Sets the loop policy of the current track and returns the request
    /// that was applied.
    pub fn run(
        &self,
        registry: &mut SessionRegistry,
        guild_id: Option<u64>,
        amount: Option<i64>,
        stop: Option<bool>,
    ) -> (r: Result<LoopMode, CadencyError>)
        requires
            old(registry).wf(),
        ensures
            final(registry).wf(),
            !voice_guild_ok(old(registry)@, guild_id) ==> voice_guild_error(
                old(registry)@,
                guild_id,
                r,
            ) && final(registry)@ == old(registry)@,
            voice_guild_ok(old(registry)@, guild_id) && old(registry)@[guild_id->0].tracks.len()
                == 0 ==> is_command_error(r, no_song_text()) && final(registry)@ == old(
                registry,
            )@,
            voice_guild_ok(old(registry)@, guild_id) && old(registry)@[guild_id->0].tracks.len()
                > 0 ==> match loop_request(amount, stop) {
                Some(mode) => r == Ok::<LoopMode, CadencyError>(mode) && final(registry)@
                    == on_session(
                    old(registry)@,
                    guild_id->0,
                    |s: SessionModel| s.set_loop_spec(mode),
                ).0,
                None => is_command_error(r, loop_failed_text()) && final(registry)@ == old(
                    registry,
                )@,
            },
    {
        let g = voice_guild(registry, guild_id)?;
        if registry.current(g).is_err() {
            return Err(command_error("❌ **No song is playing**"));
        }
        match TrackLoop::mode(amount, stop) {
            None => Err(command_error("❌ **Could not loop track**")),
            Some(mode) => {
                let _ = registry.set_loop(g, mode);
                Ok(mode)
            },
        }
    }
}

} // verus!
