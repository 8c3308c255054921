use vstd::prelude::*;

verus! {

/// How often the current track repeats before the queue moves on.
#[derive(Clone, Copy, PartialEq, Eq, Structural, Debug)]
pub enum LoopPolicy {
    Disabled,
    FiniteRemaining(u64),
    Infinite,
}

impl LoopPolicy {
    /// A finite policy always has at least one repetition left.
    pub open spec fn wf(self) -> bool {
        match self {
            LoopPolicy::FiniteRemaining(n) => n > 0,
            _ => true,
        }
    }

    /// The policy after the track has played once more to its end.
    pub open spec fn after_play(self) -> LoopPolicy {
        match self {
            LoopPolicy::FiniteRemaining(n) => if n <= 1 {
                LoopPolicy::Disabled
            } else {
                LoopPolicy::FiniteRemaining((n - 1) as u64)
            },
            other => other,
        }
    }

    pub fn is_looping(&self) -> (r: bool)
        ensures
            r == !(*self is Disabled),
    {
        match self {
            LoopPolicy::Disabled => false,
            _ => true,
        }
    }

    pub fn next_after_play(&self) -> (r: LoopPolicy)
        ensures
            r == self.after_play(),
    {
        match *self {
            LoopPolicy::FiniteRemaining(n) => if n <= 1 {
                LoopPolicy::Disabled
            } else {
                LoopPolicy::FiniteRemaining(n - 1)
            },
            other => other,
        }
    }
}

/// A request to change the loop policy of the current track.
#[derive(Clone, Copy, PartialEq, Eq, Structural, Debug)]
pub enum LoopMode {
    Disable,
    Infinite,
    Finite(u64),
}

impl LoopMode {
    /// A finite loop request asks for at least one repetition.
    pub open spec fn wf(self) -> bool {
        match self {
            LoopMode::Finite(n) => n > 0,
            _ => true,
        }
    }

    pub open spec fn spec_policy(self) -> LoopPolicy {
        match self {
            LoopMode::Disable => LoopPolicy::Disabled,
            LoopMode::Infinite => LoopPolicy::Infinite,
            LoopMode::Finite(n) => LoopPolicy::FiniteRemaining(n),
        }
    }

    pub fn policy(&self) -> (r: LoopPolicy)
        ensures
            r == self.spec_policy(),
    {
        match *self {
            LoopMode::Disable => LoopPolicy::Disabled,
            LoopMode::Infinite => LoopPolicy::Infinite,
            LoopMode::Finite(n) => LoopPolicy::FiniteRemaining(n),
        }
    }
}

/// What the source resolver reports about a playable source.
#[derive(Debug)]
pub struct TrackMetadata {
    pub title: Option<String>,
    pub source_url: Option<String>,
    pub duration_secs: Option<u64>,
}

/// One playable item of a queue.
#[derive(Debug)]
pub struct Track {
    pub title: Option<String>,
    pub source_locator: String,
    pub duration_secs: Option<u64>,
    pub loop_policy: LoopPolicy,
}

pub fn copy_text(s: &Option<String>) -> (r: Option<String>)
    ensures
        r == *s,
{
    match s {
        Some(t) => Some(t.clone()),
        None => None,
    }
}

/// The locator a resolved track is known by: the direct URL that was asked
/// for, else the source the resolver found, else the search text itself.
pub open spec fn locator_of(
    requested: Seq<char>,
    is_direct_url: bool,
    source_url: Option<String>,
) -> Seq<char> {
    if is_direct_url {
        requested
    } else {
        match source_url {
            Some(u) => u@,
            None => requested,
        }
    }
}

impl Track {
    pub open spec fn wf(&self) -> bool {
        self.loop_policy.wf()
    }

    /// The track that a successful resolution of `requested` yields.
    pub open spec fn resolved(
        self,
        requested: Seq<char>,
        is_direct_url: bool,
        meta: TrackMetadata,
    ) -> bool {
        &&& self.title == meta.title
        &&& self.source_locator@ == locator_of(requested, is_direct_url, meta.source_url)
        &&& self.duration_secs == meta.duration_secs
        &&& self.loop_policy == LoopPolicy::Disabled
    }

    pub fn from_metadata(requested: String, is_direct_url: bool, meta: TrackMetadata) -> (r: Track)
        ensures
            r.resolved(requested@, is_direct_url, meta),
            r.wf(),
    {
        let TrackMetadata { title, source_url, duration_secs } = meta;
        let source_locator = if is_direct_url {
            requested
        } else {
            match source_url {
                Some(u) => u,
                None => requested,
            }
        };
        Track { title, source_locator, duration_secs, loop_policy: LoopPolicy::Disabled }
    }

    pub fn copy(&self) -> (r: Track)
        ensures
            r == *self,
    {
        Track {
            title: copy_text(&self.title),
            source_locator: self.source_locator.clone(),
            duration_secs: self.duration_secs,
            loop_policy: self.loop_policy,
        }
    }

    pub open spec fn with_policy(self, p: LoopPolicy) -> Track {
        Track { loop_policy: p, ..self }
    }
}

} // verus!
