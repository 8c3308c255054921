use vstd::prelude::*;

use crate::error::{command_error, is_command_error, CadencyError};
use crate::ingest::IngestLimits;
use crate::registry::SessionRegistry;
use crate::session::{ResolutionError, SessionError, SessionModel};
use crate::track::{Track, TrackMetadata};
use crate::voice::no_session_text;

verus! {

/// The texts of a sequence of strings.
pub open spec fn text_views(v: Seq<String>) -> Seq<Seq<char>> {
    v.map_values(|s: String| s@)
}

/// The keys of the query of `s` in order, or `None` when `s` is not an
/// absolute URL.
pub uninterp spec fn parsed_query_keys(s: Seq<char>) -> Option<Seq<Seq<char>>>;

/// Relies on `reqwest::Url::parse` (the `url` crate) to tell an absolute URL
/// from search text, and on `Url::query_pairs` for the decoded keys of its
/// query, in order.
#[verifier::external_body]
fn query_keys(s: &str) -> (r: Option<Vec<String>>)
    ensures
        match r {
            None => parsed_query_keys(s@) is None,
            Some(keys) => parsed_query_keys(s@) == Some(text_views(keys@)),
        },
{
    reqwest::Url::parse(s).ok().map(|u| u.query_pairs().map(|(k, _)| k.into_owned()).collect())
}

/// What the query of the play command names.
#[derive(Clone, Copy, PartialEq, Eq, Structural, Debug)]
pub enum QueryKind {
    /// Text to search for.
    Search,
    /// A direct URL of one source.
    Url,
    /// A URL whose query has a `list` key: a playlist.
    Playlist,
}

pub open spec fn query_kind_of(keys: Option<Seq<Seq<char>>>) -> QueryKind {
    match keys {
        None => QueryKind::Search,
        Some(k) => if k.contains("list"@) {
            QueryKind::Playlist
        } else {
            QueryKind::Url
        },
    }
}

pub open spec fn unavailable_text() -> Seq<char> {
    "❌ **Video is unavailable!**\n\nThis video may be private, deleted, or region-restricted."@
}

pub open spec fn add_failed_text() -> Seq<char> {
    "❌ **Couldn't add audio source to the queue!**\n\nPlease check the URL or search query."@
}

pub open spec fn failure_text(e: ResolutionError) -> Seq<char> {
    match e {
        ResolutionError::Unavailable => unavailable_text(),
        ResolutionError::Other => add_failed_text(),
    }
}

impl QueryKind {
    /// The kind of a query whose URL parse gave `keys`.
    pub fn from_query_keys(keys: &Option<Vec<String>>) -> (r: QueryKind)
        ensures
            r == query_kind_of(
                match keys {
                    None => None,
                    Some(k) => Some(text_views(k@)),
                },
            ),
    {
        match keys {
            None => QueryKind::Search,
            Some(k) => {
                let ghost views = text_views(k@);
                let list = String::from_str("list");
                let mut i: usize = 0;
                while i < k.len()
                    invariant
                        i <= k@.len(),
                        views == text_views(k@),
                        list@ == "list"@,
                        *keys == Some(*k),
                        forall|j: int| 0 <= j < i ==> views[j] != "list"@,
                    decreases k@.len() - i,
                {
                    if k[i] == list {
                        assert(views[i as int] == k@[i as int]@);
                        assert(views[i as int] == "list"@);
                        assert(views.contains("list"@));
                        return QueryKind::Playlist;
                    }
                    assert(views[i as int] == k@[i as int]@);
                    i = i + 1;
                }
                assert(!views.contains("list"@));
                QueryKind::Url
            },
        }
    }

    pub fn is_url(&self) -> (r: bool)
        ensures
            r == (*self != QueryKind::Search),
    {
        match self {
            QueryKind::Search => false,
            _ => true,
        }
    }
}

/// Plays a song, or a whole playlist, from a URL or a search query.
#[derive(Debug)]
pub struct Play {
    /// The largest number of songs that one playlist adds to the queue.
    playlist_song_limit: i32,
    /// The longest a single song of a playlist may be, in seconds.
    song_length_limit_secs: u64,
}

impl Play {
    pub closed spec fn playlist_song_limit(&self) -> i32 {
        self.playlist_song_limit
    }

    pub closed spec fn song_length_limit_secs(&self) -> u64 {
        self.song_length_limit_secs
    }

    pub fn new(playlist_song_limit: i32, song_length_limit_secs: u64) -> (r: Play)
        ensures
            r.playlist_song_limit() == playlist_song_limit,
            r.song_length_limit_secs() == song_length_limit_secs,
    {
        Play { playlist_song_limit, song_length_limit_secs }
    }

    /// The limits of a playlist ingestion; a negative song limit admits no
    /// song.
    pub fn limits(&self) -> (r: IngestLimits)
        ensures
            r.max_items == if self.playlist_song_limit() < 0 {
                0
            } else {
                self.playlist_song_limit() as u64
            },
            r.max_item_duration_secs == self.song_length_limit_secs(),
    {
        let max_items: u64 = if self.playlist_song_limit < 0 {
            0
        } else {
            self.playlist_song_limit as u64
        };
        IngestLimits { max_items, max_item_duration_secs: self.song_length_limit_secs }
    }

    /// Tells a playlist or a direct URL from search text.
    pub fn classify(query: &str) -> (r: QueryKind)
        ensures
            r == query_kind_of(parsed_query_keys(query@)),
    {
        let keys = query_keys(query);
        QueryKind::from_query_keys(&keys)
    }

    /// The message for a source that could not be added.
    pub fn failure_message(e: ResolutionError) -> (r: &'static str)
        ensures
            r@ == failure_text(e),
    {
        match e {
            ResolutionError::Unavailable => "❌ **Video is unavailable!**\n\nThis video may be private, deleted, or region-restricted.",
            ResolutionError::Other => "❌ **Couldn't add audio source to the queue!**\n\nPlease check the URL or search query.",
        }
    }

    /// Opens (or finds) the voice session of the guild; `joined` is the
    /// channel that joining reached, `None` when joining failed.
    pub fn join(registry: &mut SessionRegistry, guild_id: u64, joined: Option<u64>) -> (r: Result<
        (),
        CadencyError,
    >)
        requires
            old(registry).wf(),
        ensures
            final(registry).wf(),
            old(registry)@.contains_key(guild_id) ==> r is Ok && final(registry)@ == old(
                registry,
            )@,
            !old(registry)@.contains_key(guild_id) ==> match joined {
                Some(c) => r is Ok && final(registry)@ == old(registry)@.insert(
                    guild_id,
                    SessionModel::fresh(guild_id, c),
                ),
                None => r is Err && r->Err_0 is Join && final(registry)@ == old(registry)@,
            },
    {
        match registry.get_or_join(guild_id, joined) {
            Ok(()) => Ok(()),
            Err(_) => Err(CadencyError::Join),
        }
    }

    /// Adds what the resolver made of a single query to the guild's queue.
    pub fn add_song(
        registry: &mut SessionRegistry,
        guild_id: u64,
        query: String,
        is_url: bool,
        outcome: Result<TrackMetadata, ResolutionError>,
    ) -> (r: Result<Track, CadencyError>)
        requires
            old(registry).wf(),
        ensures
            final(registry).wf(),
            !old(registry)@.contains_key(guild_id) ==> is_command_error(r, no_session_text())
                && final(registry)@ == old(registry)@,
            old(registry)@.contains_key(guild_id) ==> match outcome {
                Ok(meta) => r is Ok && r->Ok_0.resolved(query@, is_url, meta) && final(registry)@
                    == old(registry)@.insert(
                    guild_id,
                    old(registry)@[guild_id].with_track(r->Ok_0).rearmed(),
                ),
                Err(e) => is_command_error(r, failure_text(e)) && final(registry)@ == old(
                    registry,
                )@,
            },
    {
        match registry.add(guild_id, query, is_url, outcome) {
            Ok(t) => Ok(t),
            Err(SessionError::ResolutionFailed(e)) => Err(command_error(Play::failure_message(e))),
            Err(_) => Err(command_error("❌ **No active voice session on the server**")),
        }
    }
}

} // verus!
