use cadency::ingest::{FetchedPlaylist, IngestLimits, Ingestion, PlaylistItem};
use cadency::registry::SessionRegistry;
use cadency::session::{GuildVoiceSession, ResolutionError, SessionError, WatchdogVerdict};
use cadency::track::{LoopMode, LoopPolicy, TrackMetadata};

fn meta(title: &str, secs: u64) -> TrackMetadata {
    TrackMetadata {
        title: Some(title.to_string()),
        source_url: Some(format!("https://example.com/{title}")),
        duration_secs: Some(secs),
    }
}

fn session_with(titles: &[&str]) -> GuildVoiceSession {
    let mut s = GuildVoiceSession::new(7, 70);
    for t in titles {
        s.add(t.to_string(), false, Ok(meta(t, 60))).unwrap();
    }
    s
}

fn titles(s: &GuildVoiceSession) -> Vec<String> {
    s.snapshot().into_iter().map(|t| t.title.unwrap()).collect()
}

#[test]
fn adds_keep_arrival_order() {
    let s = session_with(&["a", "b", "c", "d"]);
    assert_eq!(titles(&s), vec!["a", "b", "c", "d"]);
    assert_eq!(s.current().unwrap().title.as_deref(), Some("a"));
}

#[test]
fn add_records_locator() {
    let mut s = GuildVoiceSession::new(1, 2);
    let direct = s.add("https://x.test/v".to_string(), true, Ok(meta("v", 5))).unwrap();
    assert_eq!(direct.source_locator, "https://x.test/v");
    let searched = s.add("hey jude".to_string(), false, Ok(meta("jude", 5))).unwrap();
    assert_eq!(searched.source_locator, "https://example.com/jude");
    let unknown = s
        .add(
            "query".to_string(),
            false,
            Ok(TrackMetadata { title: None, source_url: None, duration_secs: None }),
        )
        .unwrap();
    assert_eq!(unknown.source_locator, "query");
    assert_eq!(unknown.loop_policy, LoopPolicy::Disabled);
}

#[test]
fn failed_add_leaves_queue() {
    let mut s = session_with(&["a"]);
    let before = s.watchdog();
    let r = s.add("gone".to_string(), true, Err(ResolutionError::Unavailable));
    assert_eq!(r.unwrap_err(), SessionError::ResolutionFailed(ResolutionError::Unavailable));
    let r = s.add("bad".to_string(), true, Err(ResolutionError::Other));
    assert_eq!(r.unwrap_err(), SessionError::ResolutionFailed(ResolutionError::Other));
    assert_eq!(titles(&s), vec!["a"]);
    assert_eq!(s.watchdog(), before);
}

#[test]
fn skip_advances_to_second() {
    let mut s = session_with(&["a", "b", "c"]);
    assert_eq!(s.skip(), Ok(()));
    assert_eq!(s.len(), 2);
    assert_eq!(s.current().unwrap().title.as_deref(), Some("b"));
}

#[test]
fn skip_on_empty_reports_queue_empty() {
    let mut s = session_with(&[]);
    assert_eq!(s.skip(), Err(SessionError::QueueEmpty));
    assert!(s.is_empty());
}

#[test]
fn stop_twice() {
    let mut s = session_with(&["a", "b"]);
    assert_eq!(s.stop(), Ok(()));
    assert!(s.is_empty());
    assert_eq!(s.stop(), Err(SessionError::QueueEmpty));
    assert!(s.is_empty());
}

#[test]
fn pause_twice_is_harmless() {
    let mut s = session_with(&["a"]);
    assert_eq!(s.pause(), Ok(()));
    assert_eq!(s.pause(), Ok(()));
    assert!(s.is_paused());
    assert_eq!(s.resume(), Ok(()));
    assert!(!s.is_paused());
    let mut e = session_with(&[]);
    assert_eq!(e.pause(), Err(SessionError::QueueEmpty));
    assert_eq!(e.pause(), Err(SessionError::QueueEmpty));
    assert_eq!(e.resume(), Err(SessionError::QueueEmpty));
}

#[test]
fn loop_policies() {
    let mut e = session_with(&[]);
    assert_eq!(e.set_loop(LoopMode::Infinite), Err(SessionError::NoCurrentTrack));
    let mut s = session_with(&["a", "b"]);
    assert_eq!(s.set_loop(LoopMode::Finite(2)), Ok(()));
    assert_eq!(s.current().unwrap().loop_policy, LoopPolicy::FiniteRemaining(2));
    assert_eq!(s.track_finished(), Ok(()));
    assert_eq!(s.current().unwrap().loop_policy, LoopPolicy::FiniteRemaining(1));
    assert_eq!(s.track_finished(), Ok(()));
    assert_eq!(s.current().unwrap().loop_policy, LoopPolicy::Disabled);
    assert_eq!(s.current().unwrap().title.as_deref(), Some("a"));
    assert_eq!(s.track_finished(), Ok(()));
    assert_eq!(titles(&s), vec!["b"]);
    assert_eq!(s.set_loop(LoopMode::Infinite), Ok(()));
    assert_eq!(s.track_finished(), Ok(()));
    assert_eq!(titles(&s), vec!["b"]);
    assert_eq!(s.set_loop(LoopMode::Disable), Ok(()));
    assert_eq!(s.track_finished(), Ok(()));
    assert!(s.is_empty());
    assert_eq!(s.track_finished(), Err(SessionError::QueueEmpty));
}

#[test]
fn registry_lifecycle() {
    let mut reg = SessionRegistry::new();
    assert!(!reg.contains(5));
    assert_eq!(reg.pause(5), Err(SessionError::NoActiveSession));
    assert_eq!(reg.get_or_join(5, None), Err(SessionError::JoinError));
    assert!(reg.lookup(5).is_none());
    assert_eq!(reg.get_or_join(5, Some(50)), Ok(()));
    assert_eq!(reg.lookup(5).unwrap().channel_id(), 50);
    assert_eq!(reg.get_or_join(5, Some(51)), Ok(()));
    assert_eq!(reg.lookup(5).unwrap().channel_id(), 50);
    assert!(reg.add(5, "a".to_string(), false, Ok(meta("a", 1))).is_ok());
    assert_eq!(reg.snapshot(5).unwrap().len(), 1);
    assert_eq!(reg.skip(5), Ok(()));
    assert_eq!(reg.current(5).unwrap_err(), SessionError::NoCurrentTrack);
    assert!(reg.remove(5).is_some());
    assert!(reg.lookup(5).is_none());
    assert_eq!(reg.stop(5), Err(SessionError::NoActiveSession));
}

#[test]
fn watchdog_disconnects_idle_session() {
    let mut reg = SessionRegistry::new();
    reg.get_or_join(9, Some(1)).unwrap();
    let generation = reg.lookup(9).unwrap().watchdog();
    assert_eq!(reg.watchdog_tick(9, generation), WatchdogVerdict::Disconnect);
    assert!(!reg.contains(9));
    assert_eq!(reg.watchdog_tick(9, generation), WatchdogVerdict::Stale);
}

#[test]
fn watchdog_spares_session_after_add() {
    let mut reg = SessionRegistry::new();
    reg.get_or_join(9, Some(1)).unwrap();
    let old_generation = reg.lookup(9).unwrap().watchdog();
    reg.add(9, "a".to_string(), false, Ok(meta("a", 1))).unwrap();
    assert_eq!(reg.watchdog_tick(9, old_generation), WatchdogVerdict::Stale);
    let new_generation = reg.lookup(9).unwrap().watchdog();
    assert_ne!(new_generation, old_generation);
    assert_eq!(reg.watchdog_tick(9, new_generation), WatchdogVerdict::Keep);
    assert!(reg.contains(9));
    reg.stop(9).unwrap();
    assert_eq!(reg.watchdog_tick(9, new_generation), WatchdogVerdict::Disconnect);
    assert!(!reg.contains(9));
}

fn playlist(durations: &[u64]) -> FetchedPlaylist {
    FetchedPlaylist {
        items: durations
            .iter()
            .enumerate()
            .map(|(i, d)| PlaylistItem { url: format!("https://v.test/{i}"), duration_secs: *d })
            .collect(),
        diagnostics: vec!["entry 9 could not be parsed".to_string()],
    }
}

/// Drives an ingestion; `fails` lists the items whose resolution fails.
fn run(
    session: &mut GuildVoiceSession,
    fetched: FetchedPlaylist,
    limits: IngestLimits,
    fails: &[usize],
) -> (cadency::ingest::IngestionResult, Vec<String>) {
    let mut ingestion = Ingestion::new(fetched, limits);
    let mut asked = Vec::new();
    while let Some(url) = ingestion.next_request() {
        let index: usize = url.rsplit('/').next().unwrap().parse().unwrap();
        asked.push(url.clone());
        let outcome = if fails.contains(&index) {
            Err(ResolutionError::Unavailable)
        } else {
            Ok(TrackMetadata { title: Some(format!("t{index}")), source_url: None, duration_secs: None })
        };
        ingestion.record(session, outcome);
    }
    (ingestion.finish(session), asked)
}

#[test]
fn ingestion_stops_at_max_items() {
    let mut s = GuildVoiceSession::new(1, 1);
    let limits = IngestLimits { max_items: 2, max_item_duration_secs: 600 };
    let (result, asked) = run(&mut s, playlist(&[10, 20, 30, 40, 50]), limits, &[]);
    assert_eq!(result.accepted.len(), 2);
    assert_eq!(result.skipped_by_limit, 3);
    assert_eq!(result.skipped_unavailable, 0);
    assert_eq!(result.total_duration_secs, 30);
    assert_eq!(asked.len(), 2);
    assert_eq!(titles(&s), vec!["t0", "t1"]);
    assert_eq!(result.diagnostics, vec!["entry 9 could not be parsed".to_string()]);
    assert_eq!(s.watchdog(), 1);
}

#[test]
fn ingestion_absorbs_failed_item() {
    let mut s = GuildVoiceSession::new(1, 1);
    let limits = IngestLimits { max_items: 10, max_item_duration_secs: 600 };
    let (result, _) = run(&mut s, playlist(&[10, 20, 30]), limits, &[1]);
    assert_eq!(result.accepted.len(), 2);
    assert_eq!(result.skipped_unavailable, 1);
    assert_eq!(result.skipped_by_limit, 0);
    assert_eq!(result.accepted[0].title.as_deref(), Some("t0"));
    assert_eq!(result.accepted[1].title.as_deref(), Some("t2"));
    assert_eq!(result.accepted[1].source_locator, "https://v.test/2");
    assert_eq!(result.total_duration_secs, 40);
}

#[test]
fn ingestion_skips_long_items_without_resolving() {
    let mut s = GuildVoiceSession::new(1, 1);
    let limits = IngestLimits { max_items: 10, max_item_duration_secs: 300 };
    let (result, asked) = run(&mut s, playlist(&[300, 301, 5]), limits, &[]);
    assert_eq!(result.accepted.len(), 2);
    assert_eq!(result.skipped_by_limit, 1);
    assert_eq!(asked, vec!["https://v.test/0".to_string(), "https://v.test/2".to_string()]);
}

#[test]
fn ingestion_with_nothing_accepted_keeps_watchdog() {
    let mut s = GuildVoiceSession::new(1, 1);
    let limits = IngestLimits { max_items: 0, max_item_duration_secs: 300 };
    let (result, asked) = run(&mut s, playlist(&[1, 2]), limits, &[]);
    assert!(result.accepted.is_empty());
    assert_eq!(result.skipped_by_limit, 2);
    assert!(asked.is_empty());
    assert_eq!(s.watchdog(), 0);
    let empty = FetchedPlaylist { items: vec![], diagnostics: vec![] };
    let (result, _) = run(&mut s, empty, limits, &[]);
    assert!(result.accepted.is_empty());
    assert_eq!(result.skipped_by_limit, 0);
}

#[test]
fn each_error_has_its_message() {
    assert_eq!(SessionError::NoActiveSession.message(), "❌ **No active voice session on the server**");
    assert_eq!(SessionError::NoCurrentTrack.message(), "❌ **No song is playing**");
    assert_ne!(
        SessionError::ResolutionFailed(ResolutionError::Unavailable).message(),
        SessionError::ResolutionFailed(ResolutionError::Other).message()
    );
    assert!(SessionError::ResolutionFailed(ResolutionError::Unavailable).message().contains("unavailable"));
    assert_eq!(SessionError::FetchError.message(), "❌ **Could not read the playlist**");
    assert_eq!(SessionError::QueueEmpty.message(), "❌ **No tracks in the queue**");
    assert_eq!(SessionError::JoinError.message(), "❌ **Failed to join a voice channel**");
}
