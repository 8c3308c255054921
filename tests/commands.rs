use cadency::anime::{Anime, ChannelKind, Rating};
use cadency::error::CadencyError;
use cadency::fib::Fib;
use cadency::play::{Play, QueryKind};
use cadency::registry::SessionRegistry;
use cadency::session::ResolutionError;
use cadency::slap::{Slap, SlapOutcome};
use cadency::track::{LoopMode, TrackMetadata};
use cadency::urban::{safe_truncate, strip_brackets, ResultsFooter, Urban, UrbanEntry};
use cadency::voice::{Now, Pause, Resume, Skip, Stop, TrackLoop, Tracks};

fn message(e: CadencyError) -> String {
    match e {
        CadencyError::Command { message } => message,
        other => panic!("not a command error: {other:?}"),
    }
}

#[test]
fn rating_names_and_emoji() {
    assert_eq!(Rating::Safe.as_str(), "safe");
    assert_eq!(Rating::Suggestive.as_str(), "suggestive");
    assert_eq!(Rating::Borderline.as_str(), "borderline");
    assert_eq!(Rating::Explicit.as_str(), "explicit");
    assert_eq!(Rating::Safe.emoji(), "✅");
    assert_eq!(Rating::Suggestive.emoji(), "⚠️");
    assert_eq!(Rating::Borderline.emoji(), "🔞");
    assert_eq!(Rating::Explicit.emoji(), "🔞");
    assert!(!Rating::Safe.is_nsfw());
    assert!(Rating::Suggestive.is_nsfw());
    assert!(Rating::Explicit.is_nsfw());
}

#[test]
fn rating_parses_any_case() {
    assert_eq!(Rating::parse("SAFE"), Ok(Rating::Safe));
    assert_eq!(Rating::parse("Borderline"), Ok(Rating::Borderline));
    assert_eq!("explicit".parse::<Rating>(), Ok(Rating::Explicit));
    assert_eq!(
        Rating::parse("Spicy"),
        Err("Invalid rating 'spicy'. Must be one of: safe, suggestive, borderline, explicit".to_string())
    );
    assert_eq!(Rating::from_lowercase("suggestive"), Ok(Rating::Suggestive));
    assert!(Rating::from_lowercase("Safe").is_err());
}

#[test]
fn tags_are_trimmed_and_checked() {
    assert_eq!(
        Anime::validate_tags(" a, b_c ,, -d , "),
        Ok(vec!["a".to_string(), "b_c".to_string(), "-d".to_string()])
    );
    assert_eq!(Anime::validate_tags("héllo,Ünïcode9"), Ok(vec!["héllo".to_string(), "Ünïcode9".to_string()]));
    assert_eq!(Anime::validate_tags(""), Err("Tags cannot be empty".to_string()));
    assert_eq!(Anime::validate_tags(" , ,\t"), Err("Tags cannot be empty".to_string()));
    assert_eq!(
        Anime::validate_tags("ok, bad tag, also!bad"),
        Err("Invalid tag format: 'bad tag'".to_string())
    );
    assert_eq!(Anime::validate_tags("x*"), Err("Invalid tag format: 'x*'".to_string()));
}

#[test]
fn anime_arguments_and_channel() {
    let (rating, tags) = Anime::arguments(None, None).unwrap();
    assert_eq!(rating, Rating::Safe);
    assert!(tags.is_none());
    let (rating, tags) = Anime::arguments(Some("EXPLICIT".to_string()), Some("a,b".to_string())).unwrap();
    assert_eq!(rating, Rating::Explicit);
    assert_eq!(tags, Some(vec!["a".to_string(), "b".to_string()]));
    assert_eq!(
        message(Anime::arguments(Some("x".to_string()), None).unwrap_err()),
        "Invalid rating 'x'. Must be one of: safe, suggestive, borderline, explicit"
    );
    assert_eq!(message(Anime::arguments(None, Some(",".to_string())).unwrap_err()), "Tags cannot be empty");
    assert!(Anime::check_channel(Rating::Safe, false).is_ok());
    assert!(Anime::check_channel(Rating::Explicit, true).is_ok());
    assert_eq!(
        message(Anime::check_channel(Rating::Suggestive, false).unwrap_err()),
        "**NSFW content is not allowed in this channel**"
    );
    assert!(Anime::channel_is_nsfw(Some(ChannelKind::Guild { nsfw: true })));
    assert!(!Anime::channel_is_nsfw(Some(ChannelKind::Guild { nsfw: false })));
    assert!(Anime::channel_is_nsfw(Some(ChannelKind::Private)));
    assert!(!Anime::channel_is_nsfw(Some(ChannelKind::Other)));
    assert!(!Anime::channel_is_nsfw(None));
}

#[test]
fn anime_image_url() {
    assert_eq!(
        Anime::image_url(Rating::Safe, &None),
        "https://api.nekosapi.com/v4/images/random?limit=1&rating=safe"
    );
    assert_eq!(
        Anime::image_url(Rating::Borderline, &Some(vec!["cat".to_string(), "girl".to_string()])),
        "https://api.nekosapi.com/v4/images/random?limit=1&rating=borderline&tags=cat,girl"
    );
}

#[test]
fn fibonacci_numbers() {
    assert_eq!(message(Fib::calc(&-1).unwrap_err()), "❌ **The number must be non-negative**");
    assert_eq!(Fib::calc(&0).unwrap(), Vec::<u32>::new());
    assert_eq!(Fib::calc(&1).unwrap(), vec![1]);
    assert_eq!(Fib::calc(&2).unwrap(), vec![1]);
    assert_eq!(Fib::calc(&10).unwrap(), vec![55]);
    assert_eq!(Fib::calc(&100).unwrap(), vec![3314859971, 870020775, 19]);
    let big = num_bigint::BigUint::new(Fib::calc(&100).unwrap());
    assert_eq!(big.to_string(), "354224848179261915075");
}

#[test]
fn truncation_keeps_char_boundaries() {
    assert_eq!(safe_truncate("hello", 1024), "hello");
    let exact = "a".repeat(1024);
    assert_eq!(safe_truncate(&exact, 1024), exact);
    let long = "a".repeat(2000);
    let cut = safe_truncate(&long, 1024);
    assert_eq!(cut.len(), 1024);
    assert_eq!(cut, format!("{}...", "a".repeat(1021)));
    let wide = "é".repeat(600);
    assert_eq!(safe_truncate(&wide, 1024), format!("{}...", "é".repeat(510)));
    assert_eq!(safe_truncate("abcdef", 5), "ab...");
    assert_eq!(strip_brackets("[foo] is [bar]"), "foo is bar");
    assert_eq!(strip_brackets("[]"), "");
}

fn entry(word: &str, example: &str) -> UrbanEntry {
    UrbanEntry {
        definition: format!("a [{word}] thing"),
        permalink: format!("https://u.test/{word}"),
        thumbs_up: 5,
        author: "me".to_string(),
        word: format!("[{word}]"),
        defid: 1,
        written_on: "today".to_string(),
        example: example.to_string(),
        thumbs_down: 2,
    }
}

#[test]
fn urban_cards() {
    let entries = vec![entry("a", "[x] y"), entry("b", "[]"), entry("c", ""), entry("d", "z")];
    let cards = Urban::create_cards(&entries);
    assert_eq!(cards.len(), 3);
    assert_eq!(cards[0].word, "a");
    assert_eq!(cards[0].definition, "a a thing");
    assert_eq!(cards[0].example.as_deref(), Some("x y"));
    assert_eq!(cards[0].permalink, "https://u.test/a");
    assert_eq!(cards[0].footer, Some(ResultsFooter { shown: 3, plural: true }));
    assert_eq!(cards[1].example, None);
    assert_eq!(cards[1].footer, None);
    assert_eq!(cards[2].example, None);
    assert_eq!((cards[2].thumbs_up, cards[2].thumbs_down), (5, 2));
    let one = Urban::create_cards(&vec![entry("solo", "e")]);
    assert_eq!(one[0].footer, Some(ResultsFooter { shown: 1, plural: false }));
    assert!(Urban::create_cards(&vec![]).is_empty());
}

#[test]
fn slap_outcomes() {
    assert_eq!(Slap::outcome(1, 1, 9), SlapOutcome::Yourself);
    assert_eq!(Slap::outcome(9, 1, 9), SlapOutcome::Returned);
    assert_eq!(Slap::outcome(2, 1, 9), SlapOutcome::Target);
}

#[test]
fn play_query_kinds() {
    assert_eq!(Play::classify("https://www.youtube.com/watch?v=abc&list=PL123"), QueryKind::Playlist);
    assert_eq!(Play::classify("https://www.youtube.com/watch?v=abc"), QueryKind::Url);
    assert_eq!(Play::classify("hey jude beatles"), QueryKind::Search);
    assert!(QueryKind::Url.is_url());
    assert!(!QueryKind::Search.is_url());
    assert_eq!(QueryKind::from_query_keys(&Some(vec!["v".to_string(), "list".to_string()])), QueryKind::Playlist);
    assert_eq!(QueryKind::from_query_keys(&Some(vec![])), QueryKind::Url);
    assert_eq!(QueryKind::from_query_keys(&None), QueryKind::Search);
}

#[test]
fn play_limits_and_messages() {
    let play = Play::new(50, 600);
    let limits = play.limits();
    assert_eq!((limits.max_items, limits.max_item_duration_secs), (50, 600));
    assert_eq!(Play::new(-3, 10).limits().max_items, 0);
    assert!(Play::failure_message(ResolutionError::Unavailable).contains("Video is unavailable"));
    assert!(Play::failure_message(ResolutionError::Other).contains("Couldn't add audio source"));
    let mut reg = SessionRegistry::new();
    assert!(matches!(Play::join(&mut reg, 3, None), Err(CadencyError::Join)));
    assert!(Play::join(&mut reg, 3, Some(30)).is_ok());
    let err = Play::add_song(&mut reg, 3, "gone".to_string(), true, Err(ResolutionError::Unavailable));
    assert_eq!(
        message(err.unwrap_err()),
        "❌ **Video is unavailable!**\n\nThis video may be private, deleted, or region-restricted."
    );
    let meta = TrackMetadata { title: Some("t".to_string()), source_url: None, duration_secs: Some(61) };
    let track = Play::add_song(&mut reg, 3, "https://v.test/1".to_string(), true, Ok(meta)).unwrap();
    assert_eq!(track.source_locator, "https://v.test/1");
    assert_eq!(reg.snapshot(3).unwrap().len(), 1);
}

#[test]
fn voice_commands_check_guild_and_session() {
    let mut reg = SessionRegistry::new();
    assert_eq!(
        message(Pause {}.run(&mut reg, None).unwrap_err()),
        "❌ **This command can only be executed on a server**"
    );
    assert_eq!(
        message(Skip {}.run(&mut reg, Some(4)).unwrap_err()),
        "❌ **No active voice session on the server**"
    );
    reg.get_or_join(4, Some(40)).unwrap();
    assert_eq!(Pause {}.run(&mut reg, Some(4)).unwrap(), false);
    assert_eq!(Resume {}.run(&mut reg, Some(4)).unwrap(), false);
    assert_eq!(Skip {}.run(&mut reg, Some(4)).unwrap(), false);
    assert_eq!(Stop {}.run(&mut reg, Some(4)).unwrap(), false);
    assert_eq!(message(Now {}.run(&reg, Some(4)).unwrap_err()), "❌ **No song is playing**");
    assert!(Tracks {}.run(&reg, Some(4)).unwrap().is_empty());
    assert_eq!(
        message(TrackLoop {}.run(&mut reg, Some(4), None, None).unwrap_err()),
        "❌ **No song is playing**"
    );
    for title in ["one", "two"] {
        let meta = TrackMetadata { title: Some(title.to_string()), source_url: None, duration_secs: None };
        reg.add(4, title.to_string(), false, Ok(meta)).unwrap();
    }
    assert_eq!(Now {}.run(&reg, Some(4)).unwrap().title.as_deref(), Some("one"));
    assert_eq!(Pause {}.run(&mut reg, Some(4)).unwrap(), true);
    assert!(reg.lookup(4).unwrap().is_paused());
    assert_eq!(Resume {}.run(&mut reg, Some(4)).unwrap(), true);
    assert_eq!(TrackLoop {}.run(&mut reg, Some(4), Some(3), None).unwrap(), LoopMode::Finite(3));
    assert_eq!(
        message(TrackLoop {}.run(&mut reg, Some(4), Some(0), None).unwrap_err()),
        "❌ **Could not loop track**"
    );
    assert_eq!(TrackLoop {}.run(&mut reg, Some(4), Some(3), Some(true)).unwrap(), LoopMode::Disable);
    assert_eq!(Skip {}.run(&mut reg, Some(4)).unwrap(), true);
    assert_eq!(Tracks {}.run(&reg, Some(4)).unwrap().len(), 1);
    assert_eq!(Stop {}.run(&mut reg, Some(4)).unwrap(), true);
    assert!(Tracks {}.run(&reg, Some(4)).unwrap().is_empty());
}

#[test]
fn loop_requests() {
    assert_eq!(TrackLoop::mode(None, None), Some(LoopMode::Infinite));
    assert_eq!(TrackLoop::mode(Some(2), None), Some(LoopMode::Finite(2)));
    assert_eq!(TrackLoop::mode(Some(2), Some(false)), Some(LoopMode::Finite(2)));
    assert_eq!(TrackLoop::mode(None, Some(true)), Some(LoopMode::Disable));
    assert_eq!(TrackLoop::mode(Some(-1), None), None);
}
