use chunirichpresence::journal::Journal;
use chunirichpresence::songs::{
    get_song_by_id, load_initial_songs, load_songs_from_cache, songs_json, songs_to_map,
    SongsCacheLoadError, SongsRefresh, SongsRefreshError, SongsRefreshEvent, SONGS_FETCH_RETRIES,
};
use chunirichpresence::types::{ChartLevel, Song};

fn song(id: &str, title: &str) -> Song {
    Song {
        id: id.to_string(),
        title: title.to_string(),
        artist: "artist".to_string(),
        chart_levels: vec![],
    }
}

#[test]
fn byte_order_mark_is_dropped_once() {
    assert_eq!(songs_json(b"\xEF\xBB\xBF[]"), b"[]");
    assert_eq!(songs_json(b"\xEF\xBB\xBF\xEF\xBB\xBF"), b"\xEF\xBB\xBF");
    assert_eq!(songs_json(b"[]"), b"[]");
    assert_eq!(songs_json(b"\xEF\xBB"), b"\xEF\xBB");
    assert_eq!(songs_json(b""), b"");
    assert_eq!(songs_json(b"x\xEF\xBB\xBF"), b"x\xEF\xBB\xBF");
}

#[test]
fn later_song_with_the_same_number_counts() {
    let mut log = Journal::new();
    let songs = vec![song("3", "first"), song("x3", "skipped"), song("+3", "last"), song("-1", "odd")];
    let map = songs_to_map(songs, &mut log);
    assert_eq!(map.len(), 2);
    assert_eq!(get_song_by_id(&map, 3).map(|s| s.title.as_str()), Some("last"));
    assert_eq!(get_song_by_id(&map, -1).map(|s| s.title.as_str()), Some("odd"));
    assert!(get_song_by_id(&map, 4).is_none());
    assert_eq!(log.into_lines(), vec!["Skipping song with non-numeric ID: x3".to_string()]);
}

#[test]
fn first_chart_with_the_difficulty_gives_the_level() {
    let mut s = song("1", "t");
    s.chart_levels = vec![
        ChartLevel { difficulty: 3, level: "13+".to_string() },
        ChartLevel { difficulty: 2, level: "10".to_string() },
        ChartLevel { difficulty: 3, level: "14".to_string() },
    ];
    assert_eq!(s.chart_level_for_difficulty(3).map(|l| l.as_str()), Some("13+"));
    assert_eq!(s.chart_level_for_difficulty(2).map(|l| l.as_str()), Some("10"));
    assert!(s.chart_level_for_difficulty(0).is_none());
}

#[test]
fn cache_is_loaded_and_counted() {
    let mut log = Journal::new();
    let map = load_initial_songs("c.json", Ok(vec![song("1", "a"), song("2", "b")]), &mut log);
    assert_eq!(map.len(), 2);
    assert_eq!(log.into_lines(), vec!["Loaded 2 songs from local cache c.json".to_string()]);
}

#[test]
fn unusable_cache_gives_an_empty_dataset() {
    let mut log = Journal::new();
    let map = load_initial_songs(
        "c.json",
        Err(SongsCacheLoadError::Read("gone".to_string())),
        &mut log,
    );
    assert!(map.is_empty());
    assert_eq!(
        log.into_lines(),
        vec!["Failed to load local songs cache: failed to read songs cache: gone. Starting with empty dataset.".to_string()]
    );
    let mut log = Journal::new();
    let failed = load_songs_from_cache(
        "c.json",
        Err(SongsCacheLoadError::Parse("bad".to_string())),
        &mut log,
    );
    match failed {
        Err(error) => assert_eq!(error.message(), "failed to parse songs cache JSON: bad"),
        Ok(_) => panic!("a cache that cannot be parsed has no songs"),
    }
    assert!(log.into_lines().is_empty());
}

#[test]
fn refresh_errors_have_their_words() {
    assert_eq!(SongsRefreshError::Request("a".to_string()).message(), "request failed: a");
    assert_eq!(
        SongsRefreshError::ReadBody("b".to_string()).message(),
        "failed to read songs response body: b"
    );
    assert_eq!(SongsRefreshError::Parse("c".to_string()).message(), "failed to parse songs JSON: c");
}

#[test]
fn refresh_gives_up_after_the_last_try() {
    let mut log = Journal::new();
    let mut stage = SongsRefresh::start(&mut log);
    stage = stage.refresh_songs_from_online(SongsRefreshEvent::ClientCreated, "c", &mut log);
    let mut tries = 0;
    while let SongsRefresh::Fetching { attempt } = stage {
        tries += 1;
        assert_eq!(attempt, tries);
        let error = SongsRefreshError::Request("no route".to_string());
        stage = stage.refresh_songs_from_online(SongsRefreshEvent::FetchFailed(error), "c", &mut log);
        if let SongsRefresh::Waiting { .. } = stage {
            stage = stage.refresh_songs_from_online(SongsRefreshEvent::Waited, "c", &mut log);
        }
    }
    assert_eq!(tries, SONGS_FETCH_RETRIES);
    assert!(matches!(stage, SongsRefresh::Finished));
    let lines = log.into_lines();
    assert_eq!(lines.len(), 6);
    assert_eq!(lines[1], "Online songs refresh attempt 1/5 failed: request failed: no route");
    assert_eq!(
        lines[5],
        "Online songs refresh failed after 5 attempts: request failed: no route. Keeping local dataset."
    );
}

#[test]
fn fetched_dataset_is_cached_and_published() {
    let mut log = Journal::new();
    let mut stage = SongsRefresh::start(&mut log);
    stage = stage.refresh_songs_from_online(SongsRefreshEvent::ClientCreated, "c", &mut log);
    stage = stage.refresh_songs_from_online(
        SongsRefreshEvent::Fetched {
            songs: vec![song("5", "five")],
            body: b"\xEF\xBB\xBF[..]".to_vec(),
        },
        "c",
        &mut log,
    );
    match &stage {
        SongsRefresh::Caching { songs, body } => {
            assert_eq!(songs.len(), 1);
            assert_eq!(body, b"\xEF\xBB\xBF[..]");
        }
        _ => panic!("a fetched dataset is cached"),
    }
    stage = stage.refresh_songs_from_online(
        SongsRefreshEvent::CacheFailed("full".to_string()),
        "c",
        &mut log,
    );
    match &stage {
        SongsRefresh::Publishing { songs } => assert_eq!(songs[&5].title, "five"),
        _ => panic!("a fetched dataset is published though it could not be cached"),
    }
    stage = stage.refresh_songs_from_online(SongsRefreshEvent::Published, "c", &mut log);
    assert!(matches!(stage, SongsRefresh::Finished));
    let lines = log.into_lines();
    assert_eq!(lines[1], "Warning: failed to write songs cache c: full");
    assert_eq!(lines[2], "Songs dataset refreshed from online source");
}

#[test]
fn refresh_without_a_client_ends() {
    let mut log = Journal::new();
    let stage = SongsRefresh::start(&mut log).refresh_songs_from_online(
        SongsRefreshEvent::ClientFailed("tls".to_string()),
        "c",
        &mut log,
    );
    assert!(matches!(stage, SongsRefresh::Finished));
    let lines = log.into_lines();
    assert!(lines[0].starts_with("Refreshing songs from URL https://"));
    assert_eq!(lines[1], "Failed to create HTTP client for songs refresh: tls");
}

#[test]
fn refresh_ignores_an_event_out_of_place() {
    let mut log = Journal::new();
    let stage = SongsRefresh::start(&mut log).refresh_songs_from_online(
        SongsRefreshEvent::Published,
        "c",
        &mut log,
    );
    assert!(matches!(stage, SongsRefresh::Starting));
    let stage = SongsRefresh::Caching { songs: Default::default(), body: vec![] }.refresh_songs_from_online(
        SongsRefreshEvent::CacheWritten,
        "c",
        &mut log,
    );
    let stage = stage.refresh_songs_from_online(
        SongsRefreshEvent::PublishFailed("poisoned".to_string()),
        "c",
        &mut log,
    );
    assert!(matches!(stage, SongsRefresh::Finished));
    let lines = log.into_lines();
    assert_eq!(lines[1], "Updated songs cache at c");
    assert_eq!(lines[2], "Failed to update shared songs dataset: poisoned");
}
