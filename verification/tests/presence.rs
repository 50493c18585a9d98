use chunirichpresence::activity::discord_activity;
use chunirichpresence::journal::Journal;
use chunirichpresence::presence::{
    default_activity, difficulty_label, difficulty_state_label, display_player_rating, log_update,
    playing_state_label, rating_label, resolve_playing_presence_state, song_activity,
    song_select_state_label, unknown_song_activity, update_presence,
};
use chunirichpresence::songs::{songs_to_map, SongsById};
use chunirichpresence::types::{ChartLevel, PresenceState, RichPresenceConfig, Song};

fn sample_song() -> Song {
    Song {
        id: "2470".to_string(),
        title: "Title".to_string(),
        artist: "Artist".to_string(),
        chart_levels: vec![ChartLevel { difficulty: 3, level: "14+".to_string() }],
    }
}

fn dataset() -> SongsById {
    songs_to_map(vec![sample_song()], &mut Journal::new())
}

#[test]
fn difficulties_have_their_names() {
    let names: Vec<&str> = (-1..6).map(difficulty_label).collect();
    assert_eq!(
        names,
        vec!["UNKNOWN", "BASIC", "ADVANCED", "EXPERT", "MASTER", "ULTIMA", "UNKNOWN"]
    );
    assert_eq!(difficulty_state_label(Some(&sample_song()), 3), "MASTER 14+");
    assert_eq!(difficulty_state_label(Some(&sample_song()), 4), "ULTIMA");
    assert_eq!(difficulty_state_label(None, 3), "MASTER");
}

#[test]
fn ratings_have_two_decimals() {
    assert_eq!(rating_label(Some(1605)).as_deref(), Some("16.05 Rating"));
    assert_eq!(rating_label(Some(7)).as_deref(), Some("0.07 Rating"));
    assert_eq!(rating_label(Some(i32::MAX)).as_deref(), Some("21474836.47 Rating"));
    assert_eq!(rating_label(Some(0)), None);
    assert_eq!(rating_label(Some(-5)), None);
    assert_eq!(rating_label(None), None);
    assert_eq!(song_select_state_label(Some(1730)).as_deref(), Some("17.30 Rating"));
    assert_eq!(playing_state_label("MASTER".to_string(), Some(1730)), "MASTER | 17.30 Rating");
    assert_eq!(playing_state_label("MASTER".to_string(), Some(0)), "MASTER");
}

#[test]
fn hidden_rating_stays_hidden() {
    let mut config = RichPresenceConfig::default();
    assert_eq!(display_player_rating(&config, Some(3)), Some(3));
    config.show_rating = false;
    assert_eq!(display_player_rating(&config, Some(3)), None);
    assert_eq!(default_activity(&config, Some(1730)).state, None);
    assert_eq!(unknown_song_activity(2, Some(1730), &config).state.as_deref(), Some("EXPERT"));
}

#[test]
fn activity_in_song_select() {
    let config = RichPresenceConfig::default();
    let activity = default_activity(&config, Some(1605));
    assert_eq!(activity.name, "Chunithm");
    assert_eq!(activity.details, "In song select");
    assert_eq!(activity.state.as_deref(), Some("16.05 Rating"));
    assert_eq!(activity.large_image, "https://chunithm.org/assets/logo.png");
    assert_eq!(activity.large_text, "Chunithm");
}

#[test]
fn activity_of_a_song() {
    let config = RichPresenceConfig::default();
    let activity = song_activity(&sample_song(), 3, Some(1605), &config);
    assert_eq!(activity.details, "Playing Title - Artist");
    assert_eq!(activity.state.as_deref(), Some("MASTER 14+ | 16.05 Rating"));
    assert_eq!(activity.large_image, "https://chunithm.beerpsi.cc/assets/jackets/2470.webp");
    assert_eq!(activity.large_text, "Title");
}

#[test]
fn discord_gets_every_field_of_the_activity() {
    let config = RichPresenceConfig::default();
    let json =
        serde_json::to_value(discord_activity(&song_activity(&sample_song(), 3, None, &config))).unwrap();
    assert_eq!(json["name"].as_str(), Some("Chunithm"));
    assert_eq!(json["details"].as_str(), Some("Playing Title - Artist"));
    assert_eq!(json["state"].as_str(), Some("MASTER 14+"));
    assert_eq!(
        json["assets"]["large_image"].as_str(),
        Some("https://chunithm.beerpsi.cc/assets/jackets/2470.webp")
    );
    assert_eq!(json["assets"]["large_text"].as_str(), Some("Title"));
    assert_eq!(json.as_object().unwrap().len(), 4);
    assert_eq!(json["assets"].as_object().unwrap().len(), 2);
    let json = serde_json::to_value(discord_activity(&default_activity(&config, None))).unwrap();
    assert!(json.get("state").is_none());
    assert_eq!(json.as_object().unwrap().len(), 3);
    assert_eq!(json["details"].as_str(), Some("In song select"));
}

#[test]
fn song_of_the_dataset_is_named_and_announced_once() {
    let songs = dataset();
    let mut last = -1;
    let mut log = Journal::new();
    for _ in 0..2 {
        let state =
            resolve_playing_presence_state(&songs, Some(2470), 3, Some(1), &mut last, &mut log);
        assert_eq!(
            state,
            PresenceState::Song { id: 2470, difficulty: 3, player_rating: Some(1) }
        );
    }
    assert_eq!(last, 2470);
    assert_eq!(log.into_lines(), vec!["Now playing: Title - Artist".to_string()]);
}

#[test]
fn other_songs_are_unknown() {
    let songs = dataset();
    let unknown = PresenceState::UnknownSong { difficulty: 2, player_rating: None };
    let mut last = 7;
    let mut log = Journal::new();
    assert_eq!(resolve_playing_presence_state(&songs, None, 2, None, &mut last, &mut log), unknown);
    assert_eq!(last, 7);
    assert_eq!(resolve_playing_presence_state(&songs, Some(9), 2, None, &mut last, &mut log), unknown);
    assert_eq!(last, 9);
    assert_eq!(resolve_playing_presence_state(&songs, Some(-1), 2, None, &mut last, &mut log), unknown);
    assert_eq!(last, -1);
    assert_eq!(
        log.into_lines(),
        vec![
            "Song ID 9 not found in dataset".to_string(),
            "Invalid Song ID while playing: -1".to_string()
        ]
    );
}

#[test]
fn updates_are_described() {
    let songs = dataset();
    let config = RichPresenceConfig::default();
    let update = update_presence(&PresenceState::Default { player_rating: None }, &songs, &config);
    assert_eq!(update.description, "default presence (song select)");
    let update = update_presence(
        &PresenceState::UnknownSong { difficulty: 0, player_rating: None },
        &songs,
        &config,
    );
    assert_eq!(update.description, "unknown song (BASIC)");
    assert_eq!(update.activity.details, "Playing a song");
    let update = update_presence(
        &PresenceState::Song { id: 2470, difficulty: 3, player_rating: Some(1605) },
        &songs,
        &config,
    );
    assert_eq!(update.description, "song Title - Artist (MASTER 14+ | 16.05 Rating)");
    assert_eq!(update.activity.large_text, "Title");
    let update = update_presence(
        &PresenceState::Song { id: 5, difficulty: 4, player_rating: None },
        &songs,
        &config,
    );
    assert_eq!(update.description, "song id 5 missing from dataset (ULTIMA)");
    assert_eq!(update.activity.details, "Playing a song");
    let mut log = Journal::new();
    log_update("x", None, &mut log);
    log_update("x", Some("pipe closed"), &mut log);
    assert_eq!(
        log.into_lines(),
        vec![
            "Discord presence updated: x".to_string(),
            "Failed to update Discord RPC for x: pipe closed".to_string()
        ]
    );
}

#[test]
fn configured_name_and_image_are_shown() {
    let songs = dataset();
    let mut config = RichPresenceConfig::default();
    config.game_name = "G".to_string();
    config.logo_url = "L".to_string();
    for state in [
        PresenceState::Default { player_rating: None },
        PresenceState::UnknownSong { difficulty: 0, player_rating: None },
        PresenceState::Song { id: 1, difficulty: 0, player_rating: None },
    ] {
        let activity = update_presence(&state, &songs, &config).activity;
        assert_eq!((activity.name.as_str(), activity.large_image.as_str()), ("G", "L"));
        assert_eq!(activity.large_text, "G");
    }
    let named = PresenceState::Song { id: 2470, difficulty: 0, player_rating: None };
    let activity = update_presence(&named, &songs, &config).activity;
    assert_eq!(activity.name, "G");
    assert_ne!(activity.large_image, "L");
}
