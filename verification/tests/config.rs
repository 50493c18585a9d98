use chunirichpresence::config::{load_presence_config, presence_config, sanitize_ini_value, IniValues};
use chunirichpresence::journal::Journal;

fn sanitized(value: &str) -> Option<String> {
    sanitize_ini_value(Some(value.to_string()))
}

#[test]
fn values_are_sanitized() {
    assert_eq!(sanitize_ini_value(None), None);
    assert_eq!(sanitized(""), None);
    assert_eq!(sanitized(" \t"), None);
    assert_eq!(sanitized("  a b "), Some("a b".to_string()));
    assert_eq!(sanitized(" \" a \" "), Some("a".to_string()));
    assert_eq!(sanitized("\"\""), None);
    assert_eq!(sanitized("\"  \""), None);
    assert_eq!(sanitized("\""), Some("\"".to_string()));
    assert_eq!(sanitized("\"a"), Some("\"a".to_string()));
    assert_eq!(sanitized("a\""), Some("a\"".to_string()));
    assert_eq!(sanitized("\"\"a\"\""), Some("\"a\"".to_string()));
}

#[test]
fn values_that_are_there_count_and_the_others_are_built_in() {
    let config = presence_config(IniValues {
        logo_url: None,
        game_name: Some("\"My game\"".to_string()),
        discord_app_id: Some(" ".to_string()),
        show_rating: Some("0".to_string()),
    });
    assert_eq!(config.logo_url, "https://chunithm.org/assets/logo.png");
    assert_eq!(config.game_name, "My game");
    assert_eq!(config.discord_app_id, "1482780703128289493");
    assert!(!config.show_rating);
    let config = presence_config(IniValues {
        logo_url: None,
        game_name: None,
        discord_app_id: None,
        show_rating: Some("00".to_string()),
    });
    assert!(config.show_rating);
}

#[test]
fn file_is_read() {
    let text = "[other]\ngame_name=wrong\n\n[ChuniRichPresence]\n; comment\nGame_Name = \"XVERSE\"\nlogo_url=https://example.org/a.png\nshow_rating=0\n";
    let mut log = Journal::new();
    let config = load_presence_config("segatools.ini", Ok(text.to_string()), &mut log);
    assert_eq!(config.game_name, "XVERSE");
    assert_eq!(config.logo_url, "https://example.org/a.png");
    assert_eq!(config.discord_app_id, "1482780703128289493");
    assert!(!config.show_rating);
    assert_eq!(
        log.into_lines(),
        vec!["Loaded config from segatools.ini (game_name='XVERSE', logo_url='https://example.org/a.png', discord_app_id='1482780703128289493', show_rating=false)".to_string()]
    );
}

#[test]
fn default_section_is_not_consulted() {
    let mut log = Journal::new();
    let config = load_presence_config(
        "p",
        Ok("game_name=top\n[chunirichpresence]\nlogo_url=x".to_string()),
        &mut log,
    );
    assert_eq!(config.game_name, "Chunithm");
    assert_eq!(config.logo_url, "x");
}

#[test]
fn broken_file_gives_the_defaults() {
    let mut log = Journal::new();
    let config = load_presence_config("p.ini", Ok("[chunirichpresence\n".to_string()), &mut log);
    assert_eq!(config.game_name, "Chunithm");
    assert!(config.show_rating);
    let lines = log.into_lines();
    assert_eq!(lines.len(), 1);
    assert!(lines[0].starts_with("failed to read p.ini (couldn't read p.ini: line 1: "), "{}", lines[0]);
    assert!(lines[0].ends_with("), using defaults"));
}

#[test]
fn missing_file_gives_the_defaults() {
    let mut log = Journal::new();
    let config = load_presence_config("p.ini", Err("not found".to_string()), &mut log);
    assert_eq!(config.logo_url, "https://chunithm.org/assets/logo.png");
    assert_eq!(
        log.into_lines(),
        vec!["failed to read p.ini (couldn't read p.ini: not found), using defaults".to_string()]
    );
}
