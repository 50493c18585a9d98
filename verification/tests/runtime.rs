use chunirichpresence::journal::Journal;
use chunirichpresence::memory::MemorySnapshot;
use chunirichpresence::runtime::{
    discord_app_id_configured, log_startup, RuntimeEvent, RuntimeRequest, RuntimeState,
    DISCORD_RECONNECT_INTERVAL, PRESENCE_REFRESH_INTERVAL,
};
use chunirichpresence::songs::{songs_to_map, SongsById};
use chunirichpresence::types::{PresenceState, RichPresenceConfig, Song};

const SECOND: u64 = 1_000_000_000;

struct Program {
    state: RuntimeState,
    songs: SongsById,
    config: RichPresenceConfig,
    log: Journal,
}

impl Program {
    fn new(config: RichPresenceConfig) -> Self {
        let song = Song {
            id: "10".to_string(),
            title: "T".to_string(),
            artist: "A".to_string(),
            chart_levels: vec![],
        };
        let mut log = Journal::new();
        let songs = songs_to_map(vec![song], &mut log);
        let state = RuntimeState::start(&config, 0, &mut log);
        Program { state, songs, config, log }
    }

    fn take(&mut self, event: RuntimeEvent) {
        self.state.advance(event, &self.songs, &self.config, &mut self.log);
    }

    fn details(&self) -> Option<String> {
        match self.state.request() {
            RuntimeRequest::Send(activity) => Some(activity.details.clone()),
            _ => None,
        }
    }

    fn sleeps(&self) -> bool {
        matches!(self.state.request(), RuntimeRequest::Sleep)
    }

    fn reads(&self) -> bool {
        matches!(self.state.request(), RuntimeRequest::ReadMemory)
    }

    fn connects(&self) -> bool {
        matches!(
            self.state.request(),
            RuntimeRequest::Connect(app_id) if app_id == self.config.discord_app_id
        )
    }

    fn lines(&mut self) -> Vec<String> {
        std::mem::replace(&mut self.log, Journal::new()).into_lines()
    }
}

fn snapshot(is_playing: Option<bool>, now: u64) -> RuntimeEvent {
    RuntimeEvent::Snapshot {
        snapshot: MemorySnapshot { is_playing, song_id: Some(10), difficulty: Some(3) },
        now,
    }
}

fn connected() -> Program {
    let mut program = Program::new(RichPresenceConfig::default());
    program.take(RuntimeEvent::Connected { now: SECOND });
    program.take(RuntimeEvent::Sent { now: SECOND });
    program
}

#[test]
fn application_identifiers_are_checked() {
    assert!(discord_app_id_configured("1482780703128289493"));
    assert!(!discord_app_id_configured(""));
    assert!(!discord_app_id_configured(" \t"));
    assert!(!discord_app_id_configured("YOUR_DISCORD_APP_ID"));
    assert!(discord_app_id_configured(" YOUR_DISCORD_APP_ID"));
}

#[test]
fn start_is_logged() {
    let mut log = Journal::new();
    log_startup("C:\\g", "C:\\g\\chunirichpresence.log", &mut log);
    assert_eq!(
        log.into_lines(),
        vec![
            "Injected successfully into Chunithm!".to_string(),
            "Runtime base directory: C:\\g".to_string(),
            "General log file: C:\\g\\chunirichpresence.log".to_string(),
        ]
    );
}

#[test]
fn connection_starts_with_the_default_presence() {
    let mut program = Program::new(RichPresenceConfig::default());
    assert!(program.connects());
    program.take(RuntimeEvent::Connected { now: 1 });
    assert_eq!(program.details().as_deref(), Some("In song select"));
    program.take(RuntimeEvent::Sent { now: 2 });
    assert!(program.reads());
    assert_eq!(
        program.state.current_presence_state(),
        Some(PresenceState::Default { player_rating: None })
    );
    assert_eq!(
        program.lines(),
        vec![
            "Connected to Discord RPC".to_string(),
            "Discord presence updated: default presence (song select)".to_string(),
        ]
    );
}

#[test]
fn failed_greeting_keeps_the_connection() {
    let mut program = Program::new(RichPresenceConfig::default());
    program.take(RuntimeEvent::Connected { now: 1 });
    program.take(RuntimeEvent::SendFailed { error: "x".to_string(), now: 2 });
    assert!(program.state.connected());
    assert_eq!(program.state.current_presence_state(), None);
    assert_eq!(
        program.lines()[1],
        "Failed to update Discord RPC for default presence (song select)"
    );
    program.take(snapshot(None, 3));
    assert_eq!(program.details().as_deref(), Some("In song select"));
    assert_eq!(
        program.lines(),
        vec!["Memory read unavailable, keeping default presence until pointers recover".to_string()]
    );
}

#[test]
fn song_is_sent_once_and_again_when_it_grows_old() {
    let mut program = connected();
    program.take(snapshot(Some(true), 2 * SECOND));
    assert_eq!(program.details().as_deref(), Some("Playing T - A"));
    program.take(RuntimeEvent::Sent { now: 2 * SECOND });
    assert!(program.sleeps());
    program.take(RuntimeEvent::Woke { now: 3 * SECOND });
    assert!(program.reads());
    program.take(snapshot(Some(true), 3 * SECOND));
    assert!(program.sleeps());
    program.take(RuntimeEvent::Woke { now: 4 * SECOND });
    program.take(snapshot(Some(true), 2 * SECOND + PRESENCE_REFRESH_INTERVAL - 1));
    assert!(program.sleeps());
    program.take(RuntimeEvent::Woke { now: 12 * SECOND });
    program.take(snapshot(Some(true), 2 * SECOND + PRESENCE_REFRESH_INTERVAL));
    assert_eq!(program.details().as_deref(), Some("Playing T - A"));
    let lines = program.lines();
    assert_eq!(lines[2], "Now playing: T - A");
    assert_eq!(lines[3], "Discord presence updated: song T - A (MASTER)");
    assert_eq!(lines.len(), 4);
}

#[test]
fn end_of_a_song_brings_back_the_default() {
    let mut program = connected();
    program.take(snapshot(Some(true), 2 * SECOND));
    program.take(RuntimeEvent::Sent { now: 2 * SECOND });
    program.take(RuntimeEvent::Woke { now: 3 * SECOND });
    program.take(snapshot(Some(false), 3 * SECOND));
    assert_eq!(program.details().as_deref(), Some("In song select"));
    let lines = program.lines();
    assert_eq!(lines.last().map(|l| l.as_str()), Some("Stopped playing, back to song select"));
}

#[test]
fn lost_connection_is_made_again_after_the_interval() {
    let mut program = connected();
    program.take(snapshot(Some(true), 2 * SECOND));
    program.take(RuntimeEvent::SendFailed { error: "gone".to_string(), now: 2 * SECOND });
    assert!(program.sleeps());
    assert!(!program.state.connected());
    assert_eq!(program.state.current_presence_state(), None);
    assert_eq!(
        program.lines().last().map(|l| l.as_str()),
        Some("Failed to update Discord RPC for song T - A (MASTER): gone")
    );
    program.take(RuntimeEvent::Woke { now: 2 * SECOND + DISCORD_RECONNECT_INTERVAL - 1 });
    assert!(program.reads());
    program.take(snapshot(Some(true), 3 * SECOND));
    assert!(program.sleeps());
    let due = 2 * SECOND + DISCORD_RECONNECT_INTERVAL;
    program.take(RuntimeEvent::Woke { now: due });
    assert!(program.connects());
    program.take(RuntimeEvent::ConnectFailed { error: "no pipe".to_string(), now: due + 5 });
    assert!(program.reads());
    assert_eq!(program.lines(), vec!["Failed to connect Discord RPC: no pipe".to_string()]);
    program.take(snapshot(Some(true), due + 5));
    program.take(RuntimeEvent::Woke { now: due + DISCORD_RECONNECT_INTERVAL - 1 });
    assert!(program.reads());
    program.take(snapshot(Some(true), due + DISCORD_RECONNECT_INTERVAL - 1));
    program.take(RuntimeEvent::Woke { now: due + DISCORD_RECONNECT_INTERVAL });
    assert!(program.connects());
}

#[test]
fn first_attempt_counts_from_its_end() {
    let mut program = Program::new(RichPresenceConfig::default());
    program.take(RuntimeEvent::ConnectFailed { error: "no pipe".to_string(), now: 7 });
    assert!(program.reads());
    program.take(snapshot(Some(false), 8));
    program.take(RuntimeEvent::Woke { now: DISCORD_RECONNECT_INTERVAL + 6 });
    assert!(program.reads());
    program.take(snapshot(Some(false), DISCORD_RECONNECT_INTERVAL + 6));
    program.take(RuntimeEvent::Woke { now: DISCORD_RECONNECT_INTERVAL + 7 });
    assert!(program.connects());
}

#[test]
fn nothing_is_connected_without_an_application() {
    let mut config = RichPresenceConfig::default();
    config.discord_app_id = " ".to_string();
    let mut program = Program::new(config);
    assert!(program.reads());
    program.take(snapshot(Some(true), SECOND));
    assert!(program.sleeps());
    program.take(RuntimeEvent::Woke { now: 20 * SECOND });
    assert!(program.reads());
    program.take(snapshot(Some(true), 20 * SECOND));
    program.take(RuntimeEvent::Woke { now: 21 * SECOND });
    assert!(program.reads());
    assert_eq!(
        program.lines(),
        vec![
            "Discord app ID is not configured".to_string(),
            "Now playing: T - A".to_string(),
            "Discord app ID is not configured".to_string(),
        ]
    );
}

#[test]
fn unreadable_game_keeps_the_presence() {
    let mut program = connected();
    program.take(snapshot(Some(true), 2 * SECOND));
    program.take(RuntimeEvent::Sent { now: 2 * SECOND });
    program.lines();
    program.take(RuntimeEvent::Woke { now: 3 * SECOND });
    program.take(snapshot(None, 60 * SECOND));
    assert!(program.sleeps());
    program.take(RuntimeEvent::Woke { now: 61 * SECOND });
    program.take(snapshot(None, 61 * SECOND));
    program.take(RuntimeEvent::Woke { now: 62 * SECOND });
    program.take(snapshot(Some(true), 62 * SECOND));
    assert_eq!(program.details().as_deref(), Some("Playing T - A"));
    assert_eq!(
        program.lines(),
        vec![
            "Memory read unavailable, keeping default presence until pointers recover".to_string(),
            "Memory read recovered".to_string(),
        ]
    );
}

#[test]
fn event_out_of_place_changes_nothing() {
    let mut program = connected();
    program.take(RuntimeEvent::Woke { now: 100 * SECOND });
    program.take(RuntimeEvent::Sent { now: 100 * SECOND });
    program.take(RuntimeEvent::Connected { now: 100 * SECOND });
    assert!(program.reads());
    assert_eq!(program.lines().len(), 2);
    program.take(snapshot(Some(false), SECOND + PRESENCE_REFRESH_INTERVAL));
    assert_eq!(program.details().as_deref(), Some("In song select"));
}
