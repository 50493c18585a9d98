use chunirichpresence::journal::Journal;
use chunirichpresence::memory::{
    capture_play_state_from_ebx, current_hooked_difficulty, current_hooked_play_state,
    current_hooked_song_id, decode_play_state, difficulty_hook_callback, game_module_candidates,
    get_is_playing, get_module_handle, log_memory_probe_status, log_memory_snapshot,
    log_resolved_game_module, memory_snapshot, play_state_addr, read_live_play_state,
    read_presence_state_from_memory, song_id_hook_callback, GameModuleInfo, IntegerHookProbeStatus,
    MemoryProbeStatus, MemorySnapshot, PlayStateHookProbeStatus, PushadRegisters,
};
use chunirichpresence::songs::{songs_to_map, SongsById};
use chunirichpresence::types::{PresenceState, Song};

fn registers(eax: u32, ebx: u32) -> PushadRegisters {
    PushadRegisters { edi: 1, esi: 2, ebp: 3, esp: 4, ebx, edx: 5, ecx: 6, eax }
}

fn song_table() -> SongsById {
    let song = Song {
        id: "10".to_string(),
        title: "T".to_string(),
        artist: "A".to_string(),
        chart_levels: vec![],
    };
    songs_to_map(vec![song], &mut Journal::new())
}

fn shot(is_playing: Option<bool>, song_id: Option<i32>, difficulty: Option<i32>) -> MemorySnapshot {
    MemorySnapshot { is_playing, song_id, difficulty }
}

struct Reader {
    was_playing: bool,
    last_song_id: i32,
    latched_song_id: Option<i32>,
    latched_difficulty: Option<i32>,
    log: Journal,
}

impl Reader {
    fn new() -> Self {
        Reader {
            was_playing: false,
            last_song_id: -1,
            latched_song_id: None,
            latched_difficulty: None,
            log: Journal::new(),
        }
    }

    fn read(&mut self, snapshot: MemorySnapshot) -> Option<PresenceState> {
        let read = read_presence_state_from_memory(
            &song_table(),
            &snapshot,
            self.was_playing,
            &mut self.last_song_id,
            &mut self.latched_song_id,
            &mut self.latched_difficulty,
            &mut self.log,
        );
        read.map(|(is_playing, state)| {
            self.was_playing = is_playing;
            state
        })
    }
}

const SELECT: PresenceState = PresenceState::Default { player_rating: None };

#[test]
fn first_module_that_is_there_counts() {
    assert_eq!(game_module_candidates(), vec!["chusanApp.exe", "chuniApp.exe"]);
    assert_eq!(get_module_handle(&vec![0, 7, 9]), Some(7));
    assert_eq!(get_module_handle(&vec![0, 0, -3]), Some(-3));
    assert_eq!(get_module_handle(&vec![0, 0, 0]), None);
}

#[test]
fn play_states_are_decoded() {
    assert_eq!(decode_play_state(2), Some(true));
    assert_eq!(decode_play_state(3), Some(false));
    for other in [0, 1, 4, -1, i32::MIN, i32::MAX] {
        assert_eq!(decode_play_state(other), None);
    }
    assert_eq!(current_hooked_play_state(2), Some(true));
    assert_eq!(current_hooked_play_state(i32::MIN), None);
    assert_eq!(read_live_play_state(Some(3)), Some(false));
    assert_eq!(read_live_play_state(None), None);
    assert_eq!(play_state_addr(Some(0x400000)), Some(0x400000 + 0x018849E0));
    assert_eq!(play_state_addr(Some(usize::MAX)), None);
    assert_eq!(play_state_addr(None), None);
}

#[test]
fn captured_values_are_read_back() {
    assert_eq!(song_id_hook_callback(&registers(2470, 0)), 2470);
    assert_eq!(song_id_hook_callback(&registers(u32::MAX, 0)), -1);
    assert_eq!(current_hooked_song_id(2470), Some(2470));
    assert_eq!(current_hooked_song_id(i32::MIN), None);
    assert_eq!(difficulty_hook_callback(&registers(0xFFFF_FF03, 0)), Some(3));
    assert_eq!(difficulty_hook_callback(&registers(0x0000_0304, 0)), Some(4));
    assert_eq!(difficulty_hook_callback(&registers(5, 0)), None);
    assert_eq!(current_hooked_difficulty(3), Some(3));
    assert_eq!(current_hooked_difficulty(i32::MIN), None);
    assert_eq!(capture_play_state_from_ebx(&registers(0, 2)), Some(2));
    assert_eq!(capture_play_state_from_ebx(&registers(2, 7)), None);
}

#[test]
fn memory_goes_before_what_was_captured() {
    assert_eq!(get_is_playing(Some(false), Some(true)), Some(false));
    assert_eq!(get_is_playing(None, Some(true)), Some(true));
    assert_eq!(get_is_playing(None, None), Some(false));
    let snapshot = memory_snapshot(Some(9), 2, 10, i32::MIN);
    assert_eq!(snapshot.is_playing, Some(true));
    assert_eq!(snapshot.song_id, Some(10));
    assert_eq!(snapshot.difficulty, None);
    let snapshot = memory_snapshot(Some(3), 2, i32::MIN, 4);
    assert_eq!(snapshot.is_playing, Some(false));
    assert_eq!(snapshot.song_id, None);
    assert_eq!(snapshot.difficulty, Some(4));
    assert_eq!(memory_snapshot(None, i32::MIN, 0, 0).is_playing, Some(false));
}

#[test]
fn song_is_held_from_its_start_to_its_end() {
    let mut reader = Reader::new();
    assert_eq!(reader.read(shot(Some(false), Some(10), Some(3))), Some(SELECT));
    let playing = PresenceState::Song { id: 10, difficulty: 3, player_rating: None };
    assert_eq!(reader.read(shot(Some(true), Some(10), Some(3))), Some(playing));
    assert_eq!(reader.read(shot(Some(true), Some(99), Some(0))), Some(playing));
    assert_eq!(reader.read(shot(Some(true), None, None)), Some(playing));
    assert_eq!(reader.read(shot(None, Some(99), Some(0))), None);
    assert_eq!((reader.latched_song_id, reader.latched_difficulty), (Some(10), Some(3)));
    assert_eq!(reader.read(shot(Some(false), Some(99), Some(0))), Some(SELECT));
    assert_eq!((reader.last_song_id, reader.latched_song_id), (-1, None));
    assert_eq!(reader.latched_difficulty, None);
    assert_eq!(
        reader.log.into_lines(),
        vec!["Now playing: T - A".to_string(), "Stopped playing, back to song select".to_string()]
    );
}

#[test]
fn start_without_song_or_difficulty_is_no_start() {
    for snapshot in [
        shot(Some(true), None, Some(1)),
        shot(Some(true), Some(-1), Some(1)),
        shot(Some(true), Some(10), None),
    ] {
        let mut reader = Reader::new();
        assert_eq!(reader.read(snapshot), Some(SELECT));
        assert!(!reader.was_playing);
        assert_eq!((reader.last_song_id, reader.latched_song_id), (-1, None));
        assert!(reader.log.into_lines().is_empty());
    }
}

#[test]
fn difficulty_falls_back_while_playing() {
    let mut reader = Reader::new();
    reader.was_playing = true;
    let unknown = |difficulty| PresenceState::UnknownSong { difficulty, player_rating: None };
    assert_eq!(reader.read(shot(Some(true), Some(10), Some(2))), Some(unknown(2)));
    assert_eq!(reader.read(shot(Some(true), Some(10), None)), Some(unknown(-1)));
}

#[test]
fn snapshot_and_module_are_logged() {
    let mut log = Journal::new();
    log_memory_snapshot(&shot(Some(true), Some(-4), None), &mut log);
    log_resolved_game_module(&None, &mut log);
    log_resolved_game_module(
        &Some(GameModuleInfo { path: Some("C:\\g\\chusanApp.exe".to_string()), base_addr: 0x400000 }),
        &mut log,
    );
    log_resolved_game_module(&Some(GameModuleInfo { path: None, base_addr: 1 }), &mut log);
    assert_eq!(
        log.into_lines(),
        vec![
            "Memory snapshot: is_playing=Some(true), song_id=Some(-4), difficulty=None".to_string(),
            "Failed to resolve game module handle".to_string(),
            "Resolved game module: C:\\g\\chusanApp.exe".to_string(),
            "Resolved game module base: 0x00400000".to_string(),
            "Resolved game module base: 0x00000001".to_string(),
        ]
    );
}

#[test]
fn probe_is_logged() {
    let status = |module| MemoryProbeStatus {
        module,
        song_id: IntegerHookProbeStatus {
            installed: true,
            target_addr: Some(0x965C35),
            cached_value: Some(10),
        },
        difficulty: IntegerHookProbeStatus { installed: false, target_addr: None, cached_value: None },
        play_state: PlayStateHookProbeStatus {
            enter_installed: true,
            enter_target_addr: Some(0xF5C4CE),
            exit_installed: false,
            exit_target_addr: None,
            cached_value: Some(false),
        },
    };
    let mut log = Journal::new();
    log_memory_probe_status(&status(None), &mut log);
    log_memory_probe_status(&status(Some(GameModuleInfo { path: Some("p".to_string()), base_addr: 0x10 })), &mut log);
    assert_eq!(
        log.into_lines(),
        vec![
            "Memory probe: failed to resolve game module handle".to_string(),
            "Memory probe: game module path p".to_string(),
            "Memory probe: game module base 0x00000010".to_string(),
            "Memory probe: song-id hook installed=true target=0x00965C35 cached=Some(10)".to_string(),
            "Memory probe: difficulty hook installed=false target=none cached=None".to_string(),
            "Memory probe: play-state hooks enter_installed=true enter_target=0x00F5C4CE exit_installed=false exit_target=none cached=Some(false)".to_string(),
        ]
    );
}
