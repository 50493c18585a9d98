//! What is read from the game: the captured values, the presence that they make, and their report.

use crate::code;
use crate::hooks;
use crate::journal::Journal;
use crate::presence;
use crate::songs::SongsById;
use crate::text;
use crate::types::{PresenceState, Song};
use vstd::prelude::*;
use vstd::string::*;

verus! {

/// Where the play state stands in the game module.
pub const PLAY_STATE_VALUE_RVA: usize = 0x018849E0;

/// The captured song while none was captured.
pub const SONG_ID_UNSET: i32 = i32::MIN;

/// The captured difficulty while none was captured.
pub const DIFFICULTY_UNSET: i32 = i32::MIN;

/// The captured play state while none was captured.
pub const PLAY_STATE_UNSET: i32 = i32::MIN;

/// The play state while a song is being played.
pub const PLAY_STATE_VALUE_PLAYING: i32 = 2;

/// The play state while a song is being chosen.
pub const PLAY_STATE_VALUE_SONG_SELECT: i32 = 3;

/// The registers as a hook finds them, in the order in which they lie on the stack.
#[derive(Copy, Clone, Debug)]
pub struct PushadRegisters {
    pub edi: u32,
    pub esi: u32,
    pub ebp: u32,
    pub esp: u32,
    pub ebx: u32,
    pub edx: u32,
    pub ecx: u32,
    pub eax: u32,
}

/// The names of the game module, in the order in which they are tried.
pub fn game_module_candidates() -> (r: Vec<&'static str>)
    ensures
        r@ == seq!["chusanApp.exe", "chuniApp.exe"],
{
    let r = vec!["chusanApp.exe", "chuniApp.exe"];
    assert(r@ =~= seq!["chusanApp.exe", "chuniApp.exe"]);
    r
}

/// The first handle that is not zero.
pub open spec fn first_handle(handles: Seq<isize>) -> Option<isize>
    decreases handles.len(),
{
    if handles.len() == 0 {
        None
    } else if handles.first() != 0 {
        Some(handles.first())
    } else {
        first_handle(handles.drop_first())
    }
}

/// The game module: the first handle that was found, where zero stands for a module that was not.
pub fn get_module_handle(handles: &Vec<isize>) -> (r: Option<isize>)
    ensures
        r == first_handle(handles@),
{
    let mut i: usize = 0;
    assert(handles@.skip(0) =~= handles@);
    while i < handles.len()
        invariant
            i <= handles.len(),
            first_handle(handles@.skip(i as int)) == first_handle(handles@),
        decreases handles.len() - i,
    {
        if handles[i] != 0 {
            return Some(handles[i]);
        }
        assert(handles@.skip(i as int).drop_first() =~= handles@.skip(i + 1));
        i += 1;
    }
    None
}

/// Whether a song is being played, as far as the play state tells.
pub open spec fn playing_in(value: i32) -> Option<bool> {
    if value == PLAY_STATE_VALUE_PLAYING {
        Some(true)
    } else if value == PLAY_STATE_VALUE_SONG_SELECT {
        Some(false)
    } else {
        None
    }
}

/// Whether a song is being played, as far as the play state tells.
pub fn decode_play_state(value: i32) -> (r: Option<bool>)
    ensures
        r == playing_in(value),
{
    if value == PLAY_STATE_UNSET {
        None
    } else if value == PLAY_STATE_VALUE_PLAYING {
        Some(true)
    } else if value == PLAY_STATE_VALUE_SONG_SELECT {
        Some(false)
    } else {
        None
    }
}

/// The song that the register `eax` gives.
pub open spec fn song_in(registers: PushadRegisters) -> i32 {
    code::word_signed(registers.eax)
}

/// The difficulty in the lowest byte of `eax`, if it is one.
pub open spec fn difficulty_in(registers: PushadRegisters) -> Option<i32> {
    if registers.eax % 256 <= 4 {
        Some((registers.eax % 256) as i32)
    } else {
        None
    }
}

/// The play state that `ebx` gives, if it is one.
pub open spec fn play_state_in(registers: PushadRegisters) -> Option<i32> {
    let value = code::word_signed(registers.ebx);
    if playing_in(value) is Some {
        Some(value)
    } else {
        None
    }
}

/// What to keep as the captured song.
pub fn song_id_hook_callback(registers: &PushadRegisters) -> (r: i32)
    ensures
        r == song_in(*registers),
{
    code::to_signed(registers.eax)
}

/// What to keep as the captured difficulty, if the register holds one.
pub fn difficulty_hook_callback(registers: &PushadRegisters) -> (r: Option<i32>)
    ensures
        r == difficulty_in(*registers),
{
    let difficulty: u32 = registers.eax % 256;
    if difficulty <= 4 {
        Some(difficulty as i32)
    } else {
        None
    }
}

/// What to keep as the captured play state, if the register holds one.
pub fn capture_play_state_from_ebx(registers: &PushadRegisters) -> (r: Option<i32>)
    ensures
        r == play_state_in(*registers),
{
    let play_state = code::to_signed(registers.ebx);
    if decode_play_state(play_state).is_some() {
        Some(play_state)
    } else {
        None
    }
}

/// The captured song, if there is one.
pub fn current_hooked_song_id(captured: i32) -> (r: Option<i32>)
    ensures
        r == if captured == SONG_ID_UNSET {
            None
        } else {
            Some(captured)
        },
{
    if captured == SONG_ID_UNSET {
        None
    } else {
        Some(captured)
    }
}

/// The captured difficulty, if there is one.
pub fn current_hooked_difficulty(captured: i32) -> (r: Option<i32>)
    ensures
        r == if captured == DIFFICULTY_UNSET {
            None
        } else {
            Some(captured)
        },
{
    if captured == DIFFICULTY_UNSET {
        None
    } else {
        Some(captured)
    }
}

/// What the captured play state tells.
pub fn current_hooked_play_state(captured: i32) -> (r: Option<bool>)
    ensures
        r == playing_in(captured),
{
    decode_play_state(captured)
}

/// Where the play state is to be read, if the game module is known.
pub open spec fn play_state_place(module_base: Option<usize>) -> Option<usize> {
    match module_base {
        Some(base) if base + PLAY_STATE_VALUE_RVA <= usize::MAX => Some(
            (base + PLAY_STATE_VALUE_RVA) as usize,
        ),
        _ => None,
    }
}

/// Where the play state is to be read, if the game module is known.
pub fn play_state_addr(module_base: Option<usize>) -> (r: Option<usize>)
    ensures
        r == play_state_place(module_base),
{
    match module_base {
        Some(base) => code::add_offset(base, PLAY_STATE_VALUE_RVA),
        None => None,
    }
}

/// What the play state in memory tells, if it could be read.
pub fn read_live_play_state(play_state: Option<i32>) -> (r: Option<bool>)
    ensures
        r == match play_state {
            Some(value) => playing_in(value),
            None => None,
        },
{
    match play_state {
        Some(value) => decode_play_state(value),
        None => None,
    }
}

/// Whether a song is being played: what the memory tells, else what was captured, else not.
pub fn get_is_playing(live: Option<bool>, hooked: Option<bool>) -> (r: Option<bool>)
    ensures
        r == match (live, hooked) {
            (Some(playing), _) => Some(playing),
            (None, Some(playing)) => Some(playing),
            (None, None) => Some(false),
        },
{
    match (live, hooked) {
        (Some(playing), _) => Some(playing),
        (None, Some(playing)) => Some(playing),
        (None, None) => Some(false),
    }
}

/// What was read from the game at one time.
#[derive(Copy, Clone, Debug)]
pub struct MemorySnapshot {
    pub is_playing: Option<bool>,
    pub song_id: Option<i32>,
    pub difficulty: Option<i32>,
}

/// A snapshot, from the play state in memory, if it could be read, and from the captured values.
pub open spec fn snapshot_from(
    play_state: Option<i32>,
    captured_play_state: i32,
    captured_song_id: i32,
    captured_difficulty: i32,
) -> MemorySnapshot {
    MemorySnapshot {
        is_playing: match (play_state, playing_in(captured_play_state)) {
            (Some(value), _) if playing_in(value) is Some => playing_in(value),
            (_, Some(playing)) => Some(playing),
            (_, None) => Some(false),
        },
        song_id: if captured_song_id == SONG_ID_UNSET {
            None
        } else {
            Some(captured_song_id)
        },
        difficulty: if captured_difficulty == DIFFICULTY_UNSET {
            None
        } else {
            Some(captured_difficulty)
        },
    }
}

/// A snapshot, from the play state in memory, if it could be read, and from the captured values.
pub fn memory_snapshot(
    play_state: Option<i32>,
    captured_play_state: i32,
    captured_song_id: i32,
    captured_difficulty: i32,
) -> (r: MemorySnapshot)
    ensures
        r == snapshot_from(
            play_state,
            captured_play_state,
            captured_song_id,
            captured_difficulty,
        ),
{
    MemorySnapshot {
        is_playing: get_is_playing(
            read_live_play_state(play_state),
            current_hooked_play_state(captured_play_state),
        ),
        song_id: current_hooked_song_id(captured_song_id),
        difficulty: current_hooked_difficulty(captured_difficulty),
    }
}

/// What is remembered from one reading to the next: the song that was last put in the log, and the
/// song and the difficulty that are held while a song is being played.
#[derive(Copy, Clone, Debug)]
pub struct PlayMemory {
    pub last_song_id: i32,
    pub latched_song_id: Option<i32>,
    pub latched_difficulty: Option<i32>,
}

/// Nothing is remembered.
pub open spec fn nothing_remembered() -> PlayMemory {
    PlayMemory { last_song_id: (-1) as i32, latched_song_id: None, latched_difficulty: None }
}

/// The song and the difficulty of a snapshot that shows the start of a song, if it shows both.
pub open spec fn play_start(snapshot: MemorySnapshot) -> Option<(i32, i32)> {
    match (snapshot.song_id, snapshot.difficulty) {
        (Some(song_id), Some(difficulty)) if song_id != -1 => Some((song_id, difficulty)),
        _ => None,
    }
}

/// Whether the snapshot counts as one of a song being played: the game says so, and either a song was
/// being played before or the snapshot shows which song starts.
pub open spec fn counts_as_playing(snapshot: MemorySnapshot, was_playing: bool) -> bool {
    snapshot.is_playing == Some(true) && (was_playing || play_start(snapshot) is Some)
}

/// What is held after a snapshot that counts as one of a song being played.
pub open spec fn latched(
    snapshot: MemorySnapshot,
    was_playing: bool,
    memory: PlayMemory,
) -> PlayMemory {
    match play_start(snapshot) {
        Some((song_id, difficulty)) if !was_playing => PlayMemory {
            latched_song_id: Some(song_id),
            latched_difficulty: Some(difficulty),
            ..memory
        },
        _ => memory,
    }
}

/// The difficulty to show: the one that is held, else the one in the snapshot, else an unknown one.
pub open spec fn difficulty_to_show(snapshot: MemorySnapshot, memory: PlayMemory) -> i32 {
    match (memory.latched_difficulty, snapshot.difficulty) {
        (Some(difficulty), _) => difficulty,
        (None, Some(difficulty)) => difficulty,
        (None, None) => (-1) as i32,
    }
}

/// What a reading comes to: whether a song counts as being played and the presence to show, nothing
/// if the play state is not known.
pub open spec fn reading(
    songs_by_id: Map<i32, Song>,
    snapshot: MemorySnapshot,
    was_playing: bool,
    memory: PlayMemory,
) -> Option<(bool, PresenceState)> {
    if snapshot.is_playing is None {
        None
    } else if counts_as_playing(snapshot, was_playing) {
        let held = latched(snapshot, was_playing, memory);
        Some(
            (
                true,
                presence::playing_state(
                    songs_by_id,
                    held.latched_song_id,
                    difficulty_to_show(snapshot, held),
                    None,
                ),
            ),
        )
    } else {
        Some((false, PresenceState::Default { player_rating: None }))
    }
}

/// What is remembered after a reading.
pub open spec fn remembered(
    snapshot: MemorySnapshot,
    was_playing: bool,
    memory: PlayMemory,
) -> PlayMemory {
    if snapshot.is_playing is None {
        memory
    } else if counts_as_playing(snapshot, was_playing) {
        let held = latched(snapshot, was_playing, memory);
        PlayMemory {
            last_song_id: match held.latched_song_id {
                Some(song_id) => song_id,
                None => held.last_song_id,
            },
            ..held
        }
    } else {
        nothing_remembered()
    }
}

/// The lines that a reading adds to the log.
pub open spec fn reading_lines(
    songs_by_id: Map<i32, Song>,
    snapshot: MemorySnapshot,
    was_playing: bool,
    memory: PlayMemory,
) -> Seq<Seq<char>> {
    if snapshot.is_playing == Some(false) && was_playing {
        seq!["Stopped playing, back to song select"@]
    } else if counts_as_playing(snapshot, was_playing) {
        presence::song_change_lines(
            songs_by_id,
            latched(snapshot, was_playing, memory).latched_song_id,
            memory.last_song_id,
        )
    } else {
        Seq::empty()
    }
}

/// The presence that a snapshot of the game makes. The song and the difficulty are held from the
/// snapshot that shows the start of the song to the one that shows its end.
pub fn read_presence_state_from_memory(
    songs_by_id: &SongsById,
    snapshot: &MemorySnapshot,
    was_playing: bool,
    last_song_id: &mut i32,
    latched_song_id: &mut Option<i32>,
    latched_difficulty: &mut Option<i32>,
    log: &mut Journal,
) -> (r: Option<(bool, PresenceState)>)
    ensures
        ({
            let before = PlayMemory {
                last_song_id: *old(last_song_id),
                latched_song_id: *old(latched_song_id),
                latched_difficulty: *old(latched_difficulty),
            };
            let after = PlayMemory {
                last_song_id: *final(last_song_id),
                latched_song_id: *final(latched_song_id),
                latched_difficulty: *final(latched_difficulty),
            };
            &&& r == reading(songs_by_id@, *snapshot, was_playing, before)
            &&& after == remembered(*snapshot, was_playing, before)
            &&& final(log)@ == old(log)@ + reading_lines(
                songs_by_id@,
                *snapshot,
                was_playing,
                before,
            )
        }),
{
    let ghost before = PlayMemory {
        last_song_id: *last_song_id,
        latched_song_id: *latched_song_id,
        latched_difficulty: *latched_difficulty,
    };
    let ghost added = reading_lines(songs_by_id@, *snapshot, was_playing, before);
    let is_playing = match snapshot.is_playing {
        Some(is_playing) => is_playing,
        None => {
            assert(log@ =~= old(log)@ + added);
            return None;
        },
    };
    if !is_playing {
        if was_playing {
            log.record("Stopped playing, back to song select".to_owned());
        }
        *last_song_id = -1;
        *latched_song_id = None;
        *latched_difficulty = None;
        assert(log@ =~= old(log)@ + added);
        return Some((false, PresenceState::Default { player_rating: None }));
    }
    if !was_playing {
        let start = match (snapshot.song_id, snapshot.difficulty) {
            (Some(song_id), Some(difficulty)) => if song_id != -1 {
                Some((song_id, difficulty))
            } else {
                None
            },
            _ => None,
        };
        match start {
            Some((song_id, difficulty)) => {
                *latched_song_id = Some(song_id);
                *latched_difficulty = Some(difficulty);
            },
            None => {
                *last_song_id = -1;
                *latched_song_id = None;
                *latched_difficulty = None;
                assert(log@ =~= old(log)@ + added);
                return Some((false, PresenceState::Default { player_rating: None }));
            },
        }
    }
    let current_difficulty: i32 = match (*latched_difficulty, snapshot.difficulty) {
        (Some(difficulty), _) => difficulty,
        (None, Some(difficulty)) => difficulty,
        (None, None) => -1,
    };
    let state = presence::resolve_playing_presence_state(
        songs_by_id,
        *latched_song_id,
        current_difficulty,
        None,
        last_song_id,
        log,
    );
    Some((true, state))
}

/// What holds of the memory between two readings: while a song counts as being played, a song and a
/// difficulty are held and the song is the last one in the log; else nothing is remembered.
pub open spec fn memory_fits(is_playing: bool, memory: PlayMemory) -> bool {
    if is_playing {
        &&& memory.latched_song_id matches Some(song_id)
        &&& song_id != -1
        &&& memory.last_song_id == song_id
        &&& memory.latched_difficulty is Some
    } else {
        memory == nothing_remembered()
    }
}

/// Every reading leaves a memory that fits what it says of being played.
pub proof fn law_readings_keep_the_memory_fitting(
    songs_by_id: Map<i32, Song>,
    snapshot: MemorySnapshot,
    was_playing: bool,
    memory: PlayMemory,
)
    requires
        memory_fits(was_playing, memory),
    ensures
        match reading(songs_by_id, snapshot, was_playing, memory) {
            Some((is_playing, _)) => memory_fits(
                is_playing,
                remembered(snapshot, was_playing, memory),
            ),
            None => remembered(snapshot, was_playing, memory) == memory,
        },
{
}

/// What is remembered after several readings that all show a song being played.
pub open spec fn remembered_after(snapshots: Seq<MemorySnapshot>, memory: PlayMemory) -> PlayMemory
    decreases snapshots.len(),
{
    if snapshots.len() == 0 {
        memory
    } else {
        remembered(snapshots.last(), true, remembered_after(snapshots.drop_last(), memory))
    }
}

/// From the start of a song to its end the presence is that of the song and the difficulty at the
/// start, whatever songs and difficulties the snapshots in between show.
pub proof fn law_the_song_is_held_until_its_end(
    songs_by_id: Map<i32, Song>,
    snapshots: Seq<MemorySnapshot>,
    snapshot: MemorySnapshot,
    memory: PlayMemory,
)
    requires
        memory_fits(true, memory),
        forall|i: int|
            0 <= i < snapshots.len() ==> (#[trigger] snapshots[i]).is_playing == Some(true),
        snapshot.is_playing == Some(true),
    ensures
        remembered_after(snapshots, memory) == memory,
        reading(songs_by_id, snapshot, true, remembered_after(snapshots, memory)) == Some(
            (
                true,
                presence::playing_state(
                    songs_by_id,
                    memory.latched_song_id,
                    memory.latched_difficulty->0,
                    None,
                ),
            ),
        ),
    decreases snapshots.len(),
{
    if snapshots.len() > 0 {
        assert(forall|i: int|
            0 <= i < snapshots.drop_last().len() ==> #[trigger] snapshots.drop_last()[i]
                == snapshots[i]);
        law_the_song_is_held_until_its_end(songs_by_id, snapshots.drop_last(), snapshot, memory);
        assert(snapshots.last() == snapshots[snapshots.len() - 1]);
    }
}

/// The end of a song, and a start of which the song or the difficulty is not known, give the default
/// presence and forget the song.
pub proof fn law_without_a_song_the_default_is_shown(
    songs_by_id: Map<i32, Song>,
    snapshot: MemorySnapshot,
    was_playing: bool,
    memory: PlayMemory,
)
    requires
        snapshot.is_playing == Some(false) || (snapshot.is_playing == Some(true) && !was_playing && (
        snapshot.song_id is None || snapshot.song_id == Some((-1) as i32)
            || snapshot.difficulty is None)),
    ensures
        reading(songs_by_id, snapshot, was_playing, memory) == Some(
            (false, PresenceState::Default { player_rating: None }),
        ),
        remembered(snapshot, was_playing, memory) == nothing_remembered(),
{
}

/// A captured value is read back, and is one that makes sense: a difficulty of the game, a play state
/// that can be told. The song with the number that stands for none is the one that is not read back.
pub proof fn law_captured_values_are_read_back(registers: PushadRegisters)
    ensures
        difficulty_in(registers) matches Some(difficulty) ==> 0 <= difficulty <= 4 && difficulty
            != DIFFICULTY_UNSET,
        play_state_in(registers) matches Some(value) ==> playing_in(value) is Some && value
            != PLAY_STATE_UNSET,
        registers.eax != 0x8000_0000 ==> song_in(registers) != SONG_ID_UNSET,
        playing_in(PLAY_STATE_UNSET) is None,
{
}

/// What is known of a hook that captures a number.
#[derive(Copy, Clone, Debug)]
pub struct IntegerHookProbeStatus {
    pub installed: bool,
    pub target_addr: Option<usize>,
    pub cached_value: Option<i32>,
}

/// What is known of the two hooks that capture the play state.
#[derive(Copy, Clone, Debug)]
pub struct PlayStateHookProbeStatus {
    pub enter_installed: bool,
    pub enter_target_addr: Option<usize>,
    pub exit_installed: bool,
    pub exit_target_addr: Option<usize>,
    pub cached_value: Option<bool>,
}

/// The game module. Its path is given as it is to be displayed.
pub struct GameModuleInfo {
    pub path: Option<String>,
    pub base_addr: usize,
}

/// What is known of the game module and the hooks.
pub struct MemoryProbeStatus {
    pub module: Option<GameModuleInfo>,
    pub song_id: IntegerHookProbeStatus,
    pub difficulty: IntegerHookProbeStatus,
    pub play_state: PlayStateHookProbeStatus,
}

/// The address of a hook in hexadecimal, or `none`.
pub open spec fn target_text(addr: Option<usize>) -> Seq<char> {
    match addr {
        Some(addr) => hooks::optional_addr_text(addr),
        None => hooks::optional_addr_text(0),
    }
}

fn append_target(out: &mut String, addr: Option<usize>)
    ensures
        final(out)@ == old(out)@ + target_text(addr),
{
    let addr: usize = match addr {
        Some(addr) => addr,
        None => 0,
    };
    out.append(hooks::format_optional_addr(addr).as_str());
}

/// The line on a hook that captures a number.
pub open spec fn integer_hook_line(label: Seq<char>, status: IntegerHookProbeStatus) -> Seq<char> {
    label + " hook installed="@ + text::bool_text(status.installed) + " target="@ + target_text(
        status.target_addr,
    ) + " cached="@ + text::optional_int_text(status.cached_value)
}

fn integer_hook_report(label: &str, status: &IntegerHookProbeStatus) -> (r: String)
    ensures
        r@ == integer_hook_line(label@, *status),
{
    let mut line: String = label.to_owned();
    line.append(" hook installed=");
    text::append_bool(&mut line, status.installed);
    line.append(" target=");
    append_target(&mut line, status.target_addr);
    line.append(" cached=");
    text::append_optional_int(&mut line, status.cached_value);
    line
}

/// The line on the two hooks that capture the play state.
pub open spec fn play_state_hook_line(status: PlayStateHookProbeStatus) -> Seq<char> {
    "Memory probe: play-state hooks enter_installed="@ + text::bool_text(status.enter_installed)
        + " enter_target="@ + target_text(status.enter_target_addr) + " exit_installed="@
        + text::bool_text(status.exit_installed) + " exit_target="@ + target_text(
        status.exit_target_addr,
    ) + " cached="@ + text::optional_bool_text(status.cached_value)
}

fn play_state_hook_report(status: &PlayStateHookProbeStatus) -> (r: String)
    ensures
        r@ == play_state_hook_line(*status),
{
    let mut line: String = "Memory probe: play-state hooks enter_installed=".to_owned();
    text::append_bool(&mut line, status.enter_installed);
    line.append(" enter_target=");
    append_target(&mut line, status.enter_target_addr);
    line.append(" exit_installed=");
    text::append_bool(&mut line, status.exit_installed);
    line.append(" exit_target=");
    append_target(&mut line, status.exit_target_addr);
    line.append(" cached=");
    text::append_optional_bool(&mut line, status.cached_value);
    line
}

/// The lines on the game module, each piece of information behind its label.
pub open spec fn module_lines(
    module: GameModuleInfo,
    path_label: Seq<char>,
    base_label: Seq<char>,
) -> Seq<Seq<char>> {
    let base = base_label + hooks::addr_text(module.base_addr);
    match module.path {
        Some(path) => seq![path_label + path@, base],
        None => seq![base],
    }
}

fn log_module(module: &GameModuleInfo, path_label: &str, base_label: &str, log: &mut Journal)
    ensures
        final(log)@ == old(log)@ + module_lines(*module, path_label@, base_label@),
{
    if let Some(path) = &module.path {
        log.record(path_label.to_owned().concat(path.as_str()));
    }
    log.record(base_label.to_owned().concat(hooks::format_addr(module.base_addr).as_str()));
    assert(log@ =~= old(log)@ + module_lines(*module, path_label@, base_label@));
}

/// The lines on the game module and the hooks.
pub open spec fn probe_lines(status: MemoryProbeStatus) -> Seq<Seq<char>> {
    match status.module {
        None => seq!["Memory probe: failed to resolve game module handle"@],
        Some(module) => module_lines(
            module,
            "Memory probe: game module path "@,
            "Memory probe: game module base "@,
        ) + seq![
            integer_hook_line("Memory probe: song-id"@, status.song_id),
            integer_hook_line("Memory probe: difficulty"@, status.difficulty),
            play_state_hook_line(status.play_state),
        ],
    }
}

/// Puts in the log what is known of the game module and the hooks.
pub fn log_memory_probe_status(status: &MemoryProbeStatus, log: &mut Journal)
    ensures
        final(log)@ == old(log)@ + probe_lines(*status),
{
    match &status.module {
        None => log.record("Memory probe: failed to resolve game module handle".to_owned()),
        Some(module) => {
            log_module(
                module,
                "Memory probe: game module path ",
                "Memory probe: game module base ",
                log,
            );
            log.record(integer_hook_report("Memory probe: song-id", &status.song_id));
            log.record(integer_hook_report("Memory probe: difficulty", &status.difficulty));
            log.record(play_state_hook_report(&status.play_state));
        },
    }
    assert(log@ =~= old(log)@ + probe_lines(*status));
}

/// The line on a snapshot.
pub open spec fn snapshot_line(snapshot: MemorySnapshot) -> Seq<char> {
    "Memory snapshot: is_playing="@ + text::optional_bool_text(snapshot.is_playing) + ", song_id="@
        + text::optional_int_text(snapshot.song_id) + ", difficulty="@ + text::optional_int_text(
        snapshot.difficulty,
    )
}

/// Puts a snapshot in the log.
pub fn log_memory_snapshot(snapshot: &MemorySnapshot, log: &mut Journal)
    ensures
        final(log)@ == old(log)@.push(snapshot_line(*snapshot)),
{
    let mut line: String = "Memory snapshot: is_playing=".to_owned();
    text::append_optional_bool(&mut line, snapshot.is_playing);
    line.append(", song_id=");
    text::append_optional_int(&mut line, snapshot.song_id);
    line.append(", difficulty=");
    text::append_optional_int(&mut line, snapshot.difficulty);
    log.record(line);
}

/// The lines on the game module that was found, or on the failure to find it.
pub open spec fn resolved_module_lines(module: Option<GameModuleInfo>) -> Seq<Seq<char>> {
    match module {
        None => seq!["Failed to resolve game module handle"@],
        Some(module) => module_lines(
            module,
            "Resolved game module: "@,
            "Resolved game module base: "@,
        ),
    }
}

/// Puts in the log which game module was found.
pub fn log_resolved_game_module(module: &Option<GameModuleInfo>, log: &mut Journal)
    ensures
        final(log)@ == old(log)@ + resolved_module_lines(*module),
{
    match module {
        None => log.record("Failed to resolve game module handle".to_owned()),
        Some(module) => log_module(
            module,
            "Resolved game module: ",
            "Resolved game module base: ",
            log,
        ),
    }
    assert(log@ =~= old(log)@ + resolved_module_lines(*module));
}

/// A song is being played exactly in the play state 2, and being chosen exactly in the play state 3;
/// no other play state tells anything.
pub proof fn law_two_play_states_tell(value: i32)
    ensures
        playing_in(value) == Some(true) <==> value == 2,
        playing_in(value) == Some(false) <==> value == 3,
{
}

/// Every difficulty of the game is captured: the lowest byte of `eax` if it is one of 0 to 4, whatever
/// the other bytes are, and nothing else.
pub proof fn law_every_difficulty_is_captured(registers: PushadRegisters, upper: int, lowest: int)
    requires
        registers.eax == 256 * upper + lowest,
        0 <= lowest < 256,
    ensures
        lowest == 0 || lowest == 1 || lowest == 2 || lowest == 3 || lowest == 4 ==> difficulty_in(
            registers,
        ) == Some(lowest as i32),
        lowest > 4 ==> difficulty_in(registers) is None,
{
}

/// Every song is captured as the signed number in `eax`, and every play state that tells something as
/// the one in `ebx`.
pub proof fn law_songs_and_play_states_are_captured(registers: PushadRegisters)
    ensures
        registers.eax <= i32::MAX ==> song_in(registers) == registers.eax,
        registers.eax > i32::MAX ==> song_in(registers) == registers.eax - 0x1_0000_0000,
        registers.ebx == 2 ==> play_state_in(registers) == Some(2i32),
        registers.ebx == 3 ==> play_state_in(registers) == Some(3i32),
        registers.ebx != 2 && registers.ebx != 3 ==> play_state_in(registers) is None,
{
}

/// The first module that was found is the game's; without one there is none.
pub proof fn law_the_first_found_module_counts(handles: Seq<isize>, i: int)
    requires
        0 <= i <= handles.len(),
        forall|j: int| 0 <= j < i ==> #[trigger] handles[j] == 0,
    ensures
        i < handles.len() && handles[i] != 0 ==> first_handle(handles) == Some(handles[i]),
        i == handles.len() ==> first_handle(handles) is None,
    decreases handles.len(),
{
    if i > 0 {
        assert(handles[0] == 0);
        let rest = handles.drop_first();
        assert forall|j: int| 0 <= j < i - 1 implies #[trigger] rest[j] == 0 by {
            assert(rest[j] == handles[j + 1]);
        }
        law_the_first_found_module_counts(rest, i - 1);
        if i < handles.len() {
            assert(rest[i - 1] == handles[i]);
        }
    }
}

/// The play state lies 0x18849E0 bytes into the game module, if that is an address.
pub proof fn law_the_play_state_has_its_place(base: usize)
    ensures
        play_state_place(None) is None,
        base + 0x18849E0 <= usize::MAX ==> play_state_place(Some(base)) == Some(
            (base + 0x18849E0) as usize,
        ),
        base + 0x18849E0 > usize::MAX ==> play_state_place(Some(base)) is None,
{
}

/// What the memory tells of the play state goes before what was captured of it, and where neither
/// tells anything no song is being played. The song and the difficulty are those that were captured,
/// if any were.
pub proof fn law_a_snapshot_holds_what_was_read_and_captured(
    live: Option<i32>,
    captured_play_state: i32,
    song_id: i32,
    difficulty: i32,
)
    ensures
        ({
            let snapshot = snapshot_from(live, captured_play_state, song_id, difficulty);
            &&& live == Some(2i32) ==> snapshot.is_playing == Some(true)
            &&& live == Some(3i32) ==> snapshot.is_playing == Some(false)
            &&& live != Some(2i32) && live != Some(3i32) ==> snapshot.is_playing == Some(
                captured_play_state == 2,
            )
            &&& song_id == i32::MIN ==> snapshot.song_id is None
            &&& song_id != i32::MIN ==> snapshot.song_id == Some(song_id)
            &&& difficulty == i32::MIN ==> snapshot.difficulty is None
            &&& difficulty != i32::MIN ==> snapshot.difficulty == Some(difficulty)
        }),
        SONG_ID_UNSET == i32::MIN,
        DIFFICULTY_UNSET == i32::MIN,
        PLAY_STATE_UNSET == i32::MIN,
{
}

/// The start of a song shows that song in that difficulty, by name if the dataset has it, and both are
/// held from then on.
pub proof fn law_the_start_of_a_song_shows_it(
    songs_by_id: Map<i32, Song>,
    song_id: i32,
    difficulty: i32,
    memory: PlayMemory,
)
    requires
        song_id != -1,
    ensures
        ({
            let snapshot = MemorySnapshot {
                is_playing: Some(true),
                song_id: Some(song_id),
                difficulty: Some(difficulty),
            };
            let after = remembered(snapshot, false, memory);
            &&& reading(songs_by_id, snapshot, false, memory) matches Some((is_playing, state))
            &&& is_playing
            &&& songs_by_id.contains_key(song_id) ==> state == (PresenceState::Song {
                id: song_id,
                difficulty,
                player_rating: None,
            })
            &&& !songs_by_id.contains_key(song_id) ==> state == (PresenceState::UnknownSong {
                difficulty,
                player_rating: None,
            })
            &&& after.latched_song_id == Some(song_id)
            &&& after.latched_difficulty == Some(difficulty)
            &&& after.last_song_id == song_id
        }),
{
}

/// While a song is being played, the song that is held is shown, in the difficulty that is held, else
/// in the one that is read, else in an unknown one; what is held stays.
pub proof fn law_what_is_held_is_shown(
    songs_by_id: Map<i32, Song>,
    snapshot: MemorySnapshot,
    memory: PlayMemory,
)
    requires
        snapshot.is_playing == Some(true),
    ensures
        ({
            let after = remembered(snapshot, true, memory);
            let difficulty = if memory.latched_difficulty is Some {
                memory.latched_difficulty->0
            } else if snapshot.difficulty is Some {
                snapshot.difficulty->0
            } else {
                (-1) as i32
            };
            &&& reading(songs_by_id, snapshot, true, memory) matches Some((is_playing, state))
            &&& is_playing
            &&& match state {
                PresenceState::Song { id, difficulty: shown, player_rating } => {
                    &&& memory.latched_song_id == Some(id)
                    &&& shown == difficulty
                    &&& player_rating is None
                },
                PresenceState::UnknownSong { difficulty: shown, player_rating } => shown
                    == difficulty && player_rating is None,
                PresenceState::Default { .. } => false,
            }
            &&& after.latched_song_id == memory.latched_song_id
            &&& after.latched_difficulty == memory.latched_difficulty
            &&& memory.latched_song_id is Some ==> after.last_song_id == memory.latched_song_id->0
            &&& memory.latched_song_id is None ==> after.last_song_id == memory.last_song_id
        }),
{
}

/// A reading that does not tell whether a song is being played shows nothing, changes nothing and puts
/// nothing in the log.
pub proof fn law_an_unknown_play_state_changes_nothing(
    songs_by_id: Map<i32, Song>,
    snapshot: MemorySnapshot,
    was_playing: bool,
    memory: PlayMemory,
)
    requires
        snapshot.is_playing is None,
    ensures
        reading(songs_by_id, snapshot, was_playing, memory) is None,
        remembered(snapshot, was_playing, memory) == memory,
        reading_lines(songs_by_id, snapshot, was_playing, memory).len() == 0,
        nothing_remembered().last_song_id == -1,
        nothing_remembered().latched_song_id is None,
        nothing_remembered().latched_difficulty is None,
{
}

/// The end of a song is put in the log, and so is a song when it starts or when it is not the one that
/// was put in the log last; nothing else is.
pub proof fn law_readings_log_the_start_and_the_end(
    songs_by_id: Map<i32, Song>,
    snapshot: MemorySnapshot,
    was_playing: bool,
    memory: PlayMemory,
    song_id: i32,
    difficulty: i32,
)
    requires
        song_id != -1,
    ensures
        snapshot.is_playing == Some(false) && was_playing ==> reading_lines(
            songs_by_id,
            snapshot,
            was_playing,
            memory,
        ) == seq!["Stopped playing, back to song select"@],
        snapshot.is_playing == Some(false) && !was_playing ==> reading_lines(
            songs_by_id,
            snapshot,
            was_playing,
            memory,
        ).len() == 0,
        snapshot.is_playing == Some(true) && was_playing ==> reading_lines(
            songs_by_id,
            snapshot,
            was_playing,
            memory,
        ) == presence::song_change_lines(
            songs_by_id,
            memory.latched_song_id,
            memory.last_song_id,
        ),
        reading_lines(
            songs_by_id,
            MemorySnapshot {
                is_playing: Some(true),
                song_id: Some(song_id),
                difficulty: Some(difficulty),
            },
            false,
            memory,
        ) == presence::song_change_lines(songs_by_id, Some(song_id), memory.last_song_id),
        snapshot.is_playing == Some(true) && !was_playing && (snapshot.song_id is None
            || snapshot.song_id == Some((-1) as i32) || snapshot.difficulty is None)
            ==> reading_lines(songs_by_id, snapshot, was_playing, memory).len() == 0,
{
}

/// The report on the game gives the module and each hook with what it captured.
pub proof fn law_the_game_is_reported(
    label: Seq<char>,
    hook: IntegerHookProbeStatus,
    status: MemoryProbeStatus,
    snapshot: MemorySnapshot,
    addr: usize,
)
    ensures
        target_text(None) == "none"@,
        addr != 0 ==> target_text(Some(addr)) == hooks::addr_text(addr),
        integer_hook_line(label, hook) == label + " hook installed="@ + text::bool_text(
            hook.installed,
        ) + " target="@ + target_text(hook.target_addr) + " cached="@ + text::optional_int_text(
            hook.cached_value,
        ),
        play_state_hook_line(status.play_state)
            == "Memory probe: play-state hooks enter_installed="@ + text::bool_text(
            status.play_state.enter_installed,
        ) + " enter_target="@ + target_text(status.play_state.enter_target_addr)
            + " exit_installed="@ + text::bool_text(status.play_state.exit_installed)
            + " exit_target="@ + target_text(status.play_state.exit_target_addr) + " cached="@
            + text::optional_bool_text(status.play_state.cached_value),
        snapshot_line(snapshot) == "Memory snapshot: is_playing="@ + text::optional_bool_text(
            snapshot.is_playing,
        ) + ", song_id="@ + text::optional_int_text(snapshot.song_id) + ", difficulty="@
            + text::optional_int_text(snapshot.difficulty),
        status.module is None ==> {
            &&& probe_lines(status) == seq!["Memory probe: failed to resolve game module handle"@]
            &&& resolved_module_lines(status.module) == seq![
                "Failed to resolve game module handle"@,
            ]
        },
        status.module matches Some(module) ==> {
            let hook_lines = seq![
                integer_hook_line("Memory probe: song-id"@, status.song_id),
                integer_hook_line("Memory probe: difficulty"@, status.difficulty),
                play_state_hook_line(status.play_state),
            ];
            let base = hooks::addr_text(module.base_addr);
            match module.path {
                Some(path) => {
                    &&& probe_lines(status) == seq![
                        "Memory probe: game module path "@ + path@,
                        "Memory probe: game module base "@ + base,
                    ] + hook_lines
                    &&& resolved_module_lines(status.module) == seq![
                        "Resolved game module: "@ + path@,
                        "Resolved game module base: "@ + base,
                    ]
                },
                None => {
                    &&& probe_lines(status) == seq!["Memory probe: game module base "@ + base]
                        + hook_lines
                    &&& resolved_module_lines(status.module) == seq![
                        "Resolved game module base: "@ + base,
                    ]
                },
            }
        },
{
}

} // verus!
