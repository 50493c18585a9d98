//! The main loop, one outside operation at a time.

use crate::journal::Journal;
use crate::memory;
use crate::memory::MemorySnapshot;
use crate::presence;
use crate::presence::PresenceActivity;
use crate::songs::SongsById;
use crate::text;
use crate::types;
use crate::types::{PresenceState, RichPresenceConfig, Song};
use vstd::prelude::*;
use vstd::string::*;

verus! {

/// The least time between two attempts to connect to Discord, in nanoseconds.
pub const DISCORD_RECONNECT_INTERVAL: u64 = 10_000_000_000;

/// The time after which a presence is sent again, in nanoseconds.
pub const PRESENCE_REFRESH_INTERVAL: u64 = 10_000_000_000;

/// The pause between two rounds of the loop, in nanoseconds.
pub const ROUND_INTERVAL: u64 = 1_000_000_000;

/// The application identifier that stands for none.
pub const APP_ID_PLACEHOLDER: &'static str = "YOUR_DISCORD_APP_ID";

/// What the loop waits for.
enum RuntimePhase {
    /// A connection to Discord for the application `app_id`, the first one or a later one.
    Connecting { initial: bool, app_id: String },
    /// The default presence to be sent over a new connection.
    Greeting { initial: bool, activity: PresenceActivity },
    /// A snapshot of the game.
    Reading,
    /// A presence to be sent.
    Sending { desired: PresenceState, description: String, activity: PresenceActivity },
    /// The end of the pause.
    Sleeping,
}

/// A phase as mathematical values.
#[verifier::ext_equal]
pub enum PhaseView {
    Connecting { initial: bool, app_id: Seq<char> },
    Greeting { initial: bool, activity: presence::ActivityView },
    Reading,
    Sending { desired: PresenceState, description: Seq<char>, activity: presence::ActivityView },
    Sleeping,
}

impl View for RuntimePhase {
    type V = PhaseView;

    closed spec fn view(&self) -> PhaseView {
        match *self {
            RuntimePhase::Connecting { initial, app_id } => PhaseView::Connecting {
                initial,
                app_id: app_id@,
            },
            RuntimePhase::Greeting { initial, activity } => PhaseView::Greeting {
                initial,
                activity: activity@,
            },
            RuntimePhase::Reading => PhaseView::Reading,
            RuntimePhase::Sending { desired, description, activity } => PhaseView::Sending {
                desired,
                description: description@,
                activity: activity@,
            },
            RuntimePhase::Sleeping => PhaseView::Sleeping,
        }
    }
}

/// The state of the program between two outside operations. Times are in nanoseconds from a fixed
/// start.
pub struct RuntimeState {
    current_presence_state: Option<PresenceState>,
    last_presence_update: u64,
    connected: bool,
    last_discord_connect_attempt: u64,
    last_song_id: i32,
    latched_song_id: Option<i32>,
    latched_difficulty: Option<i32>,
    was_playing: bool,
    memory_read_available: bool,
    phase: RuntimePhase,
}

/// The state of the program as mathematical values.
#[verifier::ext_equal]
pub struct RuntimeView {
    pub current_presence_state: Option<PresenceState>,
    pub last_presence_update: u64,
    pub connected: bool,
    pub last_discord_connect_attempt: u64,
    pub memory: memory::PlayMemory,
    pub was_playing: bool,
    pub memory_read_available: bool,
    pub phase: PhaseView,
}

impl View for RuntimeState {
    type V = RuntimeView;

    closed spec fn view(&self) -> RuntimeView {
        RuntimeView {
            current_presence_state: self.current_presence_state,
            last_presence_update: self.last_presence_update,
            connected: self.connected,
            last_discord_connect_attempt: self.last_discord_connect_attempt,
            memory: memory::PlayMemory {
                last_song_id: self.last_song_id,
                latched_song_id: self.latched_song_id,
                latched_difficulty: self.latched_difficulty,
            },
            was_playing: self.was_playing,
            memory_read_available: self.memory_read_available,
            phase: self.phase@,
        }
    }
}

/// What an outside operation came to, and when. An error is given in words.
pub enum RuntimeEvent {
    Connected { now: u64 },
    ConnectFailed { error: String, now: u64 },
    Sent { now: u64 },
    SendFailed { error: String, now: u64 },
    Snapshot { snapshot: MemorySnapshot, now: u64 },
    Woke { now: u64 },
}

/// The outside operation that is wanted next.
pub enum RuntimeRequest<'a> {
    /// A connection to Discord for this application.
    Connect(&'a str),
    Send(&'a PresenceActivity),
    ReadMemory,
    Sleep,
}

/// The time from `since` to `now`.
pub open spec fn elapsed(now: u64, since: u64) -> int {
    if now >= since {
        now - since
    } else {
        0
    }
}

/// Whether an application identifier is one.
pub open spec fn app_id_configured(app_id: Seq<char>) -> bool {
    text::trimmed(app_id).len() > 0 && app_id != APP_ID_PLACEHOLDER@
}

/// Whether an application identifier is one.
pub fn discord_app_id_configured(app_id: &str) -> (r: bool)
    ensures
        r == app_id_configured(app_id@),
{
    !text::trim(app_id).is_empty() && !text::same_text(app_id, APP_ID_PLACEHOLDER)
}

/// The presence while a song is being chosen, without a rating.
pub open spec fn default_state() -> PresenceState {
    PresenceState::Default { player_rating: None }
}

impl RuntimeView {
    /// What holds between two operations: without a connection Discord shows nothing of ours, and what
    /// is remembered of the game fits.
    pub open spec fn wf(self) -> bool {
        &&& !self.connected ==> self.current_presence_state is None
        &&& memory::memory_fits(self.was_playing, self.memory)
        &&& match self.phase {
            PhaseView::Connecting { .. } => !self.connected,
            PhaseView::Greeting { .. } => self.connected,
            PhaseView::Sending { .. } => self.connected,
            _ => true,
        }
    }

    /// Whether it is time to connect to Discord again.
    pub open spec fn reconnect_due(self, now: u64) -> bool {
        !self.connected && elapsed(now, self.last_discord_connect_attempt)
            >= DISCORD_RECONNECT_INTERVAL
    }

    /// Whether `desired` is to be sent: it is not what Discord shows, or it was sent long ago.
    pub open spec fn update_due(self, desired: PresenceState, now: u64) -> bool {
        self.connected && (self.current_presence_state != Some(desired) || elapsed(
            now,
            self.last_presence_update,
        ) >= PRESENCE_REFRESH_INTERVAL)
    }

    /// The start of a round: a connection to Discord if it is time for one, then a snapshot.
    pub open spec fn woken(self, now: u64, config: types::ConfigView) -> RuntimeView {
        if self.reconnect_due(now) {
            RuntimeView {
                last_discord_connect_attempt: now,
                phase: if app_id_configured(config.discord_app_id) {
                    PhaseView::Connecting { initial: false, app_id: config.discord_app_id }
                } else {
                    PhaseView::Reading
                },
                ..self
            }
        } else {
            RuntimeView { phase: PhaseView::Reading, ..self }
        }
    }

    /// The lines that the start of a round adds to the log.
    pub open spec fn woken_lines(self, now: u64, config: types::ConfigView) -> Seq<Seq<char>> {
        if self.reconnect_due(now) && !app_id_configured(config.discord_app_id) {
            seq!["Discord app ID is not configured"@]
        } else {
            Seq::empty()
        }
    }

    /// The attempt to connect over, for the first connection at `now`.
    pub open spec fn connect_over(self, initial: bool, now: u64) -> RuntimeView {
        RuntimeView {
            last_discord_connect_attempt: if initial {
                now
            } else {
                self.last_discord_connect_attempt
            },
            phase: PhaseView::Reading,
            ..self
        }
    }

    /// `desired` on its way to Discord, if it is to be sent.
    pub open spec fn applying(
        self,
        desired: PresenceState,
        now: u64,
        songs_by_id: Map<i32, Song>,
        config: types::ConfigView,
    ) -> RuntimeView {
        RuntimeView {
            phase: if self.update_due(desired, now) {
                PhaseView::Sending {
                    desired,
                    description: presence::state_description(desired, songs_by_id),
                    activity: presence::state_activity(desired, songs_by_id, config),
                }
            } else {
                PhaseView::Sleeping
            },
            ..self
        }
    }

    /// The state after a snapshot of the game.
    pub open spec fn after_snapshot(
        self,
        snapshot: MemorySnapshot,
        now: u64,
        songs_by_id: Map<i32, Song>,
        config: types::ConfigView,
    ) -> RuntimeView {
        match memory::reading(songs_by_id, snapshot, self.was_playing, self.memory) {
            None => {
                let missing = RuntimeView { memory_read_available: false, ..self };
                if self.connected && self.current_presence_state is None {
                    missing.applying(default_state(), now, songs_by_id, config)
                } else {
                    RuntimeView { phase: PhaseView::Sleeping, ..missing }
                }
            },
            Some((is_playing, desired)) => RuntimeView {
                memory_read_available: true,
                was_playing: is_playing,
                memory: memory::remembered(snapshot, self.was_playing, self.memory),
                ..self
            }.applying(desired, now, songs_by_id, config),
        }
    }

    /// The state after `event`. An event that is not waited for changes nothing.
    pub open spec fn after(
        self,
        event: RuntimeEvent,
        songs_by_id: Map<i32, Song>,
        config: types::ConfigView,
    ) -> RuntimeView {
        match (self.phase, event) {
            (PhaseView::Connecting { initial, .. }, RuntimeEvent::Connected { now }) => RuntimeView {
                connected: true,
                phase: PhaseView::Greeting {
                    initial,
                    activity: presence::song_select_activity(config, None),
                },
                ..self
            },
            (
                PhaseView::Connecting { initial, .. },
                RuntimeEvent::ConnectFailed { error, now },
            ) => self.connect_over(initial, now),
            (PhaseView::Greeting { initial, .. }, RuntimeEvent::Sent { now }) => RuntimeView {
                current_presence_state: Some(default_state()),
                last_presence_update: now,
                ..self
            }.connect_over(initial, now),
            (
                PhaseView::Greeting { initial, .. },
                RuntimeEvent::SendFailed { error, now },
            ) => RuntimeView { current_presence_state: None, ..self }.connect_over(initial, now),
            (PhaseView::Reading, RuntimeEvent::Snapshot { snapshot, now }) => self.after_snapshot(
                snapshot,
                now,
                songs_by_id,
                config,
            ),
            (PhaseView::Sending { desired, .. }, RuntimeEvent::Sent { now }) => RuntimeView {
                current_presence_state: Some(desired),
                last_presence_update: now,
                phase: PhaseView::Sleeping,
                ..self
            },
            (PhaseView::Sending { .. }, RuntimeEvent::SendFailed { error, now }) => RuntimeView {
                connected: false,
                current_presence_state: None,
                last_discord_connect_attempt: now,
                phase: PhaseView::Sleeping,
                ..self
            },
            (PhaseView::Sleeping, RuntimeEvent::Woke { now }) => self.woken(now, config),
            _ => self,
        }
    }

    /// The lines that a snapshot of the game adds to the log.
    pub open spec fn snapshot_lines(
        self,
        snapshot: MemorySnapshot,
        songs_by_id: Map<i32, Song>,
    ) -> Seq<Seq<char>> {
        let lines = memory::reading_lines(songs_by_id, snapshot, self.was_playing, self.memory);
        match memory::reading(songs_by_id, snapshot, self.was_playing, self.memory) {
            None => if self.memory_read_available {
                lines.push(
                    "Memory read unavailable, keeping default presence until pointers recover"@,
                )
            } else {
                lines
            },
            Some(_) => if self.memory_read_available {
                lines
            } else {
                lines.push("Memory read recovered"@)
            },
        }
    }

    /// The lines that `event` adds to the log.
    pub open spec fn lines(
        self,
        event: RuntimeEvent,
        songs_by_id: Map<i32, Song>,
        config: types::ConfigView,
    ) -> Seq<Seq<char>> {
        match (self.phase, event) {
            (PhaseView::Connecting { .. }, RuntimeEvent::Connected { .. }) => seq![
                "Connected to Discord RPC"@,
            ],
            (PhaseView::Connecting { .. }, RuntimeEvent::ConnectFailed { error, .. }) => seq![
                "Failed to connect Discord RPC: "@ + error@,
            ],
            (PhaseView::Greeting { .. }, RuntimeEvent::Sent { .. }) => seq![
                "Discord presence updated: default presence (song select)"@,
            ],
            (PhaseView::Greeting { .. }, RuntimeEvent::SendFailed { .. }) => seq![
                "Failed to update Discord RPC for default presence (song select)"@,
            ],
            (PhaseView::Reading, RuntimeEvent::Snapshot { snapshot, .. }) => self.snapshot_lines(
                snapshot,
                songs_by_id,
            ),
            (PhaseView::Sending { description, .. }, RuntimeEvent::Sent { .. }) => seq![
                presence::update_line(description, None),
            ],
            (PhaseView::Sending { description, .. }, RuntimeEvent::SendFailed { error, .. }) => seq![
                presence::update_line(description, Some(error@)),
            ],
            (PhaseView::Sleeping, RuntimeEvent::Woke { now }) => self.woken_lines(now, config),
            _ => Seq::empty(),
        }
    }
}

/// The state of the program at its start.
pub open spec fn initial_state(config: types::ConfigView, now: u64) -> RuntimeView {
    RuntimeView {
        current_presence_state: None,
        last_presence_update: now,
        connected: false,
        last_discord_connect_attempt: now,
        memory: memory::nothing_remembered(),
        was_playing: false,
        memory_read_available: true,
        phase: if app_id_configured(config.discord_app_id) {
            PhaseView::Connecting { initial: true, app_id: config.discord_app_id }
        } else {
            PhaseView::Reading
        },
    }
}

/// The lines at the start of the program.
pub open spec fn startup_lines(base_dir: Seq<char>, log_file: Seq<char>) -> Seq<Seq<char>> {
    seq![
        "Injected successfully into Chunithm!"@,
        "Runtime base directory: "@ + base_dir,
        "General log file: "@ + log_file,
    ]
}

/// Puts in the log where the program's files are. The paths are given as they are to be displayed.
pub fn log_startup(base_dir: &str, log_file: &str, log: &mut Journal)
    ensures
        final(log)@ == old(log)@ + startup_lines(base_dir@, log_file@),
{
    log.record("Injected successfully into Chunithm!".to_owned());
    log.record("Runtime base directory: ".to_owned().concat(base_dir));
    log.record("General log file: ".to_owned().concat(log_file));
    assert(log@ =~= old(log)@ + startup_lines(base_dir@, log_file@));
}

fn elapsed_time(now: u64, since: u64) -> (r: u64)
    ensures
        r == elapsed(now, since),
{
    if now >= since {
        now - since
    } else {
        0
    }
}

impl RuntimeState {
    /// The state of the program at its start, before the first connection to Discord.
    pub fn start(config: &RichPresenceConfig, now: u64, log: &mut Journal) -> (r: Self)
        ensures
            r@ == initial_state(config@, now),
            r@.wf(),
            final(log)@ == old(log)@ + if app_id_configured(config.discord_app_id@) {
                Seq::<Seq<char>>::empty()
            } else {
                seq!["Discord app ID is not configured"@]
            },
    {
        let configured = discord_app_id_configured(config.discord_app_id.as_str());
        if !configured {
            log.record("Discord app ID is not configured".to_owned());
        }
        assert(log@ =~= old(log)@ + if configured {
            Seq::<Seq<char>>::empty()
        } else {
            seq!["Discord app ID is not configured"@]
        });
        RuntimeState {
            current_presence_state: None,
            last_presence_update: now,
            connected: false,
            last_discord_connect_attempt: now,
            last_song_id: -1,
            latched_song_id: None,
            latched_difficulty: None,
            was_playing: false,
            memory_read_available: true,
            phase: if configured {
                RuntimePhase::Connecting {
                    initial: true,
                    app_id: config.discord_app_id.clone(),
                }
            } else {
                RuntimePhase::Reading
            },
        }
    }

    /// The outside operation that is wanted next.
    pub fn request(&self) -> (r: RuntimeRequest<'_>)
        ensures
            match self@.phase {
                PhaseView::Connecting { app_id, .. } => r matches RuntimeRequest::Connect(wanted)
                    && wanted@ == app_id,
                PhaseView::Greeting { activity, .. } => r matches RuntimeRequest::Send(sent)
                    && sent@ == activity,
                PhaseView::Reading => r is ReadMemory,
                PhaseView::Sending { activity, .. } => r matches RuntimeRequest::Send(sent)
                    && sent@ == activity,
                PhaseView::Sleeping => r is Sleep,
            },
    {
        match &self.phase {
            RuntimePhase::Connecting { app_id, .. } => RuntimeRequest::Connect(app_id.as_str()),
            RuntimePhase::Greeting { activity, .. } => RuntimeRequest::Send(activity),
            RuntimePhase::Reading => RuntimeRequest::ReadMemory,
            RuntimePhase::Sending { activity, .. } => RuntimeRequest::Send(activity),
            RuntimePhase::Sleeping => RuntimeRequest::Sleep,
        }
    }

    /// Whether there is a connection to Discord.
    pub fn connected(&self) -> (r: bool)
        ensures
            r == self@.connected,
    {
        self.connected
    }

    /// What Discord shows, as far as it was sent.
    pub fn current_presence_state(&self) -> (r: Option<PresenceState>)
        ensures
            r == self@.current_presence_state,
    {
        self.current_presence_state
    }

    /// The start of a round: a connection to Discord if it is time for one, then a snapshot.
    pub fn reconnect_discord_if_needed(
        &mut self,
        config: &RichPresenceConfig,
        now: u64,
        log: &mut Journal,
    )
        ensures
            final(self)@ == old(self)@.woken(now, config@),
            final(log)@ == old(log)@ + old(self)@.woken_lines(now, config@),
    {
        let ghost added = self@.woken_lines(now, config@);
        self.phase = RuntimePhase::Reading;
        if !self.connected && elapsed_time(now, self.last_discord_connect_attempt)
            >= DISCORD_RECONNECT_INTERVAL {
            self.last_discord_connect_attempt = now;
            if discord_app_id_configured(config.discord_app_id.as_str()) {
                self.phase = RuntimePhase::Connecting {
                    initial: false,
                    app_id: config.discord_app_id.clone(),
                };
            } else {
                log.record("Discord app ID is not configured".to_owned());
            }
        }
        assert(log@ =~= old(log)@ + added);
    }

    /// What follows from the outcome of a connection and of the default presence that goes with it.
    fn connect_discord_and_set_default(
        &mut self,
        event: RuntimeEvent,
        config: &RichPresenceConfig,
        log: &mut Journal,
    )
        requires
            old(self)@.phase is Connecting || old(self)@.phase is Greeting,
        ensures
            forall|songs_by_id: Map<i32, Song>|
                final(self)@ == #[trigger] old(self)@.after(event, songs_by_id, config@),
            forall|songs_by_id: Map<i32, Song>|
                final(log)@ == old(log)@ + #[trigger] old(self)@.lines(
                    event,
                    songs_by_id,
                    config@,
                ),
    {
        let ghost empty = Map::<i32, Song>::empty();
        let ghost added = self@.lines(event, empty, config@);
        let (initial, greeting) = match &self.phase {
            RuntimePhase::Connecting { initial, .. } => (*initial, false),
            RuntimePhase::Greeting { initial, .. } => (*initial, true),
            _ => (false, false),
        };
        let over = match event {
            RuntimeEvent::Connected { .. } => {
                if !greeting {
                    log.record("Connected to Discord RPC".to_owned());
                    self.connected = true;
                    self.phase = RuntimePhase::Greeting {
                        initial,
                        activity: presence::default_activity(config, None),
                    };
                }
                None
            },
            RuntimeEvent::ConnectFailed { error, now } => if !greeting {
                log.record("Failed to connect Discord RPC: ".to_owned().concat(error.as_str()));
                Some(now)
            } else {
                None
            },
            RuntimeEvent::Sent { now } => if greeting {
                log.record("Discord presence updated: default presence (song select)".to_owned());
                self.current_presence_state = Some(PresenceState::Default { player_rating: None });
                self.last_presence_update = now;
                Some(now)
            } else {
                None
            },
            RuntimeEvent::SendFailed { now, .. } => if greeting {
                log.record(
                    "Failed to update Discord RPC for default presence (song select)".to_owned(),
                );
                self.current_presence_state = None;
                Some(now)
            } else {
                None
            },
            _ => None,
        };
        if let Some(now) = over {
            if initial {
                self.last_discord_connect_attempt = now;
            }
            self.phase = RuntimePhase::Reading;
        }
        assert(log@ =~= old(log)@ + added);
    }

    /// Sends `desired` on its way to Discord, if it is to be sent; else ends the round.
    pub fn apply_presence_state_if_needed(
        &mut self,
        desired: PresenceState,
        now: u64,
        songs_by_id: &SongsById,
        config: &RichPresenceConfig,
    )
        ensures
            final(self)@ == old(self)@.applying(desired, now, songs_by_id@, config@),
    {
        self.phase = RuntimePhase::Sleeping;
        if !self.connected {
            return;
        }
        let state_changed = match self.current_presence_state {
            Some(current) => current != desired,
            None => true,
        };
        let refresh_due = elapsed_time(now, self.last_presence_update)
            >= PRESENCE_REFRESH_INTERVAL;
        if !state_changed && !refresh_due {
            return;
        }
        let update = presence::update_presence(&desired, songs_by_id, config);
        self.phase = RuntimePhase::Sending {
            desired,
            description: update.description,
            activity: update.activity,
        };
    }

    /// What follows from a snapshot of the game.
    fn observe(
        &mut self,
        snapshot: MemorySnapshot,
        now: u64,
        songs_by_id: &SongsById,
        config: &RichPresenceConfig,
        log: &mut Journal,
    )
        ensures
            final(self)@ == old(self)@.after_snapshot(snapshot, now, songs_by_id@, config@),
            final(log)@ == old(log)@ + old(self)@.snapshot_lines(snapshot, songs_by_id@),
    {
        let ghost added = self@.snapshot_lines(snapshot, songs_by_id@);
        let read = memory::read_presence_state_from_memory(
            songs_by_id,
            &snapshot,
            self.was_playing,
            &mut self.last_song_id,
            &mut self.latched_song_id,
            &mut self.latched_difficulty,
            log,
        );
        match read {
            None => {
                if self.memory_read_available {
                    log.record(
                        "Memory read unavailable, keeping default presence until pointers recover".to_owned(),
                    );
                    self.memory_read_available = false;
                }
                if self.connected && self.current_presence_state.is_none() {
                    self.apply_presence_state_if_needed(
                        PresenceState::Default { player_rating: None },
                        now,
                        songs_by_id,
                        config,
                    );
                } else {
                    self.phase = RuntimePhase::Sleeping;
                }
            },
            Some((is_playing, desired)) => {
                if !self.memory_read_available {
                    log.record("Memory read recovered".to_owned());
                    self.memory_read_available = true;
                }
                self.was_playing = is_playing;
                self.apply_presence_state_if_needed(desired, now, songs_by_id, config);
            },
        }
        assert(log@ =~= old(log)@ + added);
    }

    /// Takes in the outcome of the operation that the loop waits for.
    pub fn advance(
        &mut self,
        event: RuntimeEvent,
        songs_by_id: &SongsById,
        config: &RichPresenceConfig,
        log: &mut Journal,
    )
        requires
            old(self)@.wf(),
        ensures
            final(self)@ == old(self)@.after(event, songs_by_id@, config@),
            final(self)@.wf(),
            final(log)@ == old(log)@ + old(self)@.lines(event, songs_by_id@, config@),
    {
        let ghost added = self@.lines(event, songs_by_id@, config@);
        proof {
            law_every_round_keeps_the_state_sound(self@, event, songs_by_id@, config@);
        }
        let waiting_for_discord = match &self.phase {
            RuntimePhase::Connecting { .. } => true,
            RuntimePhase::Greeting { .. } => true,
            _ => false,
        };
        if waiting_for_discord {
            self.connect_discord_and_set_default(event, config, log);
            return;
        }
        let mut phase = RuntimePhase::Sleeping;
        std::mem::swap(&mut phase, &mut self.phase);
        match (phase, event) {
            (RuntimePhase::Reading, RuntimeEvent::Snapshot { snapshot, now }) => {
                self.observe(snapshot, now, songs_by_id, config, log);
            },
            (
                RuntimePhase::Sending { desired, description, .. },
                RuntimeEvent::Sent { now },
            ) => {
                presence::log_update(description.as_str(), None, log);
                self.current_presence_state = Some(desired);
                self.last_presence_update = now;
            },
            (
                RuntimePhase::Sending { description, .. },
                RuntimeEvent::SendFailed { error, now },
            ) => {
                presence::log_update(description.as_str(), Some(error.as_str()), log);
                self.connected = false;
                self.current_presence_state = None;
                self.last_discord_connect_attempt = now;
            },
            (RuntimePhase::Sleeping, RuntimeEvent::Woke { now }) => {
                self.reconnect_discord_if_needed(config, now, log);
            },
            (unchanged, _) => {
                self.phase = unchanged;
            },
        }
        assert(log@ =~= old(log)@ + added);
    }
}

/// Whatever comes back from outside, the state of the program stays sound.
pub proof fn law_every_round_keeps_the_state_sound(
    state: RuntimeView,
    event: RuntimeEvent,
    songs_by_id: Map<i32, Song>,
    config: types::ConfigView,
)
    requires
        state.wf(),
    ensures
        state.after(event, songs_by_id, config).wf(),
{
    if let RuntimeEvent::Snapshot { snapshot, now } = event {
        memory::law_readings_keep_the_memory_fitting(
            songs_by_id,
            snapshot,
            state.was_playing,
            state.memory,
        );
    }
}

/// How far a round has come.
pub open spec fn round_progress(phase: PhaseView) -> int {
    match phase {
        PhaseView::Connecting { .. } => 1,
        PhaseView::Greeting { .. } => 2,
        PhaseView::Reading => 3,
        PhaseView::Sending { .. } => 4,
        PhaseView::Sleeping => 5,
    }
}

/// Whether `event` is an outcome of the operation that the phase waits for.
pub open spec fn answers(event: RuntimeEvent, phase: PhaseView) -> bool {
    match phase {
        PhaseView::Connecting { .. } => event is Connected || event is ConnectFailed,
        PhaseView::Greeting { .. } => event is Sent || event is SendFailed,
        PhaseView::Reading => event is Snapshot,
        PhaseView::Sending { .. } => event is Sent || event is SendFailed,
        PhaseView::Sleeping => event is Woke,
    }
}

/// Every outcome of the operation that is waited for brings the round forward, so that it comes to
/// its pause; after the pause a new round begins.
pub proof fn law_every_round_comes_to_its_pause(
    state: RuntimeView,
    event: RuntimeEvent,
    songs_by_id: Map<i32, Song>,
    config: types::ConfigView,
)
    requires
        answers(event, state.phase),
    ensures
        ({
            let after = state.after(event, songs_by_id, config);
            if state.phase is Sleeping {
                round_progress(after.phase) < 5
            } else {
                round_progress(state.phase) < round_progress(after.phase)
            }
        }),
{
}

/// A connection is attempted again only without one, only after the interval since the last attempt,
/// and the attempt counts from then on.
pub proof fn law_reconnects_keep_their_distance(
    state: RuntimeView,
    event: RuntimeEvent,
    songs_by_id: Map<i32, Song>,
    config: types::ConfigView,
)
    requires
        !(state.phase is Connecting),
        state.after(event, songs_by_id, config).phase is Connecting,
    ensures
        !state.connected,
        event matches RuntimeEvent::Woke { now } && elapsed(now, state.last_discord_connect_attempt)
            >= DISCORD_RECONNECT_INTERVAL && state.after(
            event,
            songs_by_id,
            config,
        ).last_discord_connect_attempt == now,
        app_id_configured(config.discord_app_id),
        state.after(event, songs_by_id, config).phase->Connecting_app_id == config.discord_app_id,
{
}

/// An attempt to connect has one outcome: there is a connection exactly if the attempt succeeded, and
/// only then is the default presence sent.
pub proof fn law_a_connection_is_what_the_attempt_gave(
    state: RuntimeView,
    error: String,
    now: u64,
    songs_by_id: Map<i32, Song>,
    config: types::ConfigView,
)
    requires
        state.wf(),
        state.phase is Connecting,
    ensures
        ({
            let connected = state.after(RuntimeEvent::Connected { now }, songs_by_id, config);
            let failed = state.after(
                RuntimeEvent::ConnectFailed { error, now },
                songs_by_id,
                config,
            );
            &&& connected.connected
            &&& connected.phase matches PhaseView::Greeting { activity, .. }
            &&& activity == presence::song_select_activity(config, None)
            &&& !failed.connected
            &&& failed.phase is Reading
        }),
{
}

/// A presence that Discord shows is not sent again before the refresh interval has passed; one that
/// it does not show is sent at once.
pub proof fn law_a_presence_is_sent_when_it_changes_or_grows_old(
    state: RuntimeView,
    snapshot: MemorySnapshot,
    now: u64,
    songs_by_id: Map<i32, Song>,
    config: types::ConfigView,
)
    requires
        state.phase is Reading,
        snapshot.is_playing is Some,
    ensures
        ({
            let (_, desired) = memory::reading(
                songs_by_id,
                snapshot,
                state.was_playing,
                state.memory,
            )->0;
            let after = state.after(
                RuntimeEvent::Snapshot { snapshot, now },
                songs_by_id,
                config,
            );
            if !state.connected {
                after.phase is Sleeping
            } else if state.current_presence_state == Some(desired) {
                after.phase is Sending <==> elapsed(now, state.last_presence_update)
                    >= PRESENCE_REFRESH_INTERVAL
            } else {
                after.phase is Sending
            }
        }),
{
}

/// A presence that was sent is the one that Discord shows from then on; after a failure there is no
/// connection and Discord shows nothing of ours.
pub proof fn law_discord_shows_what_was_sent(
    state: RuntimeView,
    error: String,
    now: u64,
    songs_by_id: Map<i32, Song>,
    config: types::ConfigView,
)
    requires
        state.phase is Sending,
    ensures
        ({
            let sent = state.after(RuntimeEvent::Sent { now }, songs_by_id, config);
            let failed = state.after(
                RuntimeEvent::SendFailed { error, now },
                songs_by_id,
                config,
            );
            &&& sent.current_presence_state == Some(state.phase->desired)
            &&& sent.last_presence_update == now
            &&& sent.connected == state.connected
            &&& !failed.connected
            &&& failed.current_presence_state is None
            &&& !failed.reconnect_due(now)
        }),
{
}

/// What is sent for a snapshot is the presence that the reading calls for; a song is named only if
/// the dataset has it.
pub proof fn law_what_is_sent_is_what_was_read(
    state: RuntimeView,
    snapshot: MemorySnapshot,
    now: u64,
    songs_by_id: Map<i32, Song>,
    config: types::ConfigView,
)
    requires
        state.phase is Reading,
        state.after(RuntimeEvent::Snapshot { snapshot, now }, songs_by_id, config).phase is Sending,
    ensures
        ({
            let phase = state.after(
                RuntimeEvent::Snapshot { snapshot, now },
                songs_by_id,
                config,
            ).phase;
            &&& phase->Sending_activity == presence::state_activity(
                phase->desired,
                songs_by_id,
                config,
            )
            &&& phase->Sending_description == presence::state_description(
                phase->desired,
                songs_by_id,
            )
            &&& match memory::reading(songs_by_id, snapshot, state.was_playing, state.memory) {
                Some((_, desired)) => phase->desired == desired,
                None => phase->desired == default_state(),
            }
            &&& phase->desired matches PresenceState::Song { id, .. } ==> songs_by_id.contains_key(
                id,
            ) && id != -1
        }),
{
}

/// While the play state cannot be read, what Discord shows stays as it is, and so does what is
/// remembered of the game.
pub proof fn law_an_unreadable_game_changes_no_presence(
    state: RuntimeView,
    snapshot: MemorySnapshot,
    now: u64,
    songs_by_id: Map<i32, Song>,
    config: types::ConfigView,
)
    requires
        state.phase is Reading,
        snapshot.is_playing is None,
    ensures
        ({
            let after = state.after(
                RuntimeEvent::Snapshot { snapshot, now },
                songs_by_id,
                config,
            );
            &&& after.memory == state.memory
            &&& after.was_playing == state.was_playing
            &&& !after.memory_read_available
            &&& state.current_presence_state is Some || !state.connected ==> after.phase is Sleeping
            &&& after.current_presence_state == state.current_presence_state
            &&& after.connected == state.connected
            &&& after.last_presence_update == state.last_presence_update
            &&& after.last_discord_connect_attempt == state.last_discord_connect_attempt
        }),
{
}

/// The state after all of `events`, where the dataset may differ from event to event.
pub open spec fn runtime_run(
    config: types::ConfigView,
    start: u64,
    events: Seq<(RuntimeEvent, Map<i32, Song>)>,
) -> RuntimeView
    decreases events.len(),
{
    if events.len() == 0 {
        initial_state(config, start)
    } else {
        runtime_run(config, start, events.drop_last()).after(
            events.last().0,
            events.last().1,
            config,
        )
    }
}

/// At every moment of every run: without a connection Discord shows nothing of ours, and a song and a
/// difficulty are held exactly while a song counts as being played.
pub proof fn law_every_run_stays_sound(
    config: types::ConfigView,
    start: u64,
    events: Seq<(RuntimeEvent, Map<i32, Song>)>,
)
    ensures
        runtime_run(config, start, events).wf(),
    decreases events.len(),
{
    if events.len() > 0 {
        law_every_run_stays_sound(config, start, events.drop_last());
        law_every_round_keeps_the_state_sound(
            runtime_run(config, start, events.drop_last()),
            events.last().0,
            events.last().1,
            config,
        );
    }
}

/// In every run a connection is asked for only if the configured application identifier is one, and
/// then for exactly that identifier.
pub proof fn law_connections_are_made_for_the_configured_application(
    config: types::ConfigView,
    start: u64,
    events: Seq<(RuntimeEvent, Map<i32, Song>)>,
)
    ensures
        runtime_run(config, start, events).phase matches PhaseView::Connecting { app_id, .. } ==> {
            &&& app_id == config.discord_app_id
            &&& app_id_configured(config.discord_app_id)
        },
    decreases events.len(),
{
    if events.len() > 0 {
        law_connections_are_made_for_the_configured_application(config, start, events.drop_last());
    }
}

/// A connection is tried again after ten seconds, a presence is sent again after ten seconds, and a
/// round comes every second; time that runs backwards does not count.
pub proof fn law_the_loop_keeps_its_times(now: u64, since: u64)
    ensures
        DISCORD_RECONNECT_INTERVAL == 10 * 1_000_000_000,
        PRESENCE_REFRESH_INTERVAL == 10 * 1_000_000_000,
        ROUND_INTERVAL == 1_000_000_000,
        now >= since ==> elapsed(now, since) == now - since,
        now < since ==> elapsed(now, since) == 0,
{
}

/// An application identifier is one unless it is white space only or the placeholder.
pub proof fn law_only_blanks_and_the_placeholder_are_no_identifiers(app_id: Seq<char>)
    ensures
        text::all_white_space(app_id) ==> !app_id_configured(app_id),
        app_id == "YOUR_DISCORD_APP_ID"@ ==> !app_id_configured(app_id),
        !text::all_white_space(app_id) && app_id != "YOUR_DISCORD_APP_ID"@ ==> app_id_configured(
            app_id,
        ),
{
    if text::all_white_space(app_id) {
        let none = Seq::<char>::empty();
        text::law_trimming_leaves_what_the_space_surrounds(app_id, none, none);
        assert(app_id + none + none =~= app_id);
    } else {
        text::law_trimmed_keeps_other_characters(app_id);
    }
}

/// Without a connection, one is asked for as soon as ten seconds have passed since the last attempt,
/// if there is an application to connect for, and not before; the attempt counts even without one.
pub proof fn law_reconnects_are_made_when_they_are_due(
    state: RuntimeView,
    now: u64,
    songs_by_id: Map<i32, Song>,
    config: types::ConfigView,
)
    requires
        state.phase is Sleeping,
    ensures
        ({
            let after = state.after(RuntimeEvent::Woke { now }, songs_by_id, config);
            let due = !state.connected && now - state.last_discord_connect_attempt
                >= 10_000_000_000;
            &&& after.phase is Connecting <==> due && app_id_configured(config.discord_app_id)
            &&& after.phase is Connecting ==> after.phase == (PhaseView::Connecting {
                initial: false,
                app_id: config.discord_app_id,
            })
            &&& !(after.phase is Connecting) ==> after.phase is Reading
            &&& after.last_discord_connect_attempt == if due {
                now
            } else {
                state.last_discord_connect_attempt
            }
            &&& after.current_presence_state == state.current_presence_state
            &&& after.last_presence_update == state.last_presence_update
            &&& after.connected == state.connected
            &&& after.memory == state.memory
            &&& after.was_playing == state.was_playing
            &&& after.memory_read_available == state.memory_read_available
        }),
{
}

/// A new connection is greeted with the default presence. If that is sent, Discord shows it from then
/// on; if not, the connection stays and Discord shows nothing of ours. The first attempt to connect
/// counts from its end, a later one from its start.
pub proof fn law_new_connections_are_greeted(
    state: RuntimeView,
    error: String,
    now: u64,
    songs_by_id: Map<i32, Song>,
    config: types::ConfigView,
)
    requires
        state.phase is Greeting,
    ensures
        ({
            let sent = state.after(RuntimeEvent::Sent { now }, songs_by_id, config);
            let failed = state.after(
                RuntimeEvent::SendFailed { error, now },
                songs_by_id,
                config,
            );
            let attempt = if state.phase->Greeting_initial {
                now
            } else {
                state.last_discord_connect_attempt
            };
            &&& sent.phase is Reading && failed.phase is Reading
            &&& sent.current_presence_state == Some(PresenceState::Default { player_rating: None })
            &&& sent.last_presence_update == now
            &&& failed.current_presence_state is None
            &&& failed.last_presence_update == state.last_presence_update
            &&& sent.connected == state.connected && failed.connected == state.connected
            &&& sent.last_discord_connect_attempt == attempt
            &&& failed.last_discord_connect_attempt == attempt
            &&& sent.memory == state.memory && failed.memory == state.memory
            &&& sent.was_playing == state.was_playing && failed.was_playing == state.was_playing
            &&& sent.memory_read_available == state.memory_read_available
            &&& failed.memory_read_available == state.memory_read_available
        }),
{
}

/// After an attempt to connect, the first one counts from its end and a later one from its start;
/// nothing is forgotten of the game.
pub proof fn law_attempts_to_connect_are_timed(
    state: RuntimeView,
    error: String,
    now: u64,
    songs_by_id: Map<i32, Song>,
    config: types::ConfigView,
)
    requires
        state.phase is Connecting,
    ensures
        ({
            let failed = state.after(
                RuntimeEvent::ConnectFailed { error, now },
                songs_by_id,
                config,
            );
            let connected = state.after(RuntimeEvent::Connected { now }, songs_by_id, config);
            &&& failed.last_discord_connect_attempt == if state.phase->Connecting_initial {
                now
            } else {
                state.last_discord_connect_attempt
            }
            &&& failed.memory == state.memory && failed.was_playing == state.was_playing
            &&& connected.phase->Greeting_initial == state.phase->Connecting_initial
            &&& connected.last_discord_connect_attempt == state.last_discord_connect_attempt
            &&& connected.memory == state.memory && connected.was_playing == state.was_playing
            &&& connected.current_presence_state == state.current_presence_state
            &&& connected.last_presence_update == state.last_presence_update
            &&& connected.memory_read_available == state.memory_read_available
            &&& failed.current_presence_state == state.current_presence_state
            &&& failed.last_presence_update == state.last_presence_update
            &&& failed.memory_read_available == state.memory_read_available
        }),
{
}

/// A snapshot that can be read is taken in: whether a song is being played and what is remembered are
/// those of the reading, whether or not there is a connection.
pub proof fn law_readable_snapshots_are_taken_in(
    state: RuntimeView,
    snapshot: MemorySnapshot,
    now: u64,
    songs_by_id: Map<i32, Song>,
    config: types::ConfigView,
)
    requires
        state.phase is Reading,
        snapshot.is_playing is Some,
    ensures
        ({
            let after = state.after(
                RuntimeEvent::Snapshot { snapshot, now },
                songs_by_id,
                config,
            );
            let (is_playing, _) = memory::reading(
                songs_by_id,
                snapshot,
                state.was_playing,
                state.memory,
            )->0;
            &&& after.was_playing == is_playing
            &&& after.memory == memory::remembered(snapshot, state.was_playing, state.memory)
            &&& after.memory_read_available
            &&& after.connected == state.connected
            &&& after.current_presence_state == state.current_presence_state
            &&& after.last_presence_update == state.last_presence_update
            &&& after.last_discord_connect_attempt == state.last_discord_connect_attempt
        }),
{
}

/// A game that cannot be read gets the default presence if Discord shows nothing of ours yet.
pub proof fn law_an_unreadable_game_gets_the_default_presence(
    state: RuntimeView,
    snapshot: MemorySnapshot,
    now: u64,
    songs_by_id: Map<i32, Song>,
    config: types::ConfigView,
)
    requires
        state.phase is Reading,
        snapshot.is_playing is None,
        state.connected,
        state.current_presence_state is None,
    ensures
        state.after(RuntimeEvent::Snapshot { snapshot, now }, songs_by_id, config).phase matches
            PhaseView::Sending { desired, .. } && desired == (PresenceState::Default {
            player_rating: None,
        }),
{
}

/// A presence that could not be sent costs the connection, and the next attempt to connect is ten
/// seconds away; nothing is forgotten of the game, whether or not it was sent.
pub proof fn law_sending_does_not_touch_the_game(
    state: RuntimeView,
    error: String,
    now: u64,
    songs_by_id: Map<i32, Song>,
    config: types::ConfigView,
)
    requires
        state.phase is Sending,
    ensures
        ({
            let sent = state.after(RuntimeEvent::Sent { now }, songs_by_id, config);
            let failed = state.after(
                RuntimeEvent::SendFailed { error, now },
                songs_by_id,
                config,
            );
            &&& sent.phase is Sleeping && failed.phase is Sleeping
            &&& failed.last_discord_connect_attempt == now
            &&& sent.last_discord_connect_attempt == state.last_discord_connect_attempt
            &&& sent.memory == state.memory && failed.memory == state.memory
            &&& sent.was_playing == state.was_playing && failed.was_playing == state.was_playing
            &&& sent.memory_read_available == state.memory_read_available
            &&& failed.memory_read_available == state.memory_read_available
        }),
{
}

/// An event that is not waited for changes nothing and puts nothing in the log.
pub proof fn law_other_events_change_nothing(
    state: RuntimeView,
    event: RuntimeEvent,
    songs_by_id: Map<i32, Song>,
    config: types::ConfigView,
)
    requires
        !answers(event, state.phase),
    ensures
        state.after(event, songs_by_id, config) == state,
        state.lines(event, songs_by_id, config).len() == 0,
{
}

/// The program starts without a connection, without anything remembered of the game, and with a
/// connection to make if there is an application to make it for.
pub proof fn law_the_program_starts_afresh(config: types::ConfigView, now: u64)
    ensures
        ({
            let state = initial_state(config, now);
            &&& !state.connected && state.current_presence_state is None
            &&& state.last_presence_update == now && state.last_discord_connect_attempt == now
            &&& !state.was_playing && state.memory_read_available
            &&& state.memory.last_song_id == -1
            &&& state.memory.latched_song_id is None && state.memory.latched_difficulty is None
            &&& app_id_configured(config.discord_app_id) ==> state.phase
                == (PhaseView::Connecting { initial: true, app_id: config.discord_app_id })
            &&& !app_id_configured(config.discord_app_id) ==> state.phase is Reading
            &&& default_state() == (PresenceState::Default { player_rating: None })
        }),
{
}

/// The log follows the program: where its files are, each connection and each presence that was or was
/// not made, and each change in whether the game can be read.
pub proof fn law_the_program_is_logged(
    state: RuntimeView,
    error: String,
    now: u64,
    snapshot: MemorySnapshot,
    songs_by_id: Map<i32, Song>,
    config: types::ConfigView,
    base_dir: Seq<char>,
    log_file: Seq<char>,
)
    ensures
        startup_lines(base_dir, log_file) == seq![
            "Injected successfully into Chunithm!"@,
            "Runtime base directory: "@ + base_dir,
            "General log file: "@ + log_file,
        ],
        state.phase is Connecting ==> {
            &&& state.lines(RuntimeEvent::Connected { now }, songs_by_id, config) == seq![
                "Connected to Discord RPC"@,
            ]
            &&& state.lines(RuntimeEvent::ConnectFailed { error, now }, songs_by_id, config)
                == seq!["Failed to connect Discord RPC: "@ + error@]
        },
        state.phase is Greeting ==> {
            &&& state.lines(RuntimeEvent::Sent { now }, songs_by_id, config) == seq![
                "Discord presence updated: default presence (song select)"@,
            ]
            &&& state.lines(RuntimeEvent::SendFailed { error, now }, songs_by_id, config) == seq![
                "Failed to update Discord RPC for default presence (song select)"@,
            ]
        },
        state.phase matches PhaseView::Sending { description, .. } ==> {
            &&& state.lines(RuntimeEvent::Sent { now }, songs_by_id, config) == seq![
                "Discord presence updated: "@ + description,
            ]
            &&& state.lines(RuntimeEvent::SendFailed { error, now }, songs_by_id, config) == seq![
                "Failed to update Discord RPC for "@ + description + ": "@ + error@,
            ]
        },
        state.phase is Sleeping ==> state.lines(RuntimeEvent::Woke { now }, songs_by_id, config)
            == if !state.connected && now - state.last_discord_connect_attempt >= 10_000_000_000
            && !app_id_configured(config.discord_app_id) {
            seq!["Discord app ID is not configured"@]
        } else {
            Seq::empty()
        },
        state.phase is Reading ==> state.lines(
            RuntimeEvent::Snapshot { snapshot, now },
            songs_by_id,
            config,
        ) == memory::reading_lines(songs_by_id, snapshot, state.was_playing, state.memory) + if (
        snapshot.is_playing is None && state.memory_read_available) {
            seq!["Memory read unavailable, keeping default presence until pointers recover"@]
        } else if snapshot.is_playing is Some && !state.memory_read_available {
            seq!["Memory read recovered"@]
        } else {
            Seq::empty()
        },
{
    let lines = memory::reading_lines(songs_by_id, snapshot, state.was_playing, state.memory);
    assert(lines + Seq::<Seq<char>>::empty() =~= lines);
}

} // verus!
