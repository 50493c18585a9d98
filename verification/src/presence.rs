//! What Discord shows: labels, activities and the choice of the presence state.

use crate::journal::Journal;
use crate::songs;
use crate::songs::SongsById;
use crate::text;
use crate::types;
use crate::types::{PresenceState, RichPresenceConfig, Song};
use vstd::prelude::*;
use vstd::string::*;

verus! {

/// Where the jacket images are.
pub const SONG_JACKET_BASE_URL: &'static str = "https://chunithm.beerpsi.cc/assets/jackets/";

/// The name of a difficulty.
pub open spec fn difficulty_name(difficulty: i32) -> Seq<char> {
    if difficulty == 0 {
        "BASIC"@
    } else if difficulty == 1 {
        "ADVANCED"@
    } else if difficulty == 2 {
        "EXPERT"@
    } else if difficulty == 3 {
        "MASTER"@
    } else if difficulty == 4 {
        "ULTIMA"@
    } else {
        "UNKNOWN"@
    }
}

/// The name of a difficulty and, where it is known, the level of the chart.
pub open spec fn difficulty_text(level: Option<Seq<char>>, difficulty: i32) -> Seq<char> {
    match level {
        Some(level) => difficulty_name(difficulty) + " "@ + level,
        None => difficulty_name(difficulty),
    }
}

/// The level of the chart, if there is a song and the dataset gives its level.
pub open spec fn level_of(song: Option<&Song>, difficulty: i32) -> Option<Seq<char>> {
    match song {
        Some(song) => song.chart_level(difficulty),
        None => None,
    }
}

/// A positive rating, which counts hundredths, with two decimals; no text for any other.
pub open spec fn rating_text(player_rating: Option<i32>) -> Option<Seq<char>> {
    match player_rating {
        Some(rating) if rating > 0 => Some(
            text::decimal(rating as int / 100) + "."@ + text::zero_padded(
                text::decimal(rating as int % 100),
                2,
            ) + " Rating"@,
        ),
        _ => None,
    }
}

/// `base`, followed by the rating where there is one to show.
pub open spec fn with_rating(base: Seq<char>, player_rating: Option<i32>) -> Seq<char> {
    match rating_text(player_rating) {
        Some(rating) => base + " | "@ + rating,
        None => base,
    }
}

/// The rating, unless the configuration hides it.
pub open spec fn shown_rating(show_rating: bool, player_rating: Option<i32>) -> Option<i32> {
    if show_rating {
        player_rating
    } else {
        None
    }
}

/// The name of a difficulty.
pub fn difficulty_label(difficulty: i32) -> (r: &'static str)
    ensures
        r@ == difficulty_name(difficulty),
{
    match difficulty {
        0 => "BASIC",
        1 => "ADVANCED",
        2 => "EXPERT",
        3 => "MASTER",
        4 => "ULTIMA",
        _ => "UNKNOWN",
    }
}

/// The name of a difficulty, with the level of the song's chart where it is known.
pub fn difficulty_state_label(song: Option<&Song>, difficulty: i32) -> (r: String)
    ensures
        r@ == difficulty_text(level_of(song, difficulty), difficulty),
{
    let level = match song {
        Some(song) => song.chart_level_for_difficulty(difficulty),
        None => None,
    };
    let mut out: String = difficulty_label(difficulty).to_owned();
    if let Some(level) = level {
        out.append(" ");
        out.append(level.as_str());
    }
    out
}

/// A positive rating with two decimals; nothing for any other.
pub fn rating_label(player_rating: Option<i32>) -> (r: Option<String>)
    ensures
        match r {
            Some(label) => rating_text(player_rating) == Some(label@),
            None => rating_text(player_rating) is None,
        },
{
    match player_rating {
        Some(rating) => if rating > 0 {
            let mut out = String::new();
            text::append_number(&mut out, (rating / 100) as u64, 10, 0);
            out.append(".");
            text::append_number(&mut out, (rating % 100) as u64, 10, 2);
            out.append(" Rating");
            assert(Some(out@) == rating_text(player_rating)) by {
                assert(out@ =~= rating_text(player_rating)->0);
            }
            Some(out)
        } else {
            None
        },
        None => None,
    }
}

/// The rating that the configuration lets through.
pub fn display_player_rating(config: &RichPresenceConfig, player_rating: Option<i32>) -> (r: Option<
    i32,
>)
    ensures
        r == shown_rating(config.show_rating, player_rating),
{
    if config.show_rating {
        player_rating
    } else {
        None
    }
}

/// The second line while a song is being chosen.
pub fn song_select_state_label(player_rating: Option<i32>) -> (r: Option<String>)
    ensures
        match r {
            Some(label) => rating_text(player_rating) == Some(label@),
            None => rating_text(player_rating) is None,
        },
{
    rating_label(player_rating)
}

/// The second line while a song is being played.
pub fn playing_state_label(base_state: String, player_rating: Option<i32>) -> (r: String)
    ensures
        r@ == with_rating(base_state@, player_rating),
{
    match rating_label(player_rating) {
        Some(rating) => base_state.concat(" | ").concat(rating.as_str()),
        None => base_state,
    }
}

/// The texts and the image of an activity.
#[derive(Debug)]
pub struct PresenceActivity {
    pub name: String,
    pub details: String,
    pub state: Option<String>,
    pub large_image: String,
    pub large_text: String,
}

/// An activity as mathematical values.
#[verifier::ext_equal]
pub struct ActivityView {
    pub name: Seq<char>,
    pub details: Seq<char>,
    pub state: Option<Seq<char>>,
    pub large_image: Seq<char>,
    pub large_text: Seq<char>,
}

impl View for PresenceActivity {
    type V = ActivityView;

    open spec fn view(&self) -> ActivityView {
        ActivityView {
            name: self.name@,
            details: self.details@,
            state: match self.state {
                Some(state) => Some(state@),
                None => None,
            },
            large_image: self.large_image@,
            large_text: self.large_text@,
        }
    }
}

/// The activity while a song is being chosen.
pub open spec fn song_select_activity(
    config: types::ConfigView,
    player_rating: Option<i32>,
) -> ActivityView {
    ActivityView {
        name: config.game_name,
        details: "In song select"@,
        state: rating_text(shown_rating(config.show_rating, player_rating)),
        large_image: config.logo_url,
        large_text: config.game_name,
    }
}

/// The activity while a song of the dataset is being played.
pub open spec fn known_song_activity(
    song: &Song,
    difficulty: i32,
    player_rating: Option<i32>,
    config: types::ConfigView,
) -> ActivityView {
    ActivityView {
        name: config.game_name,
        details: "Playing "@ + song.title@ + " - "@ + song.artist@,
        state: Some(
            with_rating(
                difficulty_text(song.chart_level(difficulty), difficulty),
                shown_rating(config.show_rating, player_rating),
            ),
        ),
        large_image: SONG_JACKET_BASE_URL@ + song.id@ + ".webp"@,
        large_text: song.title@,
    }
}

/// The activity while a song that the dataset lacks is being played.
pub open spec fn some_song_activity(
    difficulty: i32,
    player_rating: Option<i32>,
    config: types::ConfigView,
) -> ActivityView {
    ActivityView {
        name: config.game_name,
        details: "Playing a song"@,
        state: Some(
            with_rating(
                difficulty_name(difficulty),
                shown_rating(config.show_rating, player_rating),
            ),
        ),
        large_image: config.logo_url,
        large_text: config.game_name,
    }
}

/// The activity while a song is being chosen.
pub fn default_activity(config: &RichPresenceConfig, player_rating: Option<i32>) -> (r:
    PresenceActivity)
    ensures
        r@ == song_select_activity(config@, player_rating),
{
    let player_rating = display_player_rating(config, player_rating);
    PresenceActivity {
        name: config.game_name.clone(),
        details: "In song select".to_owned(),
        state: song_select_state_label(player_rating),
        large_image: config.logo_url.clone(),
        large_text: config.game_name.clone(),
    }
}

/// The activity while a song of the dataset is being played.
pub fn song_activity(
    song: &Song,
    difficulty: i32,
    player_rating: Option<i32>,
    config: &RichPresenceConfig,
) -> (r: PresenceActivity)
    ensures
        r@ == known_song_activity(song, difficulty, player_rating, config@),
{
    let player_rating = display_player_rating(config, player_rating);
    let image_url: String = SONG_JACKET_BASE_URL.to_owned().concat(song.id.as_str()).concat(
        ".webp",
    );
    let subtitle: String = "Playing ".to_owned().concat(song.title.as_str()).concat(" - ").concat(
        song.artist.as_str(),
    );
    let state = playing_state_label(
        difficulty_state_label(Some(song), difficulty),
        player_rating,
    );
    PresenceActivity {
        name: config.game_name.clone(),
        details: subtitle,
        state: Some(state),
        large_image: image_url,
        large_text: song.title.clone(),
    }
}

/// The activity while a song that the dataset lacks is being played.
pub fn unknown_song_activity(
    difficulty: i32,
    player_rating: Option<i32>,
    config: &RichPresenceConfig,
) -> (r: PresenceActivity)
    ensures
        r@ == some_song_activity(difficulty, player_rating, config@),
{
    let player_rating = display_player_rating(config, player_rating);
    let state = playing_state_label(difficulty_state_label(None, difficulty), player_rating);
    PresenceActivity {
        name: config.game_name.clone(),
        details: "Playing a song".to_owned(),
        state: Some(state),
        large_image: config.logo_url.clone(),
        large_text: config.game_name.clone(),
    }
}

/// The presence while a song is being played: the song, if the dataset has it.
pub open spec fn playing_state(
    songs_by_id: Map<i32, Song>,
    song_id: Option<i32>,
    difficulty: i32,
    player_rating: Option<i32>,
) -> PresenceState {
    match song_id {
        Some(id) if id != -1 && songs_by_id.contains_key(id) => PresenceState::Song {
            id,
            difficulty,
            player_rating,
        },
        _ => PresenceState::UnknownSong { difficulty, player_rating },
    }
}

/// The line on a song that was not the last one, if the song is known to have changed.
pub open spec fn song_change_lines(
    songs_by_id: Map<i32, Song>,
    song_id: Option<i32>,
    last_song_id: i32,
) -> Seq<Seq<char>> {
    match song_id {
        Some(id) if id != last_song_id => if id == -1 {
            seq!["Invalid Song ID while playing: "@ + text::decimal(id as int)]
        } else if songs_by_id.contains_key(id) {
            seq![
                "Now playing: "@ + songs_by_id[id].title@ + " - "@ + songs_by_id[id].artist@,
            ]
        } else {
            seq!["Song ID "@ + text::decimal(id as int) + " not found in dataset"@]
        },
        _ => Seq::empty(),
    }
}

/// The presence while a song is being played. A change of the song is put in the log, and the last
/// song becomes the current one.
pub fn resolve_playing_presence_state(
    songs_by_id: &SongsById,
    current_song_id: Option<i32>,
    current_difficulty: i32,
    current_player_rating: Option<i32>,
    last_song_id: &mut i32,
    log: &mut Journal,
) -> (r: PresenceState)
    ensures
        r == playing_state(
            songs_by_id@,
            current_song_id,
            current_difficulty,
            current_player_rating,
        ),
        *final(last_song_id) == match current_song_id {
            Some(id) => id,
            None => *old(last_song_id),
        },
        final(log)@ == old(log)@ + song_change_lines(
            songs_by_id@,
            current_song_id,
            *old(last_song_id),
        ),
{
    let ghost added = song_change_lines(songs_by_id@, current_song_id, *last_song_id);
    let unknown = PresenceState::UnknownSong {
        difficulty: current_difficulty,
        player_rating: current_player_rating,
    };
    let state = match current_song_id {
        Some(song_id) => if song_id != -1 {
            let song = songs::get_song_by_id(songs_by_id, song_id);
            if song_id != *last_song_id {
                match song {
                    Some(song) => {
                        log.record(
                            "Now playing: ".to_owned().concat(song.title.as_str()).concat(
                                " - ",
                            ).concat(song.artist.as_str()),
                        );
                    },
                    None => {
                        let mut line: String = "Song ID ".to_owned();
                        text::append_decimal(&mut line, song_id as i64);
                        line.append(" not found in dataset");
                        log.record(line);
                    },
                }
                *last_song_id = song_id;
            }
            if song.is_some() {
                PresenceState::Song {
                    id: song_id,
                    difficulty: current_difficulty,
                    player_rating: current_player_rating,
                }
            } else {
                unknown
            }
        } else {
            if song_id != *last_song_id {
                let mut line: String = "Invalid Song ID while playing: ".to_owned();
                text::append_decimal(&mut line, song_id as i64);
                log.record(line);
                *last_song_id = song_id;
            }
            unknown
        },
        None => unknown,
    };
    assert(log@ =~= old(log)@ + added);
    state
}

/// An activity for Discord and what the log calls it.
#[derive(Debug)]
pub struct PresenceUpdate {
    pub description: String,
    pub activity: PresenceActivity,
}

/// What the log calls the activity for `state`.
pub open spec fn state_description(state: PresenceState, songs_by_id: Map<i32, Song>) -> Seq<char> {
    match state {
        PresenceState::Default { .. } => "default presence (song select)"@,
        PresenceState::UnknownSong { difficulty, .. } => "unknown song ("@ + difficulty_name(
            difficulty,
        ) + ")"@,
        PresenceState::Song { id, difficulty, player_rating } => if songs_by_id.contains_key(id) {
            "song "@ + songs_by_id[id].title@ + " - "@ + songs_by_id[id].artist@ + " ("@
                + with_rating(
                difficulty_text(songs_by_id[id].chart_level(difficulty), difficulty),
                player_rating,
            ) + ")"@
        } else {
            "song id "@ + text::decimal(id as int) + " missing from dataset ("@ + difficulty_name(
                difficulty,
            ) + ")"@
        },
    }
}

/// The activity for `state`.
pub open spec fn state_activity(
    state: PresenceState,
    songs_by_id: Map<i32, Song>,
    config: types::ConfigView,
) -> ActivityView {
    match state {
        PresenceState::Default { player_rating } => song_select_activity(config, player_rating),
        PresenceState::UnknownSong { difficulty, player_rating } => some_song_activity(
            difficulty,
            player_rating,
            config,
        ),
        PresenceState::Song { id, difficulty, player_rating } => if songs_by_id.contains_key(id) {
            known_song_activity(&songs_by_id[id], difficulty, player_rating, config)
        } else {
            some_song_activity(difficulty, player_rating, config)
        },
    }
}

/// What to send to Discord for `state`.
pub fn update_presence(
    state: &PresenceState,
    songs_by_id: &SongsById,
    config: &RichPresenceConfig,
) -> (r: PresenceUpdate)
    ensures
        r.description@ == state_description(*state, songs_by_id@),
        r.activity@ == state_activity(*state, songs_by_id@, config@),
{
    match *state {
        PresenceState::Default { player_rating } => PresenceUpdate {
            description: "default presence (song select)".to_owned(),
            activity: default_activity(config, player_rating),
        },
        PresenceState::UnknownSong { difficulty, player_rating } => PresenceUpdate {
            description: "unknown song (".to_owned().concat(difficulty_label(difficulty)).concat(
                ")",
            ),
            activity: unknown_song_activity(difficulty, player_rating, config),
        },
        PresenceState::Song { id, difficulty, player_rating } => match songs::get_song_by_id(
            songs_by_id,
            id,
        ) {
            Some(song) => {
                let state_label = playing_state_label(
                    difficulty_state_label(Some(song), difficulty),
                    player_rating,
                );
                PresenceUpdate {
                    description: "song ".to_owned().concat(song.title.as_str()).concat(
                        " - ",
                    ).concat(song.artist.as_str()).concat(" (").concat(
                        state_label.as_str(),
                    ).concat(")"),
                    activity: song_activity(song, difficulty, player_rating, config),
                }
            },
            None => {
                let mut description: String = "song id ".to_owned();
                text::append_decimal(&mut description, id as i64);
                description.append(" missing from dataset (");
                description.append(difficulty_label(difficulty));
                description.append(")");
                PresenceUpdate {
                    description,
                    activity: unknown_song_activity(difficulty, player_rating, config),
                }
            },
        },
    }
}

/// The line on an update that was sent, or that failed for the given reason.
pub open spec fn update_line(description: Seq<char>, failure: Option<Seq<char>>) -> Seq<char> {
    match failure {
        None => "Discord presence updated: "@ + description,
        Some(reason) => "Failed to update Discord RPC for "@ + description + ": "@ + reason,
    }
}

/// Puts in the log whether the update called `description` was sent.
pub fn log_update(description: &str, failure: Option<&str>, log: &mut Journal)
    ensures
        final(log)@ == old(log)@.push(
            update_line(
                description@,
                match failure {
                    Some(reason) => Some(reason@),
                    None => None,
                },
            ),
        ),
{
    match failure {
        None => log.record("Discord presence updated: ".to_owned().concat(description)),
        Some(reason) => log.record(
            "Failed to update Discord RPC for ".to_owned().concat(description).concat(": ").concat(
                reason,
            ),
        ),
    }
}

/// `state` with another rating.
pub open spec fn with_player_rating(
    state: PresenceState,
    player_rating: Option<i32>,
) -> PresenceState {
    match state {
        PresenceState::Default { .. } => PresenceState::Default { player_rating },
        PresenceState::UnknownSong { difficulty, .. } => PresenceState::UnknownSong {
            difficulty,
            player_rating,
        },
        PresenceState::Song { id, difficulty, .. } => PresenceState::Song {
            id,
            difficulty,
            player_rating,
        },
    }
}

/// A configuration that hides the rating hides it in every activity.
pub proof fn law_a_hidden_rating_is_not_shown(
    state: PresenceState,
    player_rating: Option<i32>,
    songs_by_id: Map<i32, Song>,
    config: types::ConfigView,
)
    requires
        !config.show_rating,
    ensures
        state_activity(with_player_rating(state, player_rating), songs_by_id, config)
            == state_activity(with_player_rating(state, None), songs_by_id, config),
{
}

/// Every activity carries the configured name of the game, and the configured image unless a song of
/// the dataset is being played.
pub proof fn law_the_configured_name_and_image_are_shown(
    state: PresenceState,
    songs_by_id: Map<i32, Song>,
    config: types::ConfigView,
)
    ensures
        state_activity(state, songs_by_id, config).name == config.game_name,
        !(state matches PresenceState::Song { id, .. } && songs_by_id.contains_key(id)) ==> {
            &&& state_activity(state, songs_by_id, config).large_image == config.logo_url
            &&& state_activity(state, songs_by_id, config).large_text == config.game_name
        },
{
}

/// While a song is being played, the song is named exactly if it has a number and the dataset has
/// it.
pub proof fn law_only_songs_of_the_dataset_are_named(
    songs_by_id: Map<i32, Song>,
    song_id: Option<i32>,
    difficulty: i32,
    player_rating: Option<i32>,
)
    ensures
        playing_state(songs_by_id, song_id, difficulty, player_rating) is Song <==> song_id
            is Some && song_id != Some((-1) as i32) && songs_by_id.contains_key(song_id->0),
        playing_state(songs_by_id, song_id, difficulty, player_rating) matches PresenceState::Song {
            id,
            ..
        } ==> Some(id) == song_id,
{
}

/// A song is put in the log once: as long as it stays the last one, no line is added.
pub proof fn law_a_song_is_announced_once(songs_by_id: Map<i32, Song>, song_id: i32)
    ensures
        song_change_lines(songs_by_id, Some(song_id), song_id) == Seq::<Seq<char>>::empty(),
        forall|last_song_id: i32|
            last_song_id != song_id ==> (#[trigger] song_change_lines(
                songs_by_id,
                Some(song_id),
                last_song_id,
            )).len() == 1,
{
}

/// The difficulties of the game have their names, and no other number has one.
pub proof fn law_difficulties_have_their_names(difficulty: i32)
    ensures
        difficulty == 0 ==> difficulty_name(difficulty) == "BASIC"@,
        difficulty == 1 ==> difficulty_name(difficulty) == "ADVANCED"@,
        difficulty == 2 ==> difficulty_name(difficulty) == "EXPERT"@,
        difficulty == 3 ==> difficulty_name(difficulty) == "MASTER"@,
        difficulty == 4 ==> difficulty_name(difficulty) == "ULTIMA"@,
        difficulty < 0 || difficulty > 4 ==> difficulty_name(difficulty) == "UNKNOWN"@,
{
}

/// Whether `label` shows `rating`: a number in digits, a dot, exactly two digits and the word, where a
/// hundred times the first number and the second make the rating.
pub open spec fn shows_rating(
    label: Seq<char>,
    whole: Seq<char>,
    hundredths: Seq<char>,
    rating: int,
) -> bool {
    &&& label == whole + "."@ + hundredths + " Rating"@
    &&& whole.len() > 0
    &&& whole[0] == '0' ==> whole.len() == 1
    &&& hundredths.len() == 2
    &&& forall|i: int| 0 <= i < whole.len() ==> '0' <= #[trigger] whole[i] <= '9'
    &&& forall|i: int| 0 <= i < hundredths.len() ==> '0' <= #[trigger] hundredths[i] <= '9'
    &&& 100 * text::number_in_base(whole, 10) + text::number_in_base(hundredths, 10) == rating
}

/// The shown rating reads back to the rating; a rating that is not positive is not shown.
pub proof fn law_the_shown_rating_reads_back(rating: i32)
    ensures
        rating_text(None) is None,
        rating <= 0 ==> rating_text(Some(rating)) is None,
        rating > 0 ==> {
            &&& rating_text(Some(rating)) is Some
            &&& exists|whole: Seq<char>, hundredths: Seq<char>| #[trigger]
                shows_rating(rating_text(Some(rating))->0, whole, hundredths, rating as int)
        },
{
    if rating > 0 {
        let above = (rating as int / 100) as nat;
        let below = (rating as int % 100) as nat;
        let whole = text::digits(above, 10);
        let hundredths = text::zero_padded(text::digits(below, 10), 2);
        text::law_digits_write_the_number(above, 10);
        text::law_padded_digits_write_the_number(below, 10, 2);
        text::lemma_two_digits(below);
        assert forall|i: int| 0 <= i < whole.len() implies '0' <= #[trigger] whole[i] <= '9' by {
            assert(text::digit_value(whole[i]) < 10);
        }
        assert forall|i: int| 0 <= i < 2 implies '0' <= #[trigger] hundredths[i] <= '9' by {
            assert(text::digit_value(hundredths[i]) < 10);
        }
        assert(shows_rating(rating_text(Some(rating))->0, whole, hundredths, rating as int));
    }
}

/// The second line starts with the difficulty and, where the dataset gives one, the level behind a
/// space; a rating to show stands behind a bar, and nothing does where there is none to show.
pub proof fn law_the_second_line_has_difficulty_level_and_rating(
    level: Seq<char>,
    difficulty: i32,
    base: Seq<char>,
    player_rating: Option<i32>,
)
    ensures
        difficulty_text(None, difficulty) == difficulty_name(difficulty),
        difficulty_text(Some(level), difficulty) == difficulty_name(difficulty) + " "@ + level,
        rating_text(player_rating) matches Some(rating) ==> with_rating(base, player_rating) == base
            + " | "@ + rating,
        rating_text(player_rating) is None ==> with_rating(base, player_rating) == base,
{
}

/// A rating is shown exactly as it is, or not at all where the configuration hides it.
pub proof fn law_the_configuration_lets_the_rating_through(player_rating: Option<i32>)
    ensures
        shown_rating(true, player_rating) == player_rating,
        shown_rating(false, player_rating) is None,
{
}

/// In song select the activity says so, and its second line is the rating alone.
pub proof fn law_song_select_shows_the_rating(
    player_rating: Option<i32>,
    songs_by_id: Map<i32, Song>,
    config: types::ConfigView,
)
    ensures
        ({
            let activity = state_activity(
                PresenceState::Default { player_rating },
                songs_by_id,
                config,
            );
            &&& activity.details == "In song select"@
            &&& config.show_rating ==> activity.state == rating_text(player_rating)
            &&& !config.show_rating ==> activity.state is None
        }),
{
}

/// A song of the dataset is shown with its own title, artist and jacket, with the level of the chart
/// that is played, and with the rating.
pub proof fn law_a_known_song_is_shown_as_itself(
    id: i32,
    difficulty: i32,
    player_rating: Option<i32>,
    songs_by_id: Map<i32, Song>,
    config: types::ConfigView,
)
    requires
        songs_by_id.contains_key(id),
    ensures
        ({
            let song = songs_by_id[id];
            let activity = state_activity(
                PresenceState::Song { id, difficulty, player_rating },
                songs_by_id,
                config,
            );
            let chart = match song.chart_level(difficulty) {
                Some(level) => difficulty_name(difficulty) + " "@ + level,
                None => difficulty_name(difficulty),
            };
            &&& activity.details == "Playing "@ + song.title@ + " - "@ + song.artist@
            &&& activity.large_text == song.title@
            &&& activity.large_image == "https://chunithm.beerpsi.cc/assets/jackets/"@ + song.id@
                + ".webp"@
            &&& activity.state is Some
            &&& match (config.show_rating, rating_text(player_rating)) {
                (true, Some(rating)) => activity.state->0 == chart + " | "@ + rating,
                _ => activity.state->0 == chart,
            }
        }),
{
}

/// A song that the dataset lacks is shown without a title, with its difficulty and the rating, whether
/// it lacked the song from the start or lacks it by now.
pub proof fn law_an_unknown_song_is_shown_without_a_title(
    id: i32,
    difficulty: i32,
    player_rating: Option<i32>,
    songs_by_id: Map<i32, Song>,
    config: types::ConfigView,
)
    requires
        !songs_by_id.contains_key(id),
    ensures
        ({
            let activity = state_activity(
                PresenceState::UnknownSong { difficulty, player_rating },
                songs_by_id,
                config,
            );
            &&& activity.details == "Playing a song"@
            &&& activity.state is Some
            &&& match (config.show_rating, rating_text(player_rating)) {
                (true, Some(rating)) => activity.state->0 == difficulty_name(difficulty) + " | "@
                    + rating,
                _ => activity.state->0 == difficulty_name(difficulty),
            }
            &&& state_activity(
                PresenceState::Song { id, difficulty, player_rating },
                songs_by_id,
                config,
            ) == activity
        }),
{
}

/// The presence while a song is being played carries the difficulty and the rating that were given,
/// for a song of the dataset and for any other, and it is never the one of song select.
pub proof fn law_the_playing_presence_carries_difficulty_and_rating(
    songs_by_id: Map<i32, Song>,
    song_id: Option<i32>,
    current_difficulty: i32,
    current_rating: Option<i32>,
)
    ensures
        match playing_state(songs_by_id, song_id, current_difficulty, current_rating) {
            PresenceState::Song { difficulty: shown, player_rating: rating, .. } => shown
                == current_difficulty && rating == current_rating,
            PresenceState::UnknownSong { difficulty: shown, player_rating: rating } => shown
                == current_difficulty && rating == current_rating,
            PresenceState::Default { .. } => false,
        },
{
}

/// The line on a new song names the song if the dataset has it, else its number.
pub proof fn law_the_line_on_a_song_names_it(
    songs_by_id: Map<i32, Song>,
    song_id: i32,
    last_song_id: i32,
)
    requires
        song_id != last_song_id,
    ensures
        song_id == -1 ==> song_change_lines(songs_by_id, Some(song_id), last_song_id) == seq![
            "Invalid Song ID while playing: "@ + text::decimal(-1),
        ],
        song_id != -1 && songs_by_id.contains_key(song_id) ==> song_change_lines(
            songs_by_id,
            Some(song_id),
            last_song_id,
        ) == seq![
            "Now playing: "@ + songs_by_id[song_id].title@ + " - "@ + songs_by_id[song_id].artist@,
        ],
        song_id != -1 && !songs_by_id.contains_key(song_id) ==> song_change_lines(
            songs_by_id,
            Some(song_id),
            last_song_id,
        ) == seq!["Song ID "@ + text::decimal(song_id as int) + " not found in dataset"@],
        song_change_lines(songs_by_id, None, last_song_id).len() == 0,
{
}

/// The log calls an update by what it shows, and says whether it was sent.
pub proof fn law_updates_are_logged_by_what_they_show(
    id: i32,
    difficulty: i32,
    player_rating: Option<i32>,
    songs_by_id: Map<i32, Song>,
    description: Seq<char>,
    reason: Seq<char>,
)
    ensures
        state_description(PresenceState::Default { player_rating }, songs_by_id)
            == "default presence (song select)"@,
        state_description(PresenceState::UnknownSong { difficulty, player_rating }, songs_by_id)
            == "unknown song ("@ + difficulty_name(difficulty) + ")"@,
        songs_by_id.contains_key(id) ==> state_description(
            PresenceState::Song { id, difficulty, player_rating },
            songs_by_id,
        ) == "song "@ + songs_by_id[id].title@ + " - "@ + songs_by_id[id].artist@ + " ("@
            + with_rating(
            difficulty_text(songs_by_id[id].chart_level(difficulty), difficulty),
            player_rating,
        ) + ")"@,
        !songs_by_id.contains_key(id) ==> state_description(
            PresenceState::Song { id, difficulty, player_rating },
            songs_by_id,
        ) == "song id "@ + text::decimal(id as int) + " missing from dataset ("@ + difficulty_name(
            difficulty,
        ) + ")"@,
        update_line(description, None) == "Discord presence updated: "@ + description,
        update_line(description, Some(reason)) == "Failed to update Discord RPC for "@ + description
            + ": "@ + reason,
{
}

/// The level in the label of a difficulty is that of the song's chart, if there is a song.
pub proof fn law_the_level_is_that_of_the_song(song: &Song, difficulty: i32)
    ensures
        level_of(Some(song), difficulty) == song.chart_level(difficulty),
        level_of(None, difficulty) is None,
{
}

} // verus!
