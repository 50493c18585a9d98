//! The data that the other modules share.

use vstd::prelude::*;
use vstd::string::*;

verus! {

/// The level of one chart of a song.
#[derive(Clone, Debug)]
pub struct ChartLevel {
    pub difficulty: i32,
    pub level: String,
}

/// A song of the dataset.
#[derive(Clone, Debug)]
pub struct Song {
    pub id: String,
    pub title: String,
    pub artist: String,
    pub chart_levels: Vec<ChartLevel>,
}

impl Song {
    /// The level of the first chart with this difficulty.
    pub open spec fn chart_level(&self, difficulty: i32) -> Option<Seq<char>> {
        chart_level_in(self.chart_levels@, difficulty)
    }

    /// The level of the first chart with this difficulty, if the dataset gives one.
    pub fn chart_level_for_difficulty(&self, difficulty: i32) -> (r: Option<&String>)
        ensures
            match r {
                Some(level) => self.chart_level(difficulty) == Some(level@),
                None => self.chart_level(difficulty) is None,
            },
    {
        let mut i: usize = 0;
        assert(self.chart_levels@.skip(0) =~= self.chart_levels@);
        while i < self.chart_levels.len()
            invariant
                i <= self.chart_levels.len(),
                chart_level_in(self.chart_levels@.skip(i as int), difficulty) == self.chart_level(
                    difficulty,
                ),
            decreases self.chart_levels.len() - i,
        {
            if self.chart_levels[i].difficulty == difficulty {
                return Some(&self.chart_levels[i].level);
            }
            assert(self.chart_levels@.skip(i as int).drop_first() =~= self.chart_levels@.skip(
                i + 1,
            ));
            i += 1;
        }
        None
    }
}

/// The level of the first chart in `charts` with this difficulty.
pub open spec fn chart_level_in(charts: Seq<ChartLevel>, difficulty: i32) -> Option<Seq<char>>
    decreases charts.len(),
{
    if charts.len() == 0 {
        None
    } else if charts.first().difficulty == difficulty {
        Some(charts.first().level@)
    } else {
        chart_level_in(charts.drop_first(), difficulty)
    }
}

/// Image shown while no song is being played.
pub const DEFAULT_LOGO_URL: &'static str = "https://chunithm.org/assets/logo.png";

/// Name shown for the game.
pub const DEFAULT_GAME_NAME: &'static str = "Chunithm";

/// Discord application that the presence is sent for.
pub const DEFAULT_DISCORD_APP_ID: &'static str = "1482780703128289493";

/// What the user can configure.
#[derive(Clone, Debug)]
pub struct RichPresenceConfig {
    pub logo_url: String,
    pub game_name: String,
    pub discord_app_id: String,
    pub show_rating: bool,
}

/// The configuration as mathematical values.
#[verifier::ext_equal]
pub struct ConfigView {
    pub logo_url: Seq<char>,
    pub game_name: Seq<char>,
    pub discord_app_id: Seq<char>,
    pub show_rating: bool,
}

/// The built-in configuration.
pub open spec fn default_config() -> ConfigView {
    ConfigView {
        logo_url: DEFAULT_LOGO_URL@,
        game_name: DEFAULT_GAME_NAME@,
        discord_app_id: DEFAULT_DISCORD_APP_ID@,
        show_rating: true,
    }
}

impl View for RichPresenceConfig {
    type V = ConfigView;

    open spec fn view(&self) -> ConfigView {
        ConfigView {
            logo_url: self.logo_url@,
            game_name: self.game_name@,
            discord_app_id: self.discord_app_id@,
            show_rating: self.show_rating,
        }
    }
}

impl Default for RichPresenceConfig {
    fn default() -> (r: Self)
        ensures
            r@ == default_config(),
    {
        RichPresenceConfig {
            logo_url: DEFAULT_LOGO_URL.to_owned(),
            game_name: DEFAULT_GAME_NAME.to_owned(),
            discord_app_id: DEFAULT_DISCORD_APP_ID.to_owned(),
            show_rating: true,
        }
    }
}

/// What Discord is to show.
#[derive(Copy, Clone, Debug, PartialEq, Eq, Structural)]
pub enum PresenceState {
    Default { player_rating: Option<i32> },
    UnknownSong { difficulty: i32, player_rating: Option<i32> },
    Song { id: i32, difficulty: i32, player_rating: Option<i32> },
}

/// One byte of a pattern.
#[derive(Copy, Clone, Debug, PartialEq, Eq, Structural)]
pub enum PatternByte {
    Exact(u8),
    Any,
}

/// Why a hook could not be installed.
#[derive(Copy, Clone, Debug)]
pub enum HookInstallError {
    GameModuleHandleNotFound,
    HookSignatureNotFound(&'static str),
    RelativeJumpSourceOverflow,
    RelativeJumpOutOfRange,
    HookPatchOverflow,
    VirtualProtectFailed,
    ExecutableBlockAllocationFailed,
}

impl HookInstallError {
    /// The error in words.
    pub open spec fn text(self) -> Seq<char> {
        match self {
            HookInstallError::GameModuleHandleNotFound => "game module handle not found"@,
            HookInstallError::HookSignatureNotFound(name) => name@ + " hook signature not found"@,
            HookInstallError::RelativeJumpSourceOverflow => "relative jump source overflowed"@,
            HookInstallError::RelativeJumpOutOfRange => "relative jump out of range"@,
            HookInstallError::HookPatchOverflow => "hook patch overflowed"@,
            HookInstallError::VirtualProtectFailed => "VirtualProtect failed while patching hook"@,
            HookInstallError::ExecutableBlockAllocationFailed => {
                "VirtualAlloc failed for executable block"@
            },
        }
    }

    /// The error in words.
    pub fn message(self) -> (r: String)
        ensures
            r@ == self.text(),
    {
        match self {
            HookInstallError::GameModuleHandleNotFound => "game module handle not found".to_owned(),
            HookInstallError::HookSignatureNotFound(name) => name.to_owned().concat(
                " hook signature not found",
            ),
            HookInstallError::RelativeJumpSourceOverflow => {
                "relative jump source overflowed".to_owned()
            },
            HookInstallError::RelativeJumpOutOfRange => "relative jump out of range".to_owned(),
            HookInstallError::HookPatchOverflow => "hook patch overflowed".to_owned(),
            HookInstallError::VirtualProtectFailed => {
                "VirtualProtect failed while patching hook".to_owned()
            },
            HookInstallError::ExecutableBlockAllocationFailed => {
                "VirtualAlloc failed for executable block".to_owned()
            },
        }
    }
}

/// How the place of a hook was found.
#[derive(Copy, Clone, Debug, PartialEq, Eq, Structural)]
pub enum HookResolutionSource {
    HardcodedAddress,
    PatternScan,
}

impl HookResolutionSource {
    /// The source in words.
    pub open spec fn text(self) -> Seq<char> {
        match self {
            HookResolutionSource::HardcodedAddress => "hardcoded address"@,
            HookResolutionSource::PatternScan => "pattern scan"@,
        }
    }

    /// The source in words.
    pub fn message(self) -> (r: String)
        ensures
            r@ == self.text(),
    {
        match self {
            HookResolutionSource::HardcodedAddress => "hardcoded address".to_owned(),
            HookResolutionSource::PatternScan => "pattern scan".to_owned(),
        }
    }
}

/// A hook that is in place.
#[derive(Copy, Clone, Debug)]
pub struct InstalledHook {
    pub target_addr: usize,
    pub trampoline_addr: usize,
    pub stub_addr: usize,
    pub resolution_source: HookResolutionSource,
}

/// The level of a difficulty is that of the first chart with this difficulty; without such a chart
/// there is none.
pub proof fn law_the_first_chart_of_a_difficulty_counts(
    charts: Seq<ChartLevel>,
    difficulty: i32,
    i: int,
)
    requires
        0 <= i <= charts.len(),
        forall|j: int| 0 <= j < i ==> (#[trigger] charts[j]).difficulty != difficulty,
    ensures
        i < charts.len() && charts[i].difficulty == difficulty ==> chart_level_in(
            charts,
            difficulty,
        ) == Some(charts[i].level@),
        i == charts.len() ==> chart_level_in(charts, difficulty) is None,
    decreases charts.len(),
{
    if i > 0 {
        assert(charts[0].difficulty != difficulty);
        let rest = charts.drop_first();
        assert forall|j: int| 0 <= j < i - 1 implies (#[trigger] rest[j]).difficulty
            != difficulty by {
            assert(rest[j] == charts[j + 1]);
        }
        law_the_first_chart_of_a_difficulty_counts(rest, difficulty, i - 1);
        if i < charts.len() {
            assert(rest[i - 1] == charts[i]);
        }
    }
}

/// Without a file the presence is that of Chunithm, with its logo, for the provided application, and
/// with the rating.
pub proof fn law_the_built_in_configuration()
    ensures
        default_config().game_name == "Chunithm"@,
        default_config().logo_url == "https://chunithm.org/assets/logo.png"@,
        default_config().discord_app_id == "1482780703128289493"@,
        default_config().show_rating,
{
}

/// The level that a song gives for a difficulty is that of its first chart with this difficulty.
pub proof fn law_a_song_gives_the_level_of_its_chart(song: Song, difficulty: i32, i: int)
    requires
        0 <= i <= song.chart_levels@.len(),
        forall|j: int|
            0 <= j < i ==> (#[trigger] song.chart_levels@[j]).difficulty != difficulty,
    ensures
        i < song.chart_levels@.len() && song.chart_levels@[i].difficulty == difficulty
            ==> song.chart_level(difficulty) == Some(song.chart_levels@[i].level@),
        i == song.chart_levels@.len() ==> song.chart_level(difficulty) is None,
{
    law_the_first_chart_of_a_difficulty_counts(song.chart_levels@, difficulty, i);
}

/// Every error has words of its own, and a missing signature names its hook.
pub proof fn law_errors_have_their_words(name: &'static str)
    ensures
        HookInstallError::GameModuleHandleNotFound.text() == "game module handle not found"@,
        HookInstallError::HookSignatureNotFound(name).text() == name@
            + " hook signature not found"@,
        HookInstallError::RelativeJumpSourceOverflow.text() == "relative jump source overflowed"@,
        HookInstallError::RelativeJumpOutOfRange.text() == "relative jump out of range"@,
        HookInstallError::HookPatchOverflow.text() == "hook patch overflowed"@,
        HookInstallError::VirtualProtectFailed.text()
            == "VirtualProtect failed while patching hook"@,
        HookInstallError::ExecutableBlockAllocationFailed.text()
            == "VirtualAlloc failed for executable block"@,
        HookResolutionSource::HardcodedAddress.text() == "hardcoded address"@,
        HookResolutionSource::PatternScan.text() == "pattern scan"@,
{
}

} // verus!
