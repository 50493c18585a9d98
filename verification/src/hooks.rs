//! The hooks in the game: where they go and how they are installed.

use crate::journal::Journal;
use crate::text;
use crate::types::{HookInstallError, HookResolutionSource, InstalledHook, PatternByte};
use vstd::prelude::*;
use vstd::string::*;

verus! {

/// Where the offset of the PE header stands in a module.
pub const PE_LFANEW_OFFSET: usize = 0x3C;

/// Where the size of the image stands in a PE header.
pub const PE_SIZE_OF_IMAGE_OFFSET: usize = 0x50;

/// The hooks, by what they capture.
#[derive(Copy, Clone, Debug, PartialEq, Eq, Structural)]
pub enum HookKind {
    SongId,
    Difficulty,
    PlayStateEnter,
    PlayStateExit,
}

/// Where a hook goes: how many bytes it displaces, where they are expected, and what they look like.
pub struct HookTargetConfig {
    pub overwrite_len: usize,
    pub fallback_rva: usize,
    pub pattern: Vec<PatternByte>,
}

/// A hook.
pub struct HookConfig {
    pub name: &'static str,
    pub target: HookTargetConfig,
    pub callback: HookKind,
}

/// These bytes and no others.
pub open spec fn exactly(bytes: Seq<u8>) -> Seq<PatternByte> {
    bytes.map_values(|byte: u8| PatternByte::Exact(byte))
}

/// Any `count` bytes.
pub open spec fn anything(count: nat) -> Seq<PatternByte> {
    Seq::new(count, |i: int| PatternByte::Any)
}

impl HookKind {
    /// What the log calls the hook.
    pub open spec fn name(self) -> &'static str {
        match self {
            HookKind::SongId => "song ID",
            HookKind::Difficulty => "difficulty",
            HookKind::PlayStateEnter => "play-state enter",
            HookKind::PlayStateExit => "play-state exit",
        }
    }

    /// How many bytes the hook displaces.
    pub open spec fn overwrite_len(self) -> usize {
        6
    }

    /// Where the displaced bytes are expected, counted from the start of the module.
    pub open spec fn fallback_rva(self) -> usize {
        match self {
            HookKind::SongId => 0x00965C35,
            HookKind::Difficulty => 0x0085BB8A,
            HookKind::PlayStateEnter => 0x00F5C4CE,
            HookKind::PlayStateExit => 0x00F5DDDC,
        }
    }

    /// What the place of the hook looks like.
    pub open spec fn pattern(self) -> Seq<PatternByte> {
        match self {
            HookKind::SongId => exactly(seq![0x83, 0xC4, 0x1C, 0x89, 0x46, 0x60, 0xE8])
                + anything(4) + exactly(seq![0x6A, 0x01, 0xE9]) + anything(4) + exactly(
                seq![0x8D, 0x46, 0x58],
            ),
            HookKind::Difficulty => exactly(
                seq![
                    0x88, 0x41, 0x14, 0x8B, 0x46, 0x18, 0x89, 0x41, 0x18, 0x8B, 0x46, 0x1C, 0x89,
                    0x41, 0x1C, 0x8B, 0x46, 0x20, 0x8D, 0x73, 0x08, 0x89, 0x41, 0x20,
                ],
            ),
            HookKind::PlayStateEnter => exactly(seq![0x89, 0x1D]) + anything(4) + exactly(
                seq![0x89, 0x70, 0x04, 0x5B],
            ),
            HookKind::PlayStateExit => exactly(seq![0x89, 0x1D]) + anything(4) + exactly(
                seq![0x5F, 0x5B],
            ),
        }
    }
}

fn push_exactly(pattern: &mut Vec<PatternByte>, bytes: &[u8])
    ensures
        final(pattern)@ == old(pattern)@ + exactly(bytes@),
{
    let mut i: usize = 0;
    while i < bytes.len()
        invariant
            i <= bytes.len(),
            pattern@ == old(pattern)@ + exactly(bytes@.take(i as int)),
        decreases bytes.len() - i,
    {
        pattern.push(PatternByte::Exact(bytes[i]));
        assert(pattern@ =~= old(pattern)@ + exactly(bytes@.take(i + 1)));
        i += 1;
    }
    assert(pattern@ =~= old(pattern)@ + exactly(bytes@));
}

fn push_anything(pattern: &mut Vec<PatternByte>, count: usize)
    ensures
        final(pattern)@ == old(pattern)@ + anything(count as nat),
{
    let mut i: usize = 0;
    while i < count
        invariant
            i <= count,
            pattern@ == old(pattern)@ + anything(i as nat),
        decreases count - i,
    {
        pattern.push(PatternByte::Any);
        i += 1;
        assert(pattern@ =~= old(pattern)@ + anything(i as nat));
    }
}

/// The hooks, in the order in which they are installed.
pub fn hook_kinds() -> (r: Vec<HookKind>)
    ensures
        r@ == seq![
            HookKind::SongId,
            HookKind::Difficulty,
            HookKind::PlayStateEnter,
            HookKind::PlayStateExit,
        ],
{
    let r = vec![
        HookKind::SongId,
        HookKind::Difficulty,
        HookKind::PlayStateEnter,
        HookKind::PlayStateExit,
    ];
    assert(r@ =~= seq![
        HookKind::SongId,
        HookKind::Difficulty,
        HookKind::PlayStateEnter,
        HookKind::PlayStateExit,
    ]);
    r
}

/// The particulars of a hook.
pub fn hook_config(kind: HookKind) -> (r: HookConfig)
    ensures
        r.name == kind.name(),
        r.target.overwrite_len == kind.overwrite_len(),
        r.target.fallback_rva == kind.fallback_rva(),
        r.target.pattern@ == kind.pattern(),
        r.callback == kind,
{
    let mut pattern: Vec<PatternByte> = Vec::new();
    let (name, fallback_rva): (&'static str, usize) = match kind {
        HookKind::SongId => {
            push_exactly(&mut pattern, &[0x83, 0xC4, 0x1C, 0x89, 0x46, 0x60, 0xE8]);
            push_anything(&mut pattern, 4);
            push_exactly(&mut pattern, &[0x6A, 0x01, 0xE9]);
            push_anything(&mut pattern, 4);
            push_exactly(&mut pattern, &[0x8D, 0x46, 0x58]);
            ("song ID", 0x00965C35)
        },
        HookKind::Difficulty => {
            push_exactly(
                &mut pattern,
                &[
                    0x88, 0x41, 0x14, 0x8B, 0x46, 0x18, 0x89, 0x41, 0x18, 0x8B, 0x46, 0x1C, 0x89,
                    0x41, 0x1C, 0x8B, 0x46, 0x20, 0x8D, 0x73, 0x08, 0x89, 0x41, 0x20,
                ],
            );
            ("difficulty", 0x0085BB8A)
        },
        HookKind::PlayStateEnter => {
            push_exactly(&mut pattern, &[0x89, 0x1D]);
            push_anything(&mut pattern, 4);
            push_exactly(&mut pattern, &[0x89, 0x70, 0x04, 0x5B]);
            ("play-state enter", 0x00F5C4CE)
        },
        HookKind::PlayStateExit => {
            push_exactly(&mut pattern, &[0x89, 0x1D]);
            push_anything(&mut pattern, 4);
            push_exactly(&mut pattern, &[0x5F, 0x5B]);
            ("play-state exit", 0x00F5DDDC)
        },
    };
    assert(pattern@ =~= kind.pattern());
    HookConfig {
        name,
        target: HookTargetConfig { overwrite_len: 6, fallback_rva, pattern },
        callback: kind,
    }
}

/// What is known of a hook.
#[derive(Copy, Clone, Debug)]
pub struct HookState {
    pub attempted: bool,
    pub installed: bool,
    pub target: usize,
    pub trampoline: usize,
    pub stub: usize,
    pub resolution_source: Option<HookResolutionSource>,
    pub install_error: Option<HookInstallError>,
}

/// `held`, or `new` if nothing is held yet.
pub open spec fn set_once<T>(held: Option<T>, new: T) -> Option<T> {
    match held {
        Some(value) => Some(value),
        None => Some(new),
    }
}

impl HookState {
    /// The state before any installation.
    pub open spec fn untried() -> HookState {
        HookState {
            attempted: false,
            installed: false,
            target: 0,
            trampoline: 0,
            stub: 0,
            resolution_source: None,
            install_error: None,
        }
    }

    /// The state with what an installation came to. How the place was found, and why the installation
    /// failed, are kept from the first time.
    pub open spec fn with_outcome(
        self,
        outcome: Result<InstalledHook, HookInstallError>,
    ) -> HookState {
        match outcome {
            Ok(install) => HookState {
                installed: true,
                target: install.target_addr,
                trampoline: install.trampoline_addr,
                stub: install.stub_addr,
                resolution_source: set_once(self.resolution_source, install.resolution_source),
                ..self
            },
            Err(error) => HookState {
                install_error: set_once(self.install_error, error),
                ..self
            },
        }
    }

    /// The outcome of the installation, for the log.
    pub open spec fn status(self, kind: HookKind) -> HookInstallStatus {
        HookInstallStatus {
            name: kind.name(),
            target_addr: if self.target == 0 {
                None
            } else {
                Some(self.target)
            },
            resolution_source: self.resolution_source,
            error: self.install_error,
        }
    }

    /// The state before any installation.
    pub fn new() -> (r: Self)
        ensures
            r == HookState::untried(),
    {
        HookState {
            attempted: false,
            installed: false,
            target: 0,
            trampoline: 0,
            stub: 0,
            resolution_source: None,
            install_error: None,
        }
    }

    /// Whether the hook is to be installed now: only the first time that this is asked.
    pub fn begin_install(&mut self) -> (r: bool)
        ensures
            r == !old(self).attempted,
            *final(self) == (HookState { attempted: true, ..*old(self) }),
    {
        let first = !self.attempted;
        self.attempted = true;
        first
    }

    /// Keeps where the hook is. How the place was found is kept from the first time.
    pub fn store_install(&mut self, install: InstalledHook)
        ensures
            *final(self) == old(self).with_outcome(Ok(install)),
    {
        self.installed = true;
        self.target = install.target_addr;
        self.trampoline = install.trampoline_addr;
        self.stub = install.stub_addr;
        if self.resolution_source.is_none() {
            self.resolution_source = Some(install.resolution_source);
        }
    }

    /// Keeps why the hook could not be installed. The first reason stays.
    pub fn store_error(&mut self, error: HookInstallError)
        ensures
            *final(self) == old(self).with_outcome(Err(error)),
    {
        if self.install_error.is_none() {
            self.install_error = Some(error);
        }
    }

    /// Keeps what an installation came to.
    pub fn store_outcome(&mut self, outcome: Result<InstalledHook, HookInstallError>)
        ensures
            *final(self) == old(self).with_outcome(outcome),
    {
        match outcome {
            Ok(install) => self.store_install(install),
            Err(error) => self.store_error(error),
        }
    }

    /// Where the hook is, if it is anywhere.
    pub fn target_addr(&self) -> (r: Option<usize>)
        ensures
            r == if self.target == 0 {
                None
            } else {
                Some(self.target)
            },
    {
        match self.target {
            0 => None,
            addr => Some(addr),
        }
    }

    /// How the place of the hook was found.
    pub fn resolution_source(&self) -> (r: Option<HookResolutionSource>)
        ensures
            r == self.resolution_source,
    {
        self.resolution_source
    }

    /// The outcome of the installation, for the log.
    pub fn install_status(&self, kind: HookKind) -> (r: HookInstallStatus)
        ensures
            r == self.status(kind),
    {
        HookInstallStatus {
            name: hook_config(kind).name,
            target_addr: self.target_addr(),
            resolution_source: self.resolution_source(),
            error: self.install_error,
        }
    }
}

/// The outcome of the installation of a hook.
#[derive(Copy, Clone, Debug)]
pub struct HookInstallStatus {
    pub name: &'static str,
    pub target_addr: Option<usize>,
    pub resolution_source: Option<HookResolutionSource>,
    pub error: Option<HookInstallError>,
}

/// An address in hexadecimal, with at least eight digits.
pub open spec fn addr_text(addr: usize) -> Seq<char> {
    "0x"@ + text::zero_padded(text::digits(addr as nat, 16), 8)
}

/// An address in hexadecimal, or `none` for zero.
pub open spec fn optional_addr_text(addr: usize) -> Seq<char> {
    if addr == 0 {
        "none"@
    } else {
        addr_text(addr)
    }
}

/// An address in hexadecimal, with at least eight digits.
pub fn format_addr(addr: usize) -> (r: String)
    ensures
        r@ == addr_text(addr),
{
    let mut out: String = "0x".to_owned();
    text::append_number(&mut out, addr as u64, 16, 8);
    out
}

/// An address in hexadecimal, or `none` for zero.
pub fn format_optional_addr(addr: usize) -> (r: String)
    ensures
        r@ == optional_addr_text(addr),
{
    if addr == 0 {
        "none".to_owned()
    } else {
        format_addr(addr)
    }
}

/// The line on the outcome of an installation; none while there is no outcome.
pub open spec fn install_lines(status: HookInstallStatus) -> Seq<Seq<char>> {
    match (status.error, status.target_addr) {
        (Some(error), _) => seq![
            "Failed to install "@ + status.name@ + " hook: "@ + error.text(),
        ],
        (None, Some(addr)) => seq!["Installed "@ + status.name@ + " hook at "@ + addr_text(addr)],
        (None, None) => Seq::empty(),
    }
}

/// The lines on the outcomes of several installations.
pub open spec fn all_install_lines(statuses: Seq<HookInstallStatus>) -> Seq<Seq<char>>
    decreases statuses.len(),
{
    if statuses.len() == 0 {
        Seq::empty()
    } else {
        all_install_lines(statuses.drop_last()) + install_lines(statuses.last())
    }
}

/// Puts the outcomes of the installations in the log.
pub fn log_hook_install_results(statuses: &Vec<HookInstallStatus>, log: &mut Journal)
    ensures
        final(log)@ == old(log)@ + all_install_lines(statuses@),
{
    let mut i: usize = 0;
    assert(log@ =~= old(log)@ + all_install_lines(statuses@.take(0)));
    while i < statuses.len()
        invariant
            i <= statuses.len(),
            log@ == old(log)@ + all_install_lines(statuses@.take(i as int)),
        decreases statuses.len() - i,
    {
        let status = statuses[i];
        let ghost before = log@;
        match (status.error, status.target_addr) {
            (Some(error), _) => log.record(
                "Failed to install ".to_owned().concat(status.name).concat(" hook: ").concat(
                    error.message().as_str(),
                ),
            ),
            (None, Some(addr)) => log.record(
                "Installed ".to_owned().concat(status.name).concat(" hook at ").concat(
                    format_addr(addr).as_str(),
                ),
            ),
            (None, None) => {},
        }
        proof {
            assert(log@ =~= before + install_lines(status));
            assert(statuses@.take(i + 1).drop_last() =~= statuses@.take(i as int));
            assert(log@ =~= old(log)@ + all_install_lines(statuses@.take(i + 1)));
        }
        i += 1;
    }
    assert(statuses@.take(statuses@.len() as int) =~= statuses@);
}

/// The song ID hook goes where these bytes are, each at its position, and nowhere else.
pub proof fn law_the_song_id_signature(bytes: Seq<u8>, at: int)
    ensures
        HookKind::SongId.pattern() == seq![
            PatternByte::Exact(0x83),
            PatternByte::Exact(0xC4),
            PatternByte::Exact(0x1C),
            PatternByte::Exact(0x89),
            PatternByte::Exact(0x46),
            PatternByte::Exact(0x60),
            PatternByte::Exact(0xE8),
            PatternByte::Any,
            PatternByte::Any,
            PatternByte::Any,
            PatternByte::Any,
            PatternByte::Exact(0x6A),
            PatternByte::Exact(0x01),
            PatternByte::Exact(0xE9),
            PatternByte::Any,
            PatternByte::Any,
            PatternByte::Any,
            PatternByte::Any,
            PatternByte::Exact(0x8D),
            PatternByte::Exact(0x46),
            PatternByte::Exact(0x58),
        ],
        crate::code::matches_at(bytes, at, HookKind::SongId.pattern()) <==> {
            &&& 0 <= at
            &&& at + 21 <= bytes.len()
            &&& bytes[at + 0] == 0x83
            &&& bytes[at + 1] == 0xC4
            &&& bytes[at + 2] == 0x1C
            &&& bytes[at + 3] == 0x89
            &&& bytes[at + 4] == 0x46
            &&& bytes[at + 5] == 0x60
            &&& bytes[at + 6] == 0xE8
            &&& bytes[at + 11] == 0x6A
            &&& bytes[at + 12] == 0x01
            &&& bytes[at + 13] == 0xE9
            &&& bytes[at + 18] == 0x8D
            &&& bytes[at + 19] == 0x46
            &&& bytes[at + 20] == 0x58
        },
{
    let pattern = HookKind::SongId.pattern();
    assert(pattern =~= seq![
        PatternByte::Exact(0x83),
        PatternByte::Exact(0xC4),
        PatternByte::Exact(0x1C),
        PatternByte::Exact(0x89),
        PatternByte::Exact(0x46),
        PatternByte::Exact(0x60),
        PatternByte::Exact(0xE8),
        PatternByte::Any,
        PatternByte::Any,
        PatternByte::Any,
        PatternByte::Any,
        PatternByte::Exact(0x6A),
        PatternByte::Exact(0x01),
        PatternByte::Exact(0xE9),
        PatternByte::Any,
        PatternByte::Any,
        PatternByte::Any,
        PatternByte::Any,
        PatternByte::Exact(0x8D),
        PatternByte::Exact(0x46),
        PatternByte::Exact(0x58),
    ]);
    assert(pattern.len() == 21);
    assert(pattern[0] == PatternByte::Exact(0x83));
    assert(pattern[1] == PatternByte::Exact(0xC4));
    assert(pattern[2] == PatternByte::Exact(0x1C));
    assert(pattern[3] == PatternByte::Exact(0x89));
    assert(pattern[4] == PatternByte::Exact(0x46));
    assert(pattern[5] == PatternByte::Exact(0x60));
    assert(pattern[6] == PatternByte::Exact(0xE8));
    assert(pattern[7] == PatternByte::Any);
    assert(pattern[8] == PatternByte::Any);
    assert(pattern[9] == PatternByte::Any);
    assert(pattern[10] == PatternByte::Any);
    assert(pattern[11] == PatternByte::Exact(0x6A));
    assert(pattern[12] == PatternByte::Exact(0x01));
    assert(pattern[13] == PatternByte::Exact(0xE9));
    assert(pattern[14] == PatternByte::Any);
    assert(pattern[15] == PatternByte::Any);
    assert(pattern[16] == PatternByte::Any);
    assert(pattern[17] == PatternByte::Any);
    assert(pattern[18] == PatternByte::Exact(0x8D));
    assert(pattern[19] == PatternByte::Exact(0x46));
    assert(pattern[20] == PatternByte::Exact(0x58));
}

/// The difficulty hook goes where these bytes are, each at its position, and nowhere else.
pub proof fn law_the_difficulty_signature(bytes: Seq<u8>, at: int)
    ensures
        HookKind::Difficulty.pattern() == seq![
            PatternByte::Exact(0x88),
            PatternByte::Exact(0x41),
            PatternByte::Exact(0x14),
            PatternByte::Exact(0x8B),
            PatternByte::Exact(0x46),
            PatternByte::Exact(0x18),
            PatternByte::Exact(0x89),
            PatternByte::Exact(0x41),
            PatternByte::Exact(0x18),
            PatternByte::Exact(0x8B),
            PatternByte::Exact(0x46),
            PatternByte::Exact(0x1C),
            PatternByte::Exact(0x89),
            PatternByte::Exact(0x41),
            PatternByte::Exact(0x1C),
            PatternByte::Exact(0x8B),
            PatternByte::Exact(0x46),
            PatternByte::Exact(0x20),
            PatternByte::Exact(0x8D),
            PatternByte::Exact(0x73),
            PatternByte::Exact(0x08),
            PatternByte::Exact(0x89),
            PatternByte::Exact(0x41),
            PatternByte::Exact(0x20),
        ],
        crate::code::matches_at(bytes, at, HookKind::Difficulty.pattern()) <==> {
            &&& 0 <= at
            &&& at + 24 <= bytes.len()
            &&& bytes[at + 0] == 0x88
            &&& bytes[at + 1] == 0x41
            &&& bytes[at + 2] == 0x14
            &&& bytes[at + 3] == 0x8B
            &&& bytes[at + 4] == 0x46
            &&& bytes[at + 5] == 0x18
            &&& bytes[at + 6] == 0x89
            &&& bytes[at + 7] == 0x41
            &&& bytes[at + 8] == 0x18
            &&& bytes[at + 9] == 0x8B
            &&& bytes[at + 10] == 0x46
            &&& bytes[at + 11] == 0x1C
            &&& bytes[at + 12] == 0x89
            &&& bytes[at + 13] == 0x41
            &&& bytes[at + 14] == 0x1C
            &&& bytes[at + 15] == 0x8B
            &&& bytes[at + 16] == 0x46
            &&& bytes[at + 17] == 0x20
            &&& bytes[at + 18] == 0x8D
            &&& bytes[at + 19] == 0x73
            &&& bytes[at + 20] == 0x08
            &&& bytes[at + 21] == 0x89
            &&& bytes[at + 22] == 0x41
            &&& bytes[at + 23] == 0x20
        },
{
    let pattern = HookKind::Difficulty.pattern();
    assert(pattern =~= seq![
        PatternByte::Exact(0x88),
        PatternByte::Exact(0x41),
        PatternByte::Exact(0x14),
        PatternByte::Exact(0x8B),
        PatternByte::Exact(0x46),
        PatternByte::Exact(0x18),
        PatternByte::Exact(0x89),
        PatternByte::Exact(0x41),
        PatternByte::Exact(0x18),
        PatternByte::Exact(0x8B),
        PatternByte::Exact(0x46),
        PatternByte::Exact(0x1C),
        PatternByte::Exact(0x89),
        PatternByte::Exact(0x41),
        PatternByte::Exact(0x1C),
        PatternByte::Exact(0x8B),
        PatternByte::Exact(0x46),
        PatternByte::Exact(0x20),
        PatternByte::Exact(0x8D),
        PatternByte::Exact(0x73),
        PatternByte::Exact(0x08),
        PatternByte::Exact(0x89),
        PatternByte::Exact(0x41),
        PatternByte::Exact(0x20),
    ]);
    assert(pattern.len() == 24);
    assert(pattern[0] == PatternByte::Exact(0x88));
    assert(pattern[1] == PatternByte::Exact(0x41));
    assert(pattern[2] == PatternByte::Exact(0x14));
    assert(pattern[3] == PatternByte::Exact(0x8B));
    assert(pattern[4] == PatternByte::Exact(0x46));
    assert(pattern[5] == PatternByte::Exact(0x18));
    assert(pattern[6] == PatternByte::Exact(0x89));
    assert(pattern[7] == PatternByte::Exact(0x41));
    assert(pattern[8] == PatternByte::Exact(0x18));
    assert(pattern[9] == PatternByte::Exact(0x8B));
    assert(pattern[10] == PatternByte::Exact(0x46));
    assert(pattern[11] == PatternByte::Exact(0x1C));
    assert(pattern[12] == PatternByte::Exact(0x89));
    assert(pattern[13] == PatternByte::Exact(0x41));
    assert(pattern[14] == PatternByte::Exact(0x1C));
    assert(pattern[15] == PatternByte::Exact(0x8B));
    assert(pattern[16] == PatternByte::Exact(0x46));
    assert(pattern[17] == PatternByte::Exact(0x20));
    assert(pattern[18] == PatternByte::Exact(0x8D));
    assert(pattern[19] == PatternByte::Exact(0x73));
    assert(pattern[20] == PatternByte::Exact(0x08));
    assert(pattern[21] == PatternByte::Exact(0x89));
    assert(pattern[22] == PatternByte::Exact(0x41));
    assert(pattern[23] == PatternByte::Exact(0x20));
}

/// The play-state enter hook goes where these bytes are, each at its position, and nowhere else.
pub proof fn law_the_play_state_enter_signature(bytes: Seq<u8>, at: int)
    ensures
        HookKind::PlayStateEnter.pattern() == seq![
            PatternByte::Exact(0x89),
            PatternByte::Exact(0x1D),
            PatternByte::Any,
            PatternByte::Any,
            PatternByte::Any,
            PatternByte::Any,
            PatternByte::Exact(0x89),
            PatternByte::Exact(0x70),
            PatternByte::Exact(0x04),
            PatternByte::Exact(0x5B),
        ],
        crate::code::matches_at(bytes, at, HookKind::PlayStateEnter.pattern()) <==> {
            &&& 0 <= at
            &&& at + 10 <= bytes.len()
            &&& bytes[at + 0] == 0x89
            &&& bytes[at + 1] == 0x1D
            &&& bytes[at + 6] == 0x89
            &&& bytes[at + 7] == 0x70
            &&& bytes[at + 8] == 0x04
            &&& bytes[at + 9] == 0x5B
        },
{
    let pattern = HookKind::PlayStateEnter.pattern();
    assert(pattern =~= seq![
        PatternByte::Exact(0x89),
        PatternByte::Exact(0x1D),
        PatternByte::Any,
        PatternByte::Any,
        PatternByte::Any,
        PatternByte::Any,
        PatternByte::Exact(0x89),
        PatternByte::Exact(0x70),
        PatternByte::Exact(0x04),
        PatternByte::Exact(0x5B),
    ]);
    assert(pattern.len() == 10);
    assert(pattern[0] == PatternByte::Exact(0x89));
    assert(pattern[1] == PatternByte::Exact(0x1D));
    assert(pattern[2] == PatternByte::Any);
    assert(pattern[3] == PatternByte::Any);
    assert(pattern[4] == PatternByte::Any);
    assert(pattern[5] == PatternByte::Any);
    assert(pattern[6] == PatternByte::Exact(0x89));
    assert(pattern[7] == PatternByte::Exact(0x70));
    assert(pattern[8] == PatternByte::Exact(0x04));
    assert(pattern[9] == PatternByte::Exact(0x5B));
}

/// The play-state exit hook goes where these bytes are, each at its position, and nowhere else.
pub proof fn law_the_play_state_exit_signature(bytes: Seq<u8>, at: int)
    ensures
        HookKind::PlayStateExit.pattern() == seq![
            PatternByte::Exact(0x89),
            PatternByte::Exact(0x1D),
            PatternByte::Any,
            PatternByte::Any,
            PatternByte::Any,
            PatternByte::Any,
            PatternByte::Exact(0x5F),
            PatternByte::Exact(0x5B),
        ],
        crate::code::matches_at(bytes, at, HookKind::PlayStateExit.pattern()) <==> {
            &&& 0 <= at
            &&& at + 8 <= bytes.len()
            &&& bytes[at + 0] == 0x89
            &&& bytes[at + 1] == 0x1D
            &&& bytes[at + 6] == 0x5F
            &&& bytes[at + 7] == 0x5B
        },
{
    let pattern = HookKind::PlayStateExit.pattern();
    assert(pattern =~= seq![
        PatternByte::Exact(0x89),
        PatternByte::Exact(0x1D),
        PatternByte::Any,
        PatternByte::Any,
        PatternByte::Any,
        PatternByte::Any,
        PatternByte::Exact(0x5F),
        PatternByte::Exact(0x5B),
    ]);
    assert(pattern.len() == 8);
    assert(pattern[0] == PatternByte::Exact(0x89));
    assert(pattern[1] == PatternByte::Exact(0x1D));
    assert(pattern[2] == PatternByte::Any);
    assert(pattern[3] == PatternByte::Any);
    assert(pattern[4] == PatternByte::Any);
    assert(pattern[5] == PatternByte::Any);
    assert(pattern[6] == PatternByte::Exact(0x5F));
    assert(pattern[7] == PatternByte::Exact(0x5B));
}

/// Each hook has its name and its expected place, and displaces six bytes.
pub proof fn law_hooks_have_their_places(kind: HookKind)
    ensures
        kind.overwrite_len() == 6,
        match kind {
            HookKind::SongId => kind.name()@ == "song ID"@ && kind.fallback_rva() == 0x965C35,
            HookKind::Difficulty => kind.name()@ == "difficulty"@ && kind.fallback_rva()
                == 0x85BB8A,
            HookKind::PlayStateEnter => kind.name()@ == "play-state enter"@ && kind.fallback_rva()
                == 0xF5C4CE,
            HookKind::PlayStateExit => kind.name()@ == "play-state exit"@ && kind.fallback_rva()
                == 0xF5DDDC,
        },
        PE_LFANEW_OFFSET == 0x3C,
        PE_SIZE_OF_IMAGE_OFFSET == 0x50,
{
}

/// What an installation came to is what is known of the hook from then on: where it is and how that
/// place was found, or why there is none. An outcome says nothing of the rest, and what was known
/// first of the source and of the error stays.
pub proof fn law_outcomes_are_kept(
    state: HookState,
    install: InstalledHook,
    error: HookInstallError,
)
    ensures
        ({
            let installed = state.with_outcome(Ok(install));
            &&& installed.installed
            &&& installed.target == install.target_addr
            &&& installed.trampoline == install.trampoline_addr
            &&& installed.stub == install.stub_addr
            &&& state.resolution_source is None ==> installed.resolution_source == Some(
                install.resolution_source,
            )
            &&& state.resolution_source is Some ==> installed.resolution_source
                == state.resolution_source
            &&& installed.install_error == state.install_error
            &&& installed.attempted == state.attempted
        }),
        ({
            let failed = state.with_outcome(Err(error));
            &&& state.install_error is None ==> failed.install_error == Some(error)
            &&& state.install_error is Some ==> failed.install_error == state.install_error
            &&& failed.installed == state.installed
            &&& failed.target == state.target
            &&& failed.trampoline == state.trampoline
            &&& failed.stub == state.stub
            &&& failed.resolution_source == state.resolution_source
            &&& failed.attempted == state.attempted
        }),
{
}

/// The report on a hook gives its name, its place unless that is zero, and what else is known.
pub proof fn law_the_report_on_a_hook(state: HookState, kind: HookKind)
    ensures
        state.status(kind).name == kind.name(),
        state.target == 0 ==> state.status(kind).target_addr is None,
        state.target != 0 ==> state.status(kind).target_addr == Some(state.target),
        state.status(kind).resolution_source == state.resolution_source,
        state.status(kind).error == state.install_error,
        !HookState::untried().attempted && !HookState::untried().installed,
        HookState::untried().status(kind).target_addr is None,
        HookState::untried().status(kind).error is None,
{
}

/// An address is written as `0x` and at least eight hexadecimal digits that write it; the address zero
/// of a hook is written as `none`.
#[verifier::spinoff_prover]
pub proof fn law_addresses_read_back(addr: usize)
    ensures
        ({
            let written = addr_text(addr);
            &&& written.len() >= 10
            &&& written[0] == '0' && written[1] == 'x'
            &&& text::number_in_base(written.skip(2), 16) == addr
            &&& forall|i: int|
                2 <= i < written.len() ==> 0 <= text::digit_value(#[trigger] written[i]) < 16
            &&& written.len() > 10 ==> written[2] != '0'
        }),
        addr == 0 ==> optional_addr_text(addr) == "none"@,
        addr != 0 ==> optional_addr_text(addr) == addr_text(addr),
{
    reveal_strlit("0x");
    let padded = text::zero_padded(text::digits(addr as nat, 16), 8);
    let written = addr_text(addr);
    text::law_padded_digits_write_the_number(addr as nat, 16, 8);
    assert(written.skip(2) =~= padded);
    assert forall|i: int| 2 <= i < written.len() implies 0 <= text::digit_value(
        #[trigger] written[i],
    ) < 16 by {
        assert(written[i] == padded[i - 2]);
    }
    if written.len() > 10 {
        assert(written[2] == padded[0]);
    }
}

/// The line on an installation names the hook and gives the error, if there is one, else the place;
/// the lines on several come in their order.
pub proof fn law_installations_are_logged(
    statuses: Seq<HookInstallStatus>,
    status: HookInstallStatus,
)
    ensures
        status.error matches Some(error) ==> install_lines(status) == seq![
            "Failed to install "@ + status.name@ + " hook: "@ + error.text(),
        ],
        status.error is None && status.target_addr is Some ==> install_lines(status) == seq![
            "Installed "@ + status.name@ + " hook at "@ + addr_text(status.target_addr->0),
        ],
        status.error is None && status.target_addr is None ==> install_lines(status).len() == 0,
        all_install_lines(Seq::empty()).len() == 0,
        all_install_lines(statuses.push(status)) == all_install_lines(statuses) + install_lines(
            status,
        ),
{
    assert(statuses.push(status).drop_last() =~= statuses);
}

} // verus!
