use chunirichpresence::hooks::{
    format_addr, format_optional_addr, hook_config, hook_kinds, log_hook_install_results, HookKind,
    HookState,
};
use chunirichpresence::journal::Journal;
use chunirichpresence::types::{HookInstallError, HookResolutionSource, InstalledHook, PatternByte};

fn installed(target_addr: usize, resolution_source: HookResolutionSource) -> InstalledHook {
    InstalledHook { target_addr, trampoline_addr: 0x20, stub_addr: 0x30, resolution_source }
}

#[test]
fn hooks_have_their_particulars() {
    let rvas: Vec<usize> =
        hook_kinds().into_iter().map(|kind| hook_config(kind).target.fallback_rva).collect();
    assert_eq!(rvas, vec![0x00965C35, 0x0085BB8A, 0x00F5C4CE, 0x00F5DDDC]);
    let names: Vec<&str> = hook_kinds().into_iter().map(|kind| hook_config(kind).name).collect();
    assert_eq!(names, vec!["song ID", "difficulty", "play-state enter", "play-state exit"]);
    let lengths: Vec<usize> =
        hook_kinds().into_iter().map(|kind| hook_config(kind).target.pattern.len()).collect();
    assert_eq!(lengths, vec![21, 24, 10, 8]);
    let exit = hook_config(HookKind::PlayStateExit);
    assert_eq!(exit.target.overwrite_len, 6);
    assert_eq!(
        exit.target.pattern,
        vec![
            PatternByte::Exact(0x89),
            PatternByte::Exact(0x1D),
            PatternByte::Any,
            PatternByte::Any,
            PatternByte::Any,
            PatternByte::Any,
            PatternByte::Exact(0x5F),
            PatternByte::Exact(0x5B),
        ]
    );
}

#[test]
fn addresses_are_written_in_hexadecimal() {
    assert_eq!(format_addr(0x85BB8A), "0x0085BB8A");
    assert_eq!(format_addr(0), "0x00000000");
    assert_eq!(format_optional_addr(0), "none");
    assert_eq!(format_optional_addr(0xABCDEF01), "0xABCDEF01");
}

#[test]
fn hook_is_begun_once() {
    let mut state = HookState::new();
    assert!(state.begin_install());
    assert!(!state.begin_install());
    assert_eq!(state.target_addr(), None);
    assert_eq!(state.resolution_source(), None);
}

#[test]
fn first_source_and_first_error_stay() {
    let mut state = HookState::new();
    state.store_install(installed(0x10, HookResolutionSource::PatternScan));
    state.store_install(installed(0x11, HookResolutionSource::HardcodedAddress));
    assert_eq!(state.target_addr(), Some(0x11));
    assert_eq!((state.trampoline, state.stub), (0x20, 0x30));
    assert_eq!(state.resolution_source(), Some(HookResolutionSource::PatternScan));
    state.store_error(HookInstallError::VirtualProtectFailed);
    state.store_error(HookInstallError::HookPatchOverflow);
    assert!(matches!(state.install_error, Some(HookInstallError::VirtualProtectFailed)));
}

#[test]
fn outcomes_are_logged() {
    let mut found = HookState::new();
    found.store_outcome(Ok(installed(0x965C35, HookResolutionSource::HardcodedAddress)));
    let mut failed = HookState::new();
    failed.store_outcome(Err(HookInstallError::HookSignatureNotFound("difficulty")));
    let statuses = vec![
        found.install_status(HookKind::SongId),
        failed.install_status(HookKind::Difficulty),
        HookState::new().install_status(HookKind::PlayStateExit),
    ];
    let mut log = Journal::new();
    log_hook_install_results(&statuses, &mut log);
    assert_eq!(
        log.into_lines(),
        vec![
            "Installed song ID hook at 0x00965C35".to_string(),
            "Failed to install difficulty hook: difficulty hook signature not found".to_string(),
        ]
    );
}

#[test]
fn errors_and_sources_have_their_words() {
    assert_eq!(
        HookInstallError::GameModuleHandleNotFound.message(),
        "game module handle not found"
    );
    assert_eq!(
        HookInstallError::RelativeJumpSourceOverflow.message(),
        "relative jump source overflowed"
    );
    assert_eq!(HookInstallError::RelativeJumpOutOfRange.message(), "relative jump out of range");
    assert_eq!(HookInstallError::HookPatchOverflow.message(), "hook patch overflowed");
    assert_eq!(
        HookInstallError::VirtualProtectFailed.message(),
        "VirtualProtect failed while patching hook"
    );
    assert_eq!(
        HookInstallError::ExecutableBlockAllocationFailed.message(),
        "VirtualAlloc failed for executable block"
    );
    assert_eq!(HookResolutionSource::HardcodedAddress.message(), "hardcoded address");
    assert_eq!(HookResolutionSource::PatternScan.message(), "pattern scan");
}
