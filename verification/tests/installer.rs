use chunirichpresence::hooks::{HookKind, HookState};
use chunirichpresence::installer::{HookInstaller, InstallEvent, InstallRequest};
use chunirichpresence::runtime_hooks::{RuntimeHooks, HOOK_COUNT};
use chunirichpresence::types::{HookInstallError, HookResolutionSource, InstalledHook};
use std::collections::BTreeMap;

const BASE: usize = 0x0040_0000;
const READ_ONLY: u32 = 0x20;
const WRITABLE: u32 = 0x40;
const EXIT_CODE: [u8; 8] = [0x89, 0x1D, 1, 2, 3, 4, 0x5F, 0x5B];

/// A process with a game module and memory that can be allocated.
struct Machine {
    module: Option<usize>,
    memory: BTreeMap<usize, u8>,
    next_block: usize,
    protection: u32,
    protect_works: bool,
}

impl Machine {
    fn new(image_size: u32) -> Self {
        let mut machine = Machine {
            module: Some(BASE),
            memory: BTreeMap::new(),
            next_block: 0x0300_0000,
            protection: READ_ONLY,
            protect_works: true,
        };
        machine.write(BASE + 0x3C, &0x80u32.to_le_bytes());
        machine.write(BASE + 0x80 + 0x50, &image_size.to_le_bytes());
        machine
    }

    fn write(&mut self, addr: usize, bytes: &[u8]) {
        for (i, byte) in bytes.iter().enumerate() {
            self.memory.insert(addr + i, *byte);
        }
    }

    fn read(&self, addr: usize, len: usize) -> Vec<u8> {
        (addr..addr + len).map(|a| self.memory.get(&a).copied().unwrap_or(0)).collect()
    }

    fn word(&self, addr: usize) -> u32 {
        let bytes = self.read(addr, 4);
        u32::from_le_bytes([bytes[0], bytes[1], bytes[2], bytes[3]])
    }

    fn answer(&mut self, request: InstallRequest, take: &mut dyn FnMut(InstallEvent)) {
        match request {
            InstallRequest::FindModule => take(InstallEvent::Module(self.module)),
            InstallRequest::ReadBytes { addr, len } => {
                let bytes = self.read(addr, len);
                take(InstallEvent::Bytes(&bytes))
            }
            InstallRequest::ReadWord { addr } => take(InstallEvent::Word(Some(self.word(addr)))),
            InstallRequest::Allocate { size } => {
                let addr = self.next_block;
                if addr != 0 {
                    self.next_block += (size + 0xFFFF) & !0xFFFF;
                }
                take(InstallEvent::Allocated(addr))
            }
            InstallRequest::Write { addr, bytes } => {
                assert!(addr >= 0x0300_0000 || self.protection == WRITABLE);
                self.write(addr, &bytes);
                take(InstallEvent::Written)
            }
            InstallRequest::Unprotect { .. } => {
                let earlier = self.protection;
                if self.protect_works {
                    self.protection = WRITABLE;
                    take(InstallEvent::Unprotected(Some(earlier)))
                } else {
                    take(InstallEvent::Unprotected(None))
                }
            }
            InstallRequest::Restore { protection, .. } => {
                self.protection = protection;
                take(InstallEvent::Restored)
            }
            InstallRequest::Finished { .. } => panic!("nothing is asked for at the end"),
        }
    }

    fn install(&mut self, kind: HookKind) -> Result<InstalledHook, HookInstallError> {
        let mut installer = HookInstaller::new(kind, 0x1234_5678);
        for _ in 0..13 {
            if let Some(outcome) = installer.outcome() {
                return outcome;
            }
            let request = installer.request();
            self.answer(request, &mut |event| installer.advance(event));
        }
        installer.outcome().expect("an installation ends after thirteen operations")
    }

    fn jump(&self, addr: usize) -> usize {
        assert_eq!(self.read(addr, 1), vec![0xE9]);
        addr.wrapping_add(5).wrapping_add(self.word(addr + 1) as i32 as isize as usize)
    }
}

#[test]
fn hook_goes_to_the_expected_place() {
    let mut machine = Machine::new(0x1000);
    let target = BASE + 0x00F5DDDC;
    machine.write(target, &EXIT_CODE);
    let hook = machine.install(HookKind::PlayStateExit).unwrap();
    assert_eq!(hook.target_addr, target);
    assert_eq!(hook.resolution_source, HookResolutionSource::HardcodedAddress);
    assert_eq!(machine.jump(target), hook.stub_addr);
    assert_eq!(machine.read(target + 5, 3), vec![0x90, 0x5F, 0x5B]);
    assert_eq!(
        machine.read(hook.stub_addr, 10),
        vec![0x60, 0x54, 0xB8, 0x78, 0x56, 0x34, 0x12, 0xFF, 0xD0, 0x61]
    );
    assert_eq!(machine.jump(hook.stub_addr + 10), hook.trampoline_addr);
    assert_eq!(machine.read(hook.trampoline_addr, 6), EXIT_CODE[..6].to_vec());
    assert_eq!(machine.jump(hook.trampoline_addr + 6), target + 6);
    assert_eq!(machine.protection, READ_ONLY);
}

#[test]
fn hook_goes_to_the_first_match_in_the_image() {
    let mut machine = Machine::new(0x1000);
    machine.write(BASE + 0x400, &EXIT_CODE);
    machine.write(BASE + 0x300, &EXIT_CODE);
    let hook = machine.install(HookKind::PlayStateExit).unwrap();
    assert_eq!(hook.target_addr, BASE + 0x300);
    assert_eq!(hook.resolution_source, HookResolutionSource::PatternScan);
}

#[test]
fn hook_without_a_place_is_not_installed() {
    let mut machine = Machine::new(0x1000);
    let before = machine.memory.clone();
    match machine.install(HookKind::SongId) {
        Err(HookInstallError::HookSignatureNotFound(name)) => assert_eq!(name, "song ID"),
        other => panic!("{:?}", other),
    }
    assert_eq!(machine.memory, before);
    let mut small = Machine::new(7);
    small.write(BASE, &EXIT_CODE);
    assert!(matches!(
        small.install(HookKind::PlayStateExit),
        Err(HookInstallError::HookSignatureNotFound("play-state exit"))
    ));
}

#[test]
fn hook_needs_a_module_and_memory() {
    let mut machine = Machine::new(0x1000);
    machine.module = None;
    assert!(matches!(
        machine.install(HookKind::Difficulty),
        Err(HookInstallError::GameModuleHandleNotFound)
    ));
    let mut machine = Machine::new(0x1000);
    machine.write(BASE + 0x300, &EXIT_CODE);
    machine.next_block = 0;
    assert!(matches!(
        machine.install(HookKind::PlayStateExit),
        Err(HookInstallError::ExecutableBlockAllocationFailed)
    ));
    let mut machine = Machine::new(0x1000);
    machine.write(BASE + 0x300, &EXIT_CODE);
    machine.protect_works = false;
    assert!(matches!(
        machine.install(HookKind::PlayStateExit),
        Err(HookInstallError::VirtualProtectFailed)
    ));
    assert_eq!(machine.read(BASE + 0x300, 8), EXIT_CODE.to_vec());
}

#[test]
fn trampoline_out_of_reach_fails() {
    if usize::BITS == 64 {
        let mut machine = Machine::new(0x1000);
        machine.write(BASE + 0x300, &EXIT_CODE);
        machine.next_block = 1 << 40;
        assert!(matches!(
            machine.install(HookKind::PlayStateExit),
            Err(HookInstallError::RelativeJumpOutOfRange)
        ));
        assert_eq!(machine.read(BASE + 0x300, 8), EXIT_CODE.to_vec());
    }
}

#[test]
fn block_at_the_top_of_the_address_space_has_no_room_for_a_jump() {
    let mut installer = HookInstaller::new(HookKind::PlayStateExit, 0);
    installer.advance(InstallEvent::Module(Some(BASE)));
    installer.advance(InstallEvent::Bytes(&EXIT_CODE));
    installer.advance(InstallEvent::Allocated(usize::MAX - 10));
    installer.advance(InstallEvent::Bytes(&EXIT_CODE[..6]));
    installer.advance(InstallEvent::Written);
    assert!(matches!(
        installer.outcome(),
        Some(Err(HookInstallError::RelativeJumpSourceOverflow))
    ));
    let mut installer = HookInstaller::new(HookKind::PlayStateExit, 0);
    installer.advance(InstallEvent::Module(Some(BASE)));
    installer.advance(InstallEvent::Bytes(&EXIT_CODE));
    installer.advance(InstallEvent::Allocated(0x0300_0000));
    installer.advance(InstallEvent::Bytes(&EXIT_CODE[..6]));
    installer.advance(InstallEvent::Written);
    installer.advance(InstallEvent::Allocated(usize::MAX - 14));
    installer.advance(InstallEvent::Written);
    assert!(matches!(
        installer.outcome(),
        Some(Err(HookInstallError::RelativeJumpSourceOverflow))
    ));
}

#[test]
fn unreadable_header_ends_the_search() {
    let mut installer = HookInstaller::new(HookKind::Difficulty, 0);
    installer.advance(InstallEvent::Module(Some(BASE)));
    installer.advance(InstallEvent::Bytes(&[0; 24]));
    assert!(matches!(installer.request(), InstallRequest::ReadWord { addr } if addr == BASE + 0x3C));
    installer.advance(InstallEvent::Written);
    assert!(installer.outcome().is_none());
    installer.advance(InstallEvent::Word(None));
    assert!(matches!(
        installer.outcome(),
        Some(Err(HookInstallError::HookSignatureNotFound("difficulty")))
    ));
}

#[test]
fn all_hooks_are_installed_once_and_in_order() {
    let mut machine = Machine::new(0x1000);
    machine.write(BASE + 0x300, &EXIT_CODE);
    let mut hooks = RuntimeHooks::new(vec![0x10, 0x20, 0x30, 0x40]);
    assert!(hooks.request().is_none());
    hooks.install_runtime_hooks();
    let mut operations = 0;
    while let Some(request) = hooks.request() {
        machine.answer(request, &mut |event| hooks.advance(event));
        operations += 1;
    }
    assert!(operations <= 13 * HOOK_COUNT);
    let results = hooks.install_results();
    let names: Vec<&str> = results.iter().map(|status| status.name).collect();
    assert_eq!(names, vec!["song ID", "difficulty", "play-state enter", "play-state exit"]);
    assert!(results[..3].iter().all(|status| status.error.is_some()));
    assert!(results[3].error.is_none());
    assert_eq!(results[3].target_addr, Some(BASE + 0x300));
    let exit: HookState = hooks.state(HookKind::PlayStateExit);
    assert!(exit.installed);
    assert_eq!(machine.read(exit.stub + 3, 4), vec![0x40, 0, 0, 0]);
    assert!(!hooks.state(HookKind::SongId).installed);
    hooks.install_runtime_hooks();
    assert!(hooks.request().is_none());
}
