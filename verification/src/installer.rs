//! The installation of a hook, one outside operation at a time.

use crate::code;
use crate::hooks;
use crate::hooks::{HookConfig, HookKind};
use crate::types::{HookInstallError, HookResolutionSource, InstalledHook};
use vstd::prelude::*;

verus! {

/// The place of a hook and how it was found.
#[derive(Copy, Clone, Debug)]
pub struct HookSite {
    pub target_addr: usize,
    pub resolution_source: HookResolutionSource,
}

/// How far an installation has come. Each stage but the last two waits for one outside operation.
pub enum InstallStage {
    /// The game module is to be found.
    FindModule,
    /// The bytes at the expected place are to be read.
    CheckFallback { module_base: usize, addr: usize },
    /// The offset of the PE header is to be read.
    ReadHeaderOffset { module_base: usize, addr: usize },
    /// The size of the image is to be read.
    ReadImageSize { module_base: usize, addr: usize },
    /// The whole image is to be read.
    ScanImage { module_base: usize, size: usize },
    /// Memory for the trampoline is to be allocated.
    AllocateTrampoline { site: HookSite },
    /// The bytes that the hook displaces are to be read.
    CopyTarget { site: HookSite, trampoline_addr: usize },
    /// The trampoline is to be written.
    WriteTrampoline { site: HookSite, trampoline_addr: usize, displaced: Vec<u8> },
    /// Memory for the stub is to be allocated.
    AllocateStub { site: HookSite, trampoline_addr: usize, displaced: Vec<u8> },
    /// The stub is to be written.
    WriteStub { site: HookSite, trampoline_addr: usize, displaced: Vec<u8>, stub_addr: usize },
    /// The place of the hook is to be made writable.
    Unprotect { site: HookSite, trampoline_addr: usize, displaced: Vec<u8>, stub_addr: usize },
    /// The jump to the stub is to be written. The place had the protection `protection` before.
    WritePatch {
        site: HookSite,
        trampoline_addr: usize,
        displaced: Vec<u8>,
        stub_addr: usize,
        protection: u32,
    },
    /// The instruction cache is to be flushed and the earlier protection to be restored.
    Restore {
        site: HookSite,
        trampoline_addr: usize,
        displaced: Vec<u8>,
        stub_addr: usize,
        protection: u32,
    },
    /// The hook is in place.
    Installed { hook: InstalledHook },
    /// The installation ended without a hook.
    Failed { error: HookInstallError },
}

/// A stage as mathematical values.
#[verifier::ext_equal]
pub enum StageView {
    FindModule,
    CheckFallback { module_base: usize, addr: usize },
    ReadHeaderOffset { module_base: usize, addr: usize },
    ReadImageSize { module_base: usize, addr: usize },
    ScanImage { module_base: usize, size: usize },
    AllocateTrampoline { site: HookSite },
    CopyTarget { site: HookSite, trampoline_addr: usize },
    WriteTrampoline { site: HookSite, trampoline_addr: usize, displaced: Seq<u8> },
    AllocateStub { site: HookSite, trampoline_addr: usize, displaced: Seq<u8> },
    WriteStub { site: HookSite, trampoline_addr: usize, displaced: Seq<u8>, stub_addr: usize },
    Unprotect { site: HookSite, trampoline_addr: usize, displaced: Seq<u8>, stub_addr: usize },
    WritePatch {
        site: HookSite,
        trampoline_addr: usize,
        displaced: Seq<u8>,
        stub_addr: usize,
        protection: u32,
    },
    Restore {
        site: HookSite,
        trampoline_addr: usize,
        displaced: Seq<u8>,
        stub_addr: usize,
        protection: u32,
    },
    Installed { hook: InstalledHook },
    Failed { error: HookInstallError },
}

impl View for InstallStage {
    type V = StageView;

    open spec fn view(&self) -> StageView {
        match *self {
            InstallStage::FindModule => StageView::FindModule,
            InstallStage::CheckFallback { module_base, addr } => StageView::CheckFallback {
                module_base,
                addr,
            },
            InstallStage::ReadHeaderOffset { module_base, addr } => StageView::ReadHeaderOffset {
                module_base,
                addr,
            },
            InstallStage::ReadImageSize { module_base, addr } => StageView::ReadImageSize {
                module_base,
                addr,
            },
            InstallStage::ScanImage { module_base, size } => StageView::ScanImage {
                module_base,
                size,
            },
            InstallStage::AllocateTrampoline { site } => StageView::AllocateTrampoline { site },
            InstallStage::CopyTarget { site, trampoline_addr } => StageView::CopyTarget {
                site,
                trampoline_addr,
            },
            InstallStage::WriteTrampoline { site, trampoline_addr, displaced } => {
                StageView::WriteTrampoline { site, trampoline_addr, displaced: displaced@ }
            },
            InstallStage::AllocateStub { site, trampoline_addr, displaced } => {
                StageView::AllocateStub { site, trampoline_addr, displaced: displaced@ }
            },
            InstallStage::WriteStub { site, trampoline_addr, displaced, stub_addr } => {
                StageView::WriteStub { site, trampoline_addr, displaced: displaced@, stub_addr }
            },
            InstallStage::Unprotect { site, trampoline_addr, displaced, stub_addr } => {
                StageView::Unprotect { site, trampoline_addr, displaced: displaced@, stub_addr }
            },
            InstallStage::WritePatch { site, trampoline_addr, displaced, stub_addr, protection } => {
                StageView::WritePatch {
                    site,
                    trampoline_addr,
                    displaced: displaced@,
                    stub_addr,
                    protection,
                }
            },
            InstallStage::Restore { site, trampoline_addr, displaced, stub_addr, protection } => {
                StageView::Restore {
                    site,
                    trampoline_addr,
                    displaced: displaced@,
                    stub_addr,
                    protection,
                }
            },
            InstallStage::Installed { hook } => StageView::Installed { hook },
            InstallStage::Failed { error } => StageView::Failed { error },
        }
    }
}

/// What an outside operation came to.
pub enum InstallEvent<'a> {
    /// The base address of the game module, if it was found.
    Module(Option<usize>),
    /// The bytes that were asked for.
    Bytes(&'a [u8]),
    /// The word that was asked for, if it could be read.
    Word(Option<u32>),
    /// The address of the memory that was asked for, zero if there is none.
    Allocated(usize),
    /// The bytes are written.
    Written,
    /// The protection that the place had before, if it could be made writable.
    Unprotected(Option<u32>),
    /// The cache is flushed and the earlier protection is restored.
    Restored,
}

/// The outside operation that is wanted next.
pub enum InstallRequest {
    FindModule,
    ReadBytes { addr: usize, len: usize },
    ReadWord { addr: usize },
    Allocate { size: usize },
    Write { addr: usize, bytes: Vec<u8> },
    Unprotect { addr: usize, len: usize },
    Restore { addr: usize, len: usize, protection: u32 },
    Finished { outcome: Result<InstalledHook, HookInstallError> },
}

/// A request as mathematical values.
#[verifier::ext_equal]
pub enum RequestView {
    FindModule,
    ReadBytes { addr: usize, len: usize },
    ReadWord { addr: usize },
    Allocate { size: usize },
    Write { addr: usize, bytes: Seq<u8> },
    Unprotect { addr: usize, len: usize },
    Restore { addr: usize, len: usize, protection: u32 },
    Finished { outcome: Result<InstalledHook, HookInstallError> },
}

impl View for InstallRequest {
    type V = RequestView;

    open spec fn view(&self) -> RequestView {
        match *self {
            InstallRequest::FindModule => RequestView::FindModule,
            InstallRequest::ReadBytes { addr, len } => RequestView::ReadBytes { addr, len },
            InstallRequest::ReadWord { addr } => RequestView::ReadWord { addr },
            InstallRequest::Allocate { size } => RequestView::Allocate { size },
            InstallRequest::Write { addr, bytes } => RequestView::Write { addr, bytes: bytes@ },
            InstallRequest::Unprotect { addr, len } => RequestView::Unprotect { addr, len },
            InstallRequest::Restore { addr, len, protection } => RequestView::Restore {
                addr,
                len,
                protection,
            },
            InstallRequest::Finished { outcome } => RequestView::Finished { outcome },
        }
    }
}

/// The error for a hook whose place is not found.
pub open spec fn not_found(kind: HookKind) -> StageView {
    StageView::Failed { error: HookInstallError::HookSignatureNotFound(kind.name()) }
}

/// The start of the search through the image.
pub open spec fn search_image(module_base: usize, kind: HookKind) -> StageView {
    if module_base + hooks::PE_LFANEW_OFFSET <= usize::MAX {
        StageView::ReadHeaderOffset {
            module_base,
            addr: (module_base + hooks::PE_LFANEW_OFFSET) as usize,
        }
    } else {
        not_found(kind)
    }
}

/// The first stage after the module is found: the expected place, if the pattern can be there.
pub open spec fn search_module(module_base: usize, kind: HookKind) -> StageView {
    if module_base + kind.fallback_rva() + kind.pattern().len() <= code::address_space() {
        StageView::CheckFallback {
            module_base,
            addr: (module_base + kind.fallback_rva()) as usize,
        }
    } else {
        search_image(module_base, kind)
    }
}

/// The stage after the offset of the PE header is known.
pub open spec fn header_found(module_base: usize, offset: u32, kind: HookKind) -> StageView {
    if module_base + offset + hooks::PE_SIZE_OF_IMAGE_OFFSET <= usize::MAX {
        StageView::ReadImageSize {
            module_base,
            addr: (module_base + offset + hooks::PE_SIZE_OF_IMAGE_OFFSET) as usize,
        }
    } else {
        not_found(kind)
    }
}

/// The stage after the size of the image is known. An image that is shorter than the pattern, or
/// that would not fit the address space, is not searched.
pub open spec fn image_sized(module_base: usize, size: u32, kind: HookKind) -> StageView {
    if size >= kind.pattern().len() && module_base + size <= code::address_space() {
        StageView::ScanImage { module_base, size: size as usize }
    } else {
        not_found(kind)
    }
}

/// The stage after a place is found.
pub open spec fn site_found(addr: int, resolution_source: HookResolutionSource) -> StageView {
    StageView::AllocateTrampoline {
        site: HookSite { target_addr: addr as usize, resolution_source },
    }
}

/// Whether memory of `size` bytes at `addr` was allocated.
pub open spec fn is_block(addr: usize, size: int) -> bool {
    addr != 0 && addr + size <= code::address_space()
}

/// The end of an installation for this reason.
pub open spec fn failed(error: HookInstallError) -> StageView {
    StageView::Failed { error }
}

impl StageView {
    /// What holds of the addresses and the bytes of a stage.
    pub open spec fn wf(self, kind: HookKind) -> bool {
        let len = kind.overwrite_len();
        match self {
            StageView::CheckFallback { module_base, addr } => addr + kind.pattern().len()
                <= code::address_space(),
            StageView::ScanImage { module_base, size } => module_base + size
                <= code::address_space(),
            StageView::AllocateTrampoline { site } => site.target_addr + len <= usize::MAX,
            StageView::CopyTarget { site, trampoline_addr } => {
                &&& site.target_addr + len <= usize::MAX
                &&& is_block(trampoline_addr, len + 5)
            },
            StageView::WriteTrampoline { site, trampoline_addr, displaced } => {
                &&& site.target_addr + len <= usize::MAX
                &&& is_block(trampoline_addr, len + 5)
                &&& displaced.len() == len
            },
            StageView::AllocateStub { site, trampoline_addr, displaced } => {
                &&& site.target_addr + len <= usize::MAX
                &&& is_block(trampoline_addr, len + 5)
                &&& displaced.len() == len
                &&& code::jump_result(trampoline_addr + len, site.target_addr + len) is Ok
            },
            StageView::WriteStub { site, trampoline_addr, displaced, stub_addr } => {
                &&& site.target_addr + len <= usize::MAX
                &&& is_block(trampoline_addr, len + 5)
                &&& is_block(stub_addr, code::STUB_SIZE as int)
                &&& displaced.len() == len
                &&& code::jump_result(trampoline_addr + len, site.target_addr + len) is Ok
            },
            StageView::Unprotect { site, trampoline_addr, displaced, stub_addr } => {
                &&& site.target_addr + len <= usize::MAX
                &&& is_block(trampoline_addr, len + 5)
                &&& is_block(stub_addr, code::STUB_SIZE as int)
                &&& displaced.len() == len
                &&& code::jump_result(trampoline_addr + len, site.target_addr + len) is Ok
                &&& code::jump_result(stub_addr + code::STUB_JUMP_AT, trampoline_addr as int) is Ok
            },
            StageView::WritePatch { site, trampoline_addr, displaced, stub_addr, .. } => {
                &&& site.target_addr + len <= usize::MAX
                &&& is_block(trampoline_addr, len + 5)
                &&& is_block(stub_addr, code::STUB_SIZE as int)
                &&& displaced.len() == len
                &&& code::jump_result(trampoline_addr + len, site.target_addr + len) is Ok
                &&& code::jump_result(stub_addr + code::STUB_JUMP_AT, trampoline_addr as int) is Ok
            },
            StageView::Restore { site, trampoline_addr, displaced, stub_addr, .. } => {
                &&& site.target_addr + len <= usize::MAX
                &&& is_block(trampoline_addr, len + 5)
                &&& is_block(stub_addr, code::STUB_SIZE as int)
                &&& displaced.len() == len
                &&& code::jump_result(trampoline_addr + len, site.target_addr + len) is Ok
                &&& code::jump_result(stub_addr + code::STUB_JUMP_AT, trampoline_addr as int) is Ok
                &&& code::patch_result(
                    site.target_addr as int,
                    len as int,
                    stub_addr as int,
                ) is Ok
            },
            _ => true,
        }
    }

    /// The stage after `event`. An event that does not answer the stage's operation changes nothing.
    pub open spec fn after(self, kind: HookKind, event: InstallEvent) -> StageView {
        let len = kind.overwrite_len();
        match (self, event) {
            (StageView::FindModule, InstallEvent::Module(None)) => failed(
                HookInstallError::GameModuleHandleNotFound,
            ),
            (StageView::FindModule, InstallEvent::Module(Some(module_base))) => search_module(
                module_base,
                kind,
            ),
            (StageView::CheckFallback { module_base, addr }, InstallEvent::Bytes(bytes)) => {
                if code::matches_at(bytes@, 0, kind.pattern()) {
                    site_found(addr as int, HookResolutionSource::HardcodedAddress)
                } else {
                    search_image(module_base, kind)
                }
            },
            (StageView::ReadHeaderOffset { module_base, .. }, InstallEvent::Word(None)) => {
                not_found(kind)
            },
            (StageView::ReadHeaderOffset { module_base, .. }, InstallEvent::Word(Some(offset))) => {
                header_found(module_base, offset, kind)
            },
            (StageView::ReadImageSize { .. }, InstallEvent::Word(None)) => not_found(kind),
            (StageView::ReadImageSize { module_base, .. }, InstallEvent::Word(Some(size))) => {
                image_sized(module_base, size, kind)
            },
            (StageView::ScanImage { module_base, size }, InstallEvent::Bytes(bytes)) => {
                if bytes@.len() != size {
                    self
                } else {
                    match code::pattern_address(module_base as int, bytes@, kind.pattern()) {
                        Some(addr) => site_found(addr, HookResolutionSource::PatternScan),
                        None => not_found(kind),
                    }
                }
            },
            (StageView::AllocateTrampoline { site }, InstallEvent::Allocated(addr)) => if is_block(
                addr,
                len + 5,
            ) {
                StageView::CopyTarget { site, trampoline_addr: addr }
            } else {
                failed(HookInstallError::ExecutableBlockAllocationFailed)
            },
            (StageView::CopyTarget { site, trampoline_addr }, InstallEvent::Bytes(bytes)) => {
                if bytes@.len() == len {
                    StageView::WriteTrampoline { site, trampoline_addr, displaced: bytes@ }
                } else {
                    self
                }
            },
            (
                StageView::WriteTrampoline { site, trampoline_addr, displaced },
                InstallEvent::Written,
            ) => match code::jump_result(trampoline_addr + len, site.target_addr + len) {
                Ok(_) => StageView::AllocateStub { site, trampoline_addr, displaced },
                Err(error) => failed(error),
            },
            (
                StageView::AllocateStub { site, trampoline_addr, displaced },
                InstallEvent::Allocated(addr),
            ) => if is_block(addr, code::STUB_SIZE as int) {
                StageView::WriteStub { site, trampoline_addr, displaced, stub_addr: addr }
            } else {
                failed(HookInstallError::ExecutableBlockAllocationFailed)
            },
            (
                StageView::WriteStub { site, trampoline_addr, displaced, stub_addr },
                InstallEvent::Written,
            ) => match code::jump_result(stub_addr + code::STUB_JUMP_AT, trampoline_addr as int) {
                Ok(_) => StageView::Unprotect { site, trampoline_addr, displaced, stub_addr },
                Err(error) => failed(error),
            },
            (
                StageView::Unprotect { site, trampoline_addr, displaced, stub_addr },
                InstallEvent::Unprotected(earlier),
            ) => match earlier {
                Some(protection) => StageView::WritePatch {
                    site,
                    trampoline_addr,
                    displaced,
                    stub_addr,
                    protection,
                },
                None => failed(HookInstallError::VirtualProtectFailed),
            },
            (
                StageView::WritePatch { site, trampoline_addr, displaced, stub_addr, protection },
                InstallEvent::Written,
            ) => match code::patch_result(site.target_addr as int, len as int, stub_addr as int) {
                Ok(_) => StageView::Restore {
                    site,
                    trampoline_addr,
                    displaced,
                    stub_addr,
                    protection,
                },
                Err(error) => failed(error),
            },
            (
                StageView::Restore { site, trampoline_addr, stub_addr, .. },
                InstallEvent::Restored,
            ) => StageView::Installed {
                hook: InstalledHook {
                    target_addr: site.target_addr,
                    trampoline_addr,
                    stub_addr,
                    resolution_source: site.resolution_source,
                },
            },
            _ => self,
        }
    }

    /// The outside operation that the stage waits for.
    pub open spec fn request(self, kind: HookKind, callback: u32) -> RequestView {
        let len = kind.overwrite_len();
        match self {
            StageView::FindModule => RequestView::FindModule,
            StageView::CheckFallback { addr, .. } => RequestView::ReadBytes {
                addr,
                len: kind.pattern().len() as usize,
            },
            StageView::ReadHeaderOffset { addr, .. } => RequestView::ReadWord { addr },
            StageView::ReadImageSize { addr, .. } => RequestView::ReadWord { addr },
            StageView::ScanImage { module_base, size } => RequestView::ReadBytes {
                addr: module_base,
                len: size,
            },
            StageView::AllocateTrampoline { .. } => RequestView::Allocate {
                size: (len + 5) as usize,
            },
            StageView::CopyTarget { site, .. } => RequestView::ReadBytes {
                addr: site.target_addr,
                len,
            },
            StageView::WriteTrampoline { site, trampoline_addr, displaced } => RequestView::Write {
                addr: trampoline_addr,
                bytes: code::trampoline_code(
                    displaced,
                    site.target_addr as int,
                    trampoline_addr as int,
                ),
            },
            StageView::AllocateStub { .. } => RequestView::Allocate { size: code::STUB_SIZE },
            StageView::WriteStub { trampoline_addr, stub_addr, .. } => RequestView::Write {
                addr: stub_addr,
                bytes: code::stub_code(stub_addr as int, callback, trampoline_addr as int),
            },
            StageView::Unprotect { site, .. } => RequestView::Unprotect {
                addr: site.target_addr,
                len,
            },
            StageView::WritePatch { site, displaced, stub_addr, .. } => RequestView::Write {
                addr: site.target_addr,
                bytes: code::patch_code(displaced, site.target_addr as int, stub_addr as int),
            },
            StageView::Restore { site, protection, .. } => RequestView::Restore {
                addr: site.target_addr,
                len,
                protection,
            },
            StageView::Installed { hook } => RequestView::Finished { outcome: Ok(hook) },
            StageView::Failed { error } => RequestView::Finished { outcome: Err(error) },
        }
    }
}

/// The installation of one hook.
pub struct HookInstaller {
    config: HookConfig,
    callback: u32,
    stage: InstallStage,
}

impl HookInstaller {
    /// Which hook is installed.
    pub closed spec fn kind(&self) -> HookKind {
        self.config.callback
    }

    /// The address of the code that the hook calls.
    pub closed spec fn callback(&self) -> u32 {
        self.callback
    }

    /// How far the installation has come.
    pub closed spec fn stage(&self) -> StageView {
        self.stage@
    }

    /// What holds of every installation.
    pub closed spec fn wf(&self) -> bool {
        let kind = self.config.callback;
        &&& self.config.name == kind.name()
        &&& self.config.target.overwrite_len == kind.overwrite_len()
        &&& self.config.target.fallback_rva == kind.fallback_rva()
        &&& self.config.target.pattern@ == kind.pattern()
        &&& self.stage@.wf(kind)
    }

    /// The start of the installation of a hook that calls the code at `callback`.
    pub fn new(kind: HookKind, callback: u32) -> (r: Self)
        ensures
            r.wf(),
            r.kind() == kind,
            r.callback() == callback,
            r.stage() == StageView::FindModule,
    {
        HookInstaller {
            config: hooks::hook_config(kind),
            callback,
            stage: InstallStage::FindModule,
        }
    }

    fn not_found(&self) -> (r: InstallStage)
        requires
            self.wf(),
        ensures
            r@ == not_found(self.kind()),
            r@.wf(self.kind()),
    {
        InstallStage::Failed { error: HookInstallError::HookSignatureNotFound(self.config.name) }
    }

    fn search_image(&self, module_base: usize) -> (r: InstallStage)
        requires
            self.wf(),
        ensures
            r@ == search_image(module_base, self.kind()),
            r@.wf(self.kind()),
    {
        match code::add_offset(module_base, hooks::PE_LFANEW_OFFSET) {
            Some(addr) => InstallStage::ReadHeaderOffset { module_base, addr },
            None => self.not_found(),
        }
    }

    fn search_module(&self, module_base: usize) -> (r: InstallStage)
        requires
            self.wf(),
        ensures
            r@ == search_module(module_base, self.kind()),
            r@.wf(self.kind()),
    {
        if let Some(addr) = code::add_offset(module_base, self.config.target.fallback_rva) {
            if code::fits_address_space(addr, self.config.target.pattern.len()) {
                return InstallStage::CheckFallback { module_base, addr };
            }
        }
        self.search_image(module_base)
    }

    fn header_found(&self, module_base: usize, offset: u32) -> (r: InstallStage)
        requires
            self.wf(),
        ensures
            r@ == header_found(module_base, offset, self.kind()),
            r@.wf(self.kind()),
    {
        if let Some(header) = code::add_offset(module_base, offset as usize) {
            if let Some(addr) = code::add_offset(header, hooks::PE_SIZE_OF_IMAGE_OFFSET) {
                return InstallStage::ReadImageSize { module_base, addr };
            }
        }
        self.not_found()
    }

    fn image_sized(&self, module_base: usize, size: u32) -> (r: InstallStage)
        requires
            self.wf(),
        ensures
            r@ == image_sized(module_base, size, self.kind()),
            r@.wf(self.kind()),
    {
        let size: usize = size as usize;
        if size >= self.config.target.pattern.len() && code::fits_address_space(module_base, size) {
            InstallStage::ScanImage { module_base, size }
        } else {
            self.not_found()
        }
    }

    fn bytes_read(&self, stage: InstallStage, bytes: &[u8]) -> (r: InstallStage)
        requires
            self.wf(),
            stage@.wf(self.kind()),
        ensures
            r@ == stage@.after(self.kind(), InstallEvent::Bytes(bytes)),
            r@.wf(self.kind()),
    {
        proof {
            lemma_pattern_covers_the_displaced_bytes(self.kind());
        }
        match stage {
            InstallStage::CheckFallback { module_base, addr } => if code::pattern_matches(
                bytes,
                &self.config.target.pattern,
            ) {
                InstallStage::AllocateTrampoline {
                    site: HookSite {
                        target_addr: addr,
                        resolution_source: HookResolutionSource::HardcodedAddress,
                    },
                }
            } else {
                self.search_image(module_base)
            },
            InstallStage::ScanImage { module_base, size } => if bytes.len() != size {
                InstallStage::ScanImage { module_base, size }
            } else {
                match code::find_pattern(module_base, bytes, &self.config.target.pattern) {
                    Some(addr) => InstallStage::AllocateTrampoline {
                        site: HookSite {
                            target_addr: addr,
                            resolution_source: HookResolutionSource::PatternScan,
                        },
                    },
                    None => self.not_found(),
                }
            },
            InstallStage::CopyTarget { site, trampoline_addr } => if bytes.len()
                == self.config.target.overwrite_len {
                InstallStage::WriteTrampoline {
                    site,
                    trampoline_addr,
                    displaced: vstd::slice::slice_to_vec(bytes),
                }
            } else {
                InstallStage::CopyTarget { site, trampoline_addr }
            },
            other => other,
        }
    }

    fn allocated(&self, stage: InstallStage, addr: usize) -> (r: InstallStage)
        requires
            self.wf(),
            stage@.wf(self.kind()),
        ensures
            r@ == stage@.after(self.kind(), InstallEvent::Allocated(addr)),
            r@.wf(self.kind()),
    {
        match stage {
            InstallStage::AllocateTrampoline { site } => if addr != 0 && code::fits_address_space(
                addr,
                self.config.target.overwrite_len + 5,
            ) {
                InstallStage::CopyTarget { site, trampoline_addr: addr }
            } else {
                InstallStage::Failed { error: HookInstallError::ExecutableBlockAllocationFailed }
            },
            InstallStage::AllocateStub { site, trampoline_addr, displaced } => if addr != 0
                && code::fits_address_space(addr, code::STUB_SIZE) {
                InstallStage::WriteStub { site, trampoline_addr, displaced, stub_addr: addr }
            } else {
                InstallStage::Failed { error: HookInstallError::ExecutableBlockAllocationFailed }
            },
            other => other,
        }
    }

    fn written(&self, stage: InstallStage) -> (r: InstallStage)
        requires
            self.wf(),
            stage@.wf(self.kind()),
        ensures
            r@ == stage@.after(self.kind(), InstallEvent::Written),
            r@.wf(self.kind()),
    {
        match stage {
            InstallStage::WriteTrampoline { site, trampoline_addr, displaced } => {
                match code::create_trampoline(
                    &displaced,
                    site.target_addr,
                    trampoline_addr,
                ).result {
                    Ok(_) => InstallStage::AllocateStub { site, trampoline_addr, displaced },
                    Err(error) => InstallStage::Failed { error },
                }
            },
            InstallStage::WriteStub { site, trampoline_addr, displaced, stub_addr } => {
                match code::create_hook_stub(stub_addr, self.callback, trampoline_addr).result {
                    Ok(_) => InstallStage::Unprotect {
                        site,
                        trampoline_addr,
                        displaced,
                        stub_addr,
                    },
                    Err(error) => InstallStage::Failed { error },
                }
            },
            InstallStage::WritePatch { site, trampoline_addr, displaced, stub_addr, protection } => {
                match code::patch_hook_target(&displaced, site.target_addr, stub_addr).result {
                    Ok(_) => InstallStage::Restore {
                        site,
                        trampoline_addr,
                        displaced,
                        stub_addr,
                        protection,
                    },
                    Err(error) => InstallStage::Failed { error },
                }
            },
            other => other,
        }
    }

    /// Takes in what the outside operation of the stage came to.
    pub fn advance(&mut self, event: InstallEvent)
        requires
            old(self).wf(),
        ensures
            final(self).wf(),
            final(self).kind() == old(self).kind(),
            final(self).callback() == old(self).callback(),
            final(self).stage() == old(self).stage().after(old(self).kind(), event),
            final(self).stage().wf(final(self).kind()),
    {
        let mut stage = InstallStage::FindModule;
        std::mem::swap(&mut stage, &mut self.stage);
        let next = match event {
            InstallEvent::Module(module) => match stage {
                InstallStage::FindModule => match module {
                    Some(module_base) => self.search_module(module_base),
                    None => InstallStage::Failed {
                        error: HookInstallError::GameModuleHandleNotFound,
                    },
                },
                other => other,
            },
            InstallEvent::Bytes(bytes) => self.bytes_read(stage, bytes),
            InstallEvent::Word(word) => match (stage, word) {
                (InstallStage::ReadHeaderOffset { module_base, .. }, Some(offset)) => {
                    self.header_found(module_base, offset)
                },
                (InstallStage::ReadHeaderOffset { .. }, None) => self.not_found(),
                (InstallStage::ReadImageSize { module_base, .. }, Some(size)) => {
                    self.image_sized(module_base, size)
                },
                (InstallStage::ReadImageSize { .. }, None) => self.not_found(),
                (other, _) => other,
            },
            InstallEvent::Allocated(addr) => self.allocated(stage, addr),
            InstallEvent::Written => self.written(stage),
            InstallEvent::Unprotected(earlier) => match stage {
                InstallStage::Unprotect { site, trampoline_addr, displaced, stub_addr } => {
                    match earlier {
                        Some(protection) => InstallStage::WritePatch {
                            site,
                            trampoline_addr,
                            displaced,
                            stub_addr,
                            protection,
                        },
                        None => InstallStage::Failed {
                            error: HookInstallError::VirtualProtectFailed,
                        },
                    }
                },
                other => other,
            },
            InstallEvent::Restored => match stage {
                InstallStage::Restore { site, trampoline_addr, stub_addr, .. } => {
                    InstallStage::Installed {
                        hook: InstalledHook {
                            target_addr: site.target_addr,
                            trampoline_addr,
                            stub_addr,
                            resolution_source: site.resolution_source,
                        },
                    }
                },
                other => other,
            },
        };
        self.stage = next;
    }

    /// What the installation came to, once it has ended.
    pub fn outcome(&self) -> (r: Option<Result<InstalledHook, HookInstallError>>)
        ensures
            r == match self.stage() {
                StageView::Installed { hook } => Some(Ok::<_, HookInstallError>(hook)),
                StageView::Failed { error } => Some(Err::<InstalledHook, _>(error)),
                _ => None,
            },
    {
        match &self.stage {
            InstallStage::Installed { hook } => Some(Ok(*hook)),
            InstallStage::Failed { error } => Some(Err(*error)),
            _ => None,
        }
    }

    /// The outside operation that is wanted next.
    pub fn request(&self) -> (r: InstallRequest)
        requires
            self.wf(),
        ensures
            r@ == self.stage().request(self.kind(), self.callback()),
    {
        let len: usize = self.config.target.overwrite_len;
        match &self.stage {
            InstallStage::FindModule => InstallRequest::FindModule,
            InstallStage::CheckFallback { addr, .. } => InstallRequest::ReadBytes {
                addr: *addr,
                len: self.config.target.pattern.len(),
            },
            InstallStage::ReadHeaderOffset { addr, .. } => InstallRequest::ReadWord { addr: *addr },
            InstallStage::ReadImageSize { addr, .. } => InstallRequest::ReadWord { addr: *addr },
            InstallStage::ScanImage { module_base, size } => InstallRequest::ReadBytes {
                addr: *module_base,
                len: *size,
            },
            InstallStage::AllocateTrampoline { .. } => InstallRequest::Allocate { size: len + 5 },
            InstallStage::CopyTarget { site, .. } => InstallRequest::ReadBytes {
                addr: site.target_addr,
                len,
            },
            InstallStage::WriteTrampoline { site, trampoline_addr, displaced } => {
                InstallRequest::Write {
                    addr: *trampoline_addr,
                    bytes: code::create_trampoline(
                        displaced,
                        site.target_addr,
                        *trampoline_addr,
                    ).bytes,
                }
            },
            InstallStage::AllocateStub { .. } => InstallRequest::Allocate { size: code::STUB_SIZE },
            InstallStage::WriteStub { trampoline_addr, stub_addr, .. } => InstallRequest::Write {
                addr: *stub_addr,
                bytes: code::create_hook_stub(*stub_addr, self.callback, *trampoline_addr).bytes,
            },
            InstallStage::Unprotect { site, .. } => InstallRequest::Unprotect {
                addr: site.target_addr,
                len,
            },
            InstallStage::WritePatch { site, displaced, stub_addr, .. } => InstallRequest::Write {
                addr: site.target_addr,
                bytes: code::patch_hook_target(displaced, site.target_addr, *stub_addr).bytes,
            },
            InstallStage::Restore { site, protection, .. } => InstallRequest::Restore {
                addr: site.target_addr,
                len,
                protection: *protection,
            },
            InstallStage::Installed { hook } => InstallRequest::Finished { outcome: Ok(*hook) },
            InstallStage::Failed { error } => InstallRequest::Finished { outcome: Err(*error) },
        }
    }
}

/// How many outside operations lie behind a stage at most.
pub open spec fn progress(stage: StageView) -> int {
    match stage {
        StageView::FindModule => 0,
        StageView::CheckFallback { .. } => 1,
        StageView::ReadHeaderOffset { .. } => 2,
        StageView::ReadImageSize { .. } => 3,
        StageView::ScanImage { .. } => 4,
        StageView::AllocateTrampoline { .. } => 5,
        StageView::CopyTarget { .. } => 6,
        StageView::WriteTrampoline { .. } => 7,
        StageView::AllocateStub { .. } => 8,
        StageView::WriteStub { .. } => 9,
        StageView::Unprotect { .. } => 10,
        StageView::WritePatch { .. } => 11,
        StageView::Restore { .. } => 12,
        StageView::Installed { .. } => 13,
        StageView::Failed { .. } => 13,
    }
}

/// Whether `event` is the outcome of the operation in `request`.
pub open spec fn answers(event: InstallEvent, request: RequestView) -> bool {
    match request {
        RequestView::FindModule => event is Module,
        RequestView::ReadBytes { len, .. } => event matches InstallEvent::Bytes(bytes)
            && bytes@.len() == len,
        RequestView::ReadWord { .. } => event is Word,
        RequestView::Allocate { .. } => event is Allocated,
        RequestView::Write { .. } => event is Written,
        RequestView::Unprotect { .. } => event is Unprotected,
        RequestView::Restore { .. } => event is Restored,
        RequestView::Finished { .. } => false,
    }
}

/// Every outcome of the operation that was asked for brings the installation forward, so that it ends
/// after at most thirteen operations; once it has ended nothing changes any more.
pub proof fn law_every_answer_brings_the_installation_forward(
    kind: HookKind,
    callback: u32,
    stage: StageView,
    event: InstallEvent,
)
    requires
        stage.wf(kind),
    ensures
        answers(event, stage.request(kind, callback)) ==> progress(stage) < progress(
            stage.after(kind, event),
        ) <= 13,
        progress(stage) == 13 ==> stage.after(kind, event) == stage,
        stage.after(kind, event).wf(kind),
{
    lemma_pattern_covers_the_displaced_bytes(kind);
    if let InstallEvent::Bytes(bytes) = event {
        if let StageView::ScanImage { module_base, size } = stage {
            let pattern = kind.pattern();
            if bytes@.len() == size && code::pattern_address(
                module_base as int,
                bytes@,
                pattern,
            ) is Some {
                code::lemma_pattern_address_is_a_first_match(module_base as int, bytes@, pattern);
            }
        }
    }
}

/// When an installation is about to end well, the code that it asked to write makes a complete hook:
/// the patched place leads to the stub, the stub to the trampoline, and the trampoline holds the
/// displaced bytes and leads back to what followed them.
pub proof fn law_a_finished_installation_is_a_complete_hook(
    kind: HookKind,
    callback: u32,
    site: HookSite,
    trampoline_addr: usize,
    displaced: Seq<u8>,
    stub_addr: usize,
    protection: u32,
)
    requires
        (StageView::Restore { site, trampoline_addr, displaced, stub_addr, protection }).wf(kind),
    ensures
        ({
            let patch = (StageView::WritePatch {
                site,
                trampoline_addr,
                displaced,
                stub_addr,
                protection,
            }).request(kind, callback);
            let stub = (StageView::WriteStub {
                site,
                trampoline_addr,
                displaced,
                stub_addr,
            }).request(kind, callback);
            let trampoline = (StageView::WriteTrampoline {
                site,
                trampoline_addr,
                displaced,
            }).request(kind, callback);
            let len = kind.overwrite_len() as int;
            &&& patch->Write_addr == site.target_addr
            &&& patch->bytes.len() == len
            &&& code::jump_destination(patch->bytes, 0, site.target_addr as int) == Some(
                stub_addr as int,
            )
            &&& stub->Write_addr == stub_addr
            &&& stub->bytes.len() == code::STUB_SIZE
            &&& code::jump_destination(
                stub->bytes,
                code::STUB_JUMP_AT as int,
                stub_addr + code::STUB_JUMP_AT,
            ) == Some(trampoline_addr as int)
            &&& trampoline->Write_addr == trampoline_addr
            &&& trampoline->bytes.len() == len + 5
            &&& trampoline->bytes.take(len) == displaced
            &&& code::jump_destination(trampoline->bytes, len, trampoline_addr + len) == Some(
                site.target_addr + len,
            )
        }),
{
    lemma_pattern_covers_the_displaced_bytes(kind);
    code::law_a_hook_leads_back_to_the_program(
        displaced,
        site.target_addr as int,
        trampoline_addr as int,
        stub_addr as int,
        callback,
    );
}

/// A place that was made writable gets back the protection that it had: after the patch is written,
/// exactly that protection is asked for, for exactly the patched bytes.
pub proof fn law_the_earlier_protection_is_put_back(
    kind: HookKind,
    callback: u32,
    stage: StageView,
    protection: u32,
)
    requires
        stage is Unprotect,
    ensures
        ({
            let writable = stage.after(kind, InstallEvent::Unprotected(Some(protection)));
            let patched = writable.after(kind, InstallEvent::Written);
            &&& stage.request(kind, callback) == (RequestView::Unprotect {
                addr: stage->Unprotect_site.target_addr,
                len: kind.overwrite_len(),
            })
            &&& patched is Restore || patched is Failed
            &&& patched is Restore ==> patched.request(kind, callback) == (RequestView::Restore {
                addr: stage->Unprotect_site.target_addr,
                len: kind.overwrite_len(),
                protection,
            })
        }),
{
}

/// The stage after all of `events`.
pub open spec fn install_run(kind: HookKind, events: Seq<InstallEvent>) -> StageView
    decreases events.len(),
{
    if events.len() == 0 {
        StageView::FindModule
    } else {
        install_run(kind, events.drop_last()).after(kind, events.last())
    }
}

/// Whether `events` report a game module at `module_base`.
pub open spec fn module_reported(events: Seq<InstallEvent>, module_base: usize) -> bool {
    exists|i: int| 0 <= i < events.len() && #[trigger] events[i] == InstallEvent::Module(
        Some(module_base),
    )
}

/// Whether `events` report bytes that make `site` the place of the hook: the pattern at the expected
/// place, or its first place in the image.
pub open spec fn site_reported(kind: HookKind, events: Seq<InstallEvent>, site: HookSite) -> bool {
    exists|module_base: usize, i: int|
        #![trigger module_reported(events, module_base), events[i]]
        {
            &&& module_reported(events, module_base)
            &&& 0 <= i < events.len()
            &&& events[i] matches InstallEvent::Bytes(bytes)
            &&& match site.resolution_source {
                HookResolutionSource::HardcodedAddress => {
                    &&& site.target_addr == module_base + kind.fallback_rva()
                    &&& code::matches_at(bytes@, 0, kind.pattern())
                },
                HookResolutionSource::PatternScan => code::is_first_match(
                    bytes@,
                    site.target_addr - module_base,
                    kind.pattern(),
                ),
            }
        }
}

/// Whether what a stage holds was reported.
pub open spec fn stage_reported(kind: HookKind, events: Seq<InstallEvent>, stage: StageView) -> bool {
    match stage {
        StageView::FindModule => true,
        StageView::CheckFallback { module_base, addr } => module_reported(events, module_base)
            && addr == module_base + kind.fallback_rva(),
        StageView::ReadHeaderOffset { module_base, .. } => module_reported(events, module_base),
        StageView::ReadImageSize { module_base, .. } => module_reported(events, module_base),
        StageView::ScanImage { module_base, .. } => module_reported(events, module_base),
        StageView::AllocateTrampoline { site } => site_reported(kind, events, site),
        StageView::CopyTarget { site, .. } => site_reported(kind, events, site),
        StageView::WriteTrampoline { site, .. } => site_reported(kind, events, site),
        StageView::AllocateStub { site, .. } => site_reported(kind, events, site),
        StageView::WriteStub { site, .. } => site_reported(kind, events, site),
        StageView::Unprotect { site, .. } => site_reported(kind, events, site),
        StageView::WritePatch { site, .. } => site_reported(kind, events, site),
        StageView::Restore { site, .. } => site_reported(kind, events, site),
        StageView::Installed { hook } => site_reported(
            kind,
            events,
            HookSite {
                target_addr: hook.target_addr,
                resolution_source: hook.resolution_source,
            },
        ),
        StageView::Failed { .. } => true,
    }
}

proof fn lemma_reports_stay(
    kind: HookKind,
    events: Seq<InstallEvent>,
    event: InstallEvent,
    stage: StageView,
)
    requires
        stage_reported(kind, events, stage),
    ensures
        stage_reported(kind, events.push(event), stage),
{
    let more = events.push(event);
    assert(forall|i: int| 0 <= i < events.len() ==> #[trigger] more[i] == events[i]);
    assert forall|module_base: usize| module_reported(events, module_base) implies module_reported(
        more,
        module_base,
    ) by {
        let i = choose|i: int|
            0 <= i < events.len() && #[trigger] events[i] == InstallEvent::Module(
                Some(module_base),
            );
        assert(more[i] == events[i]);
    }
    assert forall|site: HookSite| site_reported(kind, events, site) implies site_reported(
        kind,
        more,
        site,
    ) by {
        let (module_base, i) = choose|module_base: usize, i: int|
            #![trigger module_reported(events, module_base), events[i]]
            {
                &&& module_reported(events, module_base)
                &&& 0 <= i < events.len()
                &&& events[i] matches InstallEvent::Bytes(bytes)
                &&& match site.resolution_source {
                    HookResolutionSource::HardcodedAddress => {
                        &&& site.target_addr == module_base + kind.fallback_rva()
                        &&& code::matches_at(bytes@, 0, kind.pattern())
                    },
                    HookResolutionSource::PatternScan => code::is_first_match(
                        bytes@,
                        site.target_addr - module_base,
                        kind.pattern(),
                    ),
                }
            };
        assert(module_reported(more, module_base));
        assert(more[i] == events[i]);
    }
}

proof fn lemma_expected_place_is_reported(
    kind: HookKind,
    events: Seq<InstallEvent>,
    module_base: usize,
    addr: usize,
    bytes: &[u8],
)
    requires
        module_reported(events, module_base),
        addr == module_base + kind.fallback_rva(),
        events.len() > 0,
        events.last() == InstallEvent::Bytes(bytes),
        code::matches_at(bytes@, 0, kind.pattern()),
    ensures
        site_reported(
            kind,
            events,
            HookSite {
                target_addr: addr,
                resolution_source: HookResolutionSource::HardcodedAddress,
            },
        ),
{
    assert(events[events.len() - 1] == InstallEvent::Bytes(bytes));
}

proof fn lemma_found_place_is_reported(
    kind: HookKind,
    events: Seq<InstallEvent>,
    module_base: usize,
    bytes: &[u8],
)
    requires
        module_reported(events, module_base),
        module_base + bytes@.len() <= code::address_space(),
        events.len() > 0,
        events.last() == InstallEvent::Bytes(bytes),
        code::pattern_address(module_base as int, bytes@, kind.pattern()) is Some,
    ensures
        site_reported(
            kind,
            events,
            HookSite {
                target_addr: code::pattern_address(
                    module_base as int,
                    bytes@,
                    kind.pattern(),
                )->0 as usize,
                resolution_source: HookResolutionSource::PatternScan,
            },
        ),
{
    let pattern = kind.pattern();
    let addr = code::pattern_address(module_base as int, bytes@, pattern)->0;
    code::lemma_pattern_address_is_a_first_match(module_base as int, bytes@, pattern);
    assert(pattern.len() > 0);
    assert(0 <= addr <= usize::MAX);
    assert(events[events.len() - 1] == InstallEvent::Bytes(bytes));
}

/// A stage holds only what was reported, if the stage before it did.
proof fn lemma_step_is_reported(
    kind: HookKind,
    earlier: Seq<InstallEvent>,
    event: InstallEvent,
    stage: StageView,
)
    requires
        stage.wf(kind),
        stage_reported(kind, earlier, stage),
    ensures
        stage_reported(kind, earlier.push(event), stage.after(kind, event)),
{
    let events = earlier.push(event);
    lemma_reports_stay(kind, earlier, event, stage);
    assert(events.last() == event);
    match (stage, event) {
        (StageView::FindModule, InstallEvent::Module(Some(module_base))) => {
            assert(events[events.len() - 1] == event);
            assert(module_reported(events, module_base));
        },
        (StageView::CheckFallback { module_base, addr }, InstallEvent::Bytes(bytes)) => {
            if code::matches_at(bytes@, 0, kind.pattern()) {
                lemma_expected_place_is_reported(kind, events, module_base, addr, bytes);
            }
        },
        (StageView::ScanImage { module_base, size }, InstallEvent::Bytes(bytes)) => {
            if bytes@.len() == size && code::pattern_address(
                module_base as int,
                bytes@,
                kind.pattern(),
            ) is Some {
                lemma_found_place_is_reported(kind, events, module_base, bytes);
            }
        },
        _ => {},
    }
}

/// A hook is installed only in a place whose bytes were seen to match: at the expected place in the
/// game module, or else at the first place in its image that matches.
#[verifier::spinoff_prover]
pub proof fn law_hooks_go_only_where_the_pattern_is(kind: HookKind, events: Seq<InstallEvent>)
    ensures
        stage_reported(kind, events, install_run(kind, events)),
        install_run(kind, events).wf(kind),
        install_run(kind, events) matches StageView::Installed { hook } ==> site_reported(
            kind,
            events,
            HookSite {
                target_addr: hook.target_addr,
                resolution_source: hook.resolution_source,
            },
        ),
    decreases events.len(),
{
    if events.len() > 0 {
        let earlier = events.drop_last();
        let event = events.last();
        let stage = install_run(kind, earlier);
        law_hooks_go_only_where_the_pattern_is(kind, earlier);
        law_every_answer_brings_the_installation_forward(kind, 0, stage, event);
        lemma_step_is_reported(kind, earlier, event, stage);
        assert(events =~= earlier.push(event));
    }
}

/// The pattern of a hook covers the bytes that the hook displaces, and more.
proof fn lemma_pattern_covers_the_displaced_bytes(kind: HookKind)
    ensures
        5 <= kind.overwrite_len() < kind.pattern().len(),
{
}

/// An installation to which nothing stands in the way puts the hook at the expected place: with the
/// game module at some base and the hook's signature at the place that is expected for it there, with
/// memory for the trampoline and the stub, with jumps that are possible, and with a place that can be
/// made writable.
pub proof fn law_a_hook_is_installed_at_the_expected_place(
    kind: HookKind,
    module_base: usize,
    found: &[u8],
    trampoline_addr: usize,
    displaced: &[u8],
    stub_addr: usize,
    protection: u32,
)
    requires
        code::matches_at(found@, 0, kind.pattern()),
        module_base + kind.fallback_rva() + kind.pattern().len() <= code::address_space(),
        displaced@.len() == 6,
        0 < trampoline_addr && trampoline_addr + 11 <= code::address_space(),
        0 < stub_addr && stub_addr + 15 <= code::address_space(),
        code::jump_offset(
            trampoline_addr + 6,
            module_base + kind.fallback_rva() + 6,
        ) is Ok,
        code::jump_offset(stub_addr + 10, trampoline_addr as int) is Ok,
        code::jump_offset(module_base + kind.fallback_rva(), stub_addr as int) is Ok,
    ensures
        ({
            let found_site = StageView::FindModule.after(
                kind,
                InstallEvent::Module(Some(module_base)),
            ).after(kind, InstallEvent::Bytes(found));
            let trampoline_written = found_site.after(
                kind,
                InstallEvent::Allocated(trampoline_addr),
            ).after(kind, InstallEvent::Bytes(displaced)).after(kind, InstallEvent::Written);
            let stub_written = trampoline_written.after(
                kind,
                InstallEvent::Allocated(stub_addr),
            ).after(kind, InstallEvent::Written);
            let ended = stub_written.after(
                kind,
                InstallEvent::Unprotected(Some(protection)),
            ).after(kind, InstallEvent::Written).after(kind, InstallEvent::Restored);
            &&& ended matches StageView::Installed { hook }
            &&& hook.target_addr == module_base + match kind {
                HookKind::SongId => 0x965C35int,
                HookKind::Difficulty => 0x85BB8Aint,
                HookKind::PlayStateEnter => 0xF5C4CEint,
                HookKind::PlayStateExit => 0xF5DDDCint,
            }
            &&& hook.trampoline_addr == trampoline_addr
            &&& hook.stub_addr == stub_addr
            &&& hook.resolution_source == HookResolutionSource::HardcodedAddress
        }),
{
    lemma_pattern_covers_the_displaced_bytes(kind);
}

/// Where the signature is not at the expected place, the image is read, as long as its header says
/// that it is, and the first place in it that has the signature becomes the hook's.
pub proof fn law_a_hook_is_looked_for_in_the_image(
    kind: HookKind,
    callback: u32,
    module_base: usize,
    seen: &[u8],
    header: u32,
    size: u32,
    image: &[u8],
    offset: int,
)
    requires
        module_base + kind.fallback_rva() + kind.pattern().len() <= code::address_space(),
        module_base + header + 0x50 <= usize::MAX,
        module_base + size <= code::address_space(),
        !code::matches_at(seen@, 0, kind.pattern()),
        image@.len() == size,
        code::matches_at(image@, offset, kind.pattern()),
        forall|earlier: int|
            0 <= earlier < offset ==> !#[trigger] code::matches_at(
                image@,
                earlier,
                kind.pattern(),
            ),
    ensures
        ({
            let expected = StageView::FindModule.after(
                kind,
                InstallEvent::Module(Some(module_base)),
            );
            let header_wanted = expected.after(kind, InstallEvent::Bytes(seen));
            let size_wanted = header_wanted.after(kind, InstallEvent::Word(Some(header)));
            let image_wanted = size_wanted.after(kind, InstallEvent::Word(Some(size)));
            let found = image_wanted.after(kind, InstallEvent::Bytes(image));
            &&& header_wanted.request(kind, callback) == (RequestView::ReadWord {
                addr: (module_base + 0x3C) as usize,
            })
            &&& size_wanted.request(kind, callback) == (RequestView::ReadWord {
                addr: (module_base + header + 0x50) as usize,
            })
            &&& image_wanted.request(kind, callback) == (RequestView::ReadBytes {
                addr: module_base,
                len: size as usize,
            })
            &&& found matches StageView::AllocateTrampoline { site }
            &&& site.target_addr == module_base + offset
            &&& site.resolution_source == HookResolutionSource::PatternScan
        }),
{
    lemma_pattern_covers_the_displaced_bytes(kind);
    let pattern = kind.pattern();
    assert(code::pattern_address(module_base as int, image@, pattern) is Some);
    code::lemma_pattern_address_is_a_first_match(module_base as int, image@, pattern);
    let first = code::pattern_address(module_base as int, image@, pattern)->0 - module_base;
    if first < offset {
        assert(!code::matches_at(image@, first, pattern));
    }
    if offset < first {
        assert(!code::matches_at(image@, offset, pattern));
    }
}

/// What is asked for on the way: first the module, then as many bytes at the expected place as the
/// signature has, then memory for the six displaced bytes and a jump, those six bytes, and memory for
/// a stub.
pub proof fn law_the_operations_of_an_installation(
    kind: HookKind,
    callback: u32,
    module_base: usize,
    site: HookSite,
    trampoline_addr: usize,
    displaced: Seq<u8>,
)
    requires
        module_base + kind.fallback_rva() + kind.pattern().len() <= code::address_space(),
    ensures
        StageView::FindModule.request(kind, callback) is FindModule,
        StageView::FindModule.after(kind, InstallEvent::Module(Some(module_base))).request(
            kind,
            callback,
        ) == (RequestView::ReadBytes {
            addr: (module_base + kind.fallback_rva()) as usize,
            len: match kind {
                HookKind::SongId => 21,
                HookKind::Difficulty => 24,
                HookKind::PlayStateEnter => 10,
                HookKind::PlayStateExit => 8,
            },
        }),
        (StageView::AllocateTrampoline { site }).request(kind, callback)
            == (RequestView::Allocate { size: 11 }),
        (StageView::CopyTarget { site, trampoline_addr }).request(kind, callback)
            == (RequestView::ReadBytes { addr: site.target_addr, len: 6 }),
        (StageView::AllocateStub { site, trampoline_addr, displaced }).request(kind, callback)
            == (RequestView::Allocate { size: 15 }),
{
}

/// Where the signature would reach beyond the address space, or the header would, the search goes on
/// without it: from the expected place to the image, and from the image to its end.
pub proof fn law_the_search_stays_in_the_address_space(
    kind: HookKind,
    module_base: usize,
    addr: usize,
    header: u32,
)
    ensures
        module_base + kind.fallback_rva() + kind.pattern().len() > code::address_space() ==> {
            let next = StageView::FindModule.after(kind, InstallEvent::Module(Some(module_base)));
            if module_base + 0x3C <= usize::MAX {
                next == (StageView::ReadHeaderOffset {
                    module_base,
                    addr: (module_base + 0x3C) as usize,
                })
            } else {
                next == (StageView::Failed {
                    error: HookInstallError::HookSignatureNotFound(kind.name()),
                })
            }
        },
        module_base + header + 0x50 > usize::MAX ==> (StageView::ReadHeaderOffset {
            module_base,
            addr,
        }).after(kind, InstallEvent::Word(Some(header))) == (StageView::Failed {
            error: HookInstallError::HookSignatureNotFound(kind.name()),
        }),
{
}

/// Each failure ends the installation with its own reason: no module, no place in an image that cannot
/// be read or that lacks the signature, no memory, no possible jump, no writable place.
pub proof fn law_failures_have_their_reasons(
    kind: HookKind,
    module_base: usize,
    addr: usize,
    size: usize,
    image: &[u8],
    site: HookSite,
    trampoline_addr: usize,
    displaced: Seq<u8>,
    stub_addr: usize,
    protection: u32,
)
    requires
        image@.len() == size,
        forall|offset: int| !#[trigger] code::matches_at(image@, offset, kind.pattern()),
    ensures
        StageView::FindModule.after(kind, InstallEvent::Module(None)) == (StageView::Failed {
            error: HookInstallError::GameModuleHandleNotFound,
        }),
        (StageView::ReadHeaderOffset { module_base, addr }).after(kind, InstallEvent::Word(None))
            == (StageView::Failed {
            error: HookInstallError::HookSignatureNotFound(kind.name()),
        }),
        (StageView::ReadImageSize { module_base, addr }).after(kind, InstallEvent::Word(None))
            == (StageView::Failed {
            error: HookInstallError::HookSignatureNotFound(kind.name()),
        }),
        (StageView::ScanImage { module_base, size }).after(kind, InstallEvent::Bytes(image))
            == (StageView::Failed {
            error: HookInstallError::HookSignatureNotFound(kind.name()),
        }),
        (StageView::AllocateTrampoline { site }).after(kind, InstallEvent::Allocated(0))
            == (StageView::Failed { error: HookInstallError::ExecutableBlockAllocationFailed }),
        (StageView::AllocateStub { site, trampoline_addr, displaced }).after(
            kind,
            InstallEvent::Allocated(0),
        ) == (StageView::Failed { error: HookInstallError::ExecutableBlockAllocationFailed }),
        code::jump_offset(trampoline_addr + 6, site.target_addr + 6) matches Err(error) ==> (
        StageView::WriteTrampoline { site, trampoline_addr, displaced }).after(
            kind,
            InstallEvent::Written,
        ) == (StageView::Failed { error }),
        code::jump_offset(stub_addr + 10, trampoline_addr as int) matches Err(error) ==> (
        StageView::WriteStub { site, trampoline_addr, displaced, stub_addr }).after(
            kind,
            InstallEvent::Written,
        ) == (StageView::Failed { error }),
        (StageView::Unprotect { site, trampoline_addr, displaced, stub_addr }).after(
            kind,
            InstallEvent::Unprotected(None),
        ) == (StageView::Failed { error: HookInstallError::VirtualProtectFailed }),
        code::jump_offset(site.target_addr as int, stub_addr as int) matches Err(error) ==> (
        StageView::WritePatch { site, trampoline_addr, displaced, stub_addr, protection }).after(
            kind,
            InstallEvent::Written,
        ) == (StageView::Failed { error }),
{
}

} // verus!
