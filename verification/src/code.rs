//! Machine code: byte patterns, relative jumps and the code of a hook.

use crate::types::{HookInstallError, PatternByte};
use vstd::prelude::*;

verus! {

/// The number of addresses.
pub open spec fn address_space() -> int {
    usize::MAX + 1
}

/// Whether `byte` is what the pattern asks for.
pub open spec fn byte_matches(expected: PatternByte, byte: u8) -> bool {
    match expected {
        PatternByte::Exact(value) => byte == value,
        PatternByte::Any => true,
    }
}

/// Whether `bytes` hold the pattern at `offset`.
pub open spec fn matches_at(bytes: Seq<u8>, offset: int, pattern: Seq<PatternByte>) -> bool {
    &&& 0 <= offset
    &&& offset + pattern.len() <= bytes.len()
    &&& forall|i: int|
        0 <= i < pattern.len() ==> byte_matches(#[trigger] pattern[i], bytes[offset + i])
}

/// Whether `offset` is the first place where `bytes` hold the pattern.
pub open spec fn is_first_match(bytes: Seq<u8>, offset: int, pattern: Seq<PatternByte>) -> bool {
    &&& matches_at(bytes, offset, pattern)
    &&& forall|earlier: int|
        0 <= earlier < offset ==> !#[trigger] matches_at(bytes, earlier, pattern)
}

/// The address of the first place in a module at `module_base` that holds the pattern. An empty
/// pattern is nowhere.
pub open spec fn pattern_address(
    module_base: int,
    bytes: Seq<u8>,
    pattern: Seq<PatternByte>,
) -> Option<int> {
    if pattern.len() > 0 && exists|offset: int| matches_at(bytes, offset, pattern) {
        Some(module_base + choose|offset: int| is_first_match(bytes, offset, pattern))
    } else {
        None
    }
}

/// `addr + offset`, if it is an address.
pub fn add_offset(addr: usize, offset: usize) -> (r: Option<usize>)
    ensures
        r == if addr + offset <= usize::MAX {
            Some((addr + offset) as usize)
        } else {
            None
        },
{
    addr.checked_add(offset)
}

/// Whether `size` bytes from `addr` on lie in the address space.
pub fn fits_address_space(addr: usize, size: usize) -> (r: bool)
    ensures
        r == (addr + size <= address_space()),
{
    size == 0 || size - 1 <= usize::MAX - addr
}

fn matches_from(bytes: &[u8], offset: usize, pattern: &Vec<PatternByte>) -> (r: bool)
    requires
        offset + pattern.len() <= bytes.len(),
    ensures
        r == matches_at(bytes@, offset as int, pattern@),
{
    let mut i: usize = 0;
    while i < pattern.len()
        invariant
            i <= pattern.len(),
            offset + pattern.len() <= bytes.len(),
            forall|j: int|
                0 <= j < i ==> byte_matches(#[trigger] pattern@[j], bytes@[offset + j]),
        decreases pattern.len() - i,
    {
        let same = match pattern[i] {
            PatternByte::Exact(value) => bytes[offset + i] == value,
            PatternByte::Any => true,
        };
        if !same {
            assert(!byte_matches(pattern@[i as int], bytes@[offset + i]));
            return false;
        }
        i += 1;
    }
    true
}

/// Whether `bytes` start with the pattern.
pub fn pattern_matches(bytes: &[u8], pattern: &Vec<PatternByte>) -> (r: bool)
    ensures
        r == matches_at(bytes@, 0, pattern@),
{
    bytes.len() >= pattern.len() && matches_from(bytes, 0, pattern)
}

proof fn lemma_first_match_is_unique(
    bytes: Seq<u8>,
    a: int,
    b: int,
    pattern: Seq<PatternByte>,
)
    requires
        is_first_match(bytes, a, pattern),
        is_first_match(bytes, b, pattern),
    ensures
        a == b,
{
    if a < b {
        assert(!matches_at(bytes, a, pattern));
    }
    if b < a {
        assert(!matches_at(bytes, b, pattern));
    }
}

proof fn lemma_first_match_up_to(bytes: Seq<u8>, offset: int, pattern: Seq<PatternByte>)
    requires
        matches_at(bytes, offset, pattern),
    ensures
        exists|first: int| is_first_match(bytes, first, pattern),
    decreases offset,
{
    if exists|earlier: int| 0 <= earlier < offset && matches_at(bytes, earlier, pattern) {
        let earlier = choose|earlier: int|
            0 <= earlier < offset && matches_at(bytes, earlier, pattern);
        lemma_first_match_up_to(bytes, earlier, pattern);
    } else {
        assert(is_first_match(bytes, offset, pattern));
    }
}

/// The address of a pattern is that of its first place.
pub proof fn lemma_pattern_address_is_a_first_match(
    module_base: int,
    bytes: Seq<u8>,
    pattern: Seq<PatternByte>,
)
    requires
        pattern_address(module_base, bytes, pattern) is Some,
    ensures
        is_first_match(
            bytes,
            pattern_address(module_base, bytes, pattern)->0 - module_base,
            pattern,
        ),
{
    let offset = choose|offset: int| matches_at(bytes, offset, pattern);
    lemma_first_match_up_to(bytes, offset, pattern);
}

/// The address of the first place in a module at `module_base` that holds the pattern.
pub fn find_pattern(module_base: usize, module_bytes: &[u8], pattern: &Vec<PatternByte>) -> (r:
    Option<usize>)
    requires
        module_base + module_bytes@.len() <= address_space(),
    ensures
        match r {
            Some(addr) => pattern_address(module_base as int, module_bytes@, pattern@) == Some(
                addr as int,
            ),
            None => pattern_address(module_base as int, module_bytes@, pattern@) is None,
        },
        r matches Some(addr) ==> is_first_match(module_bytes@, addr - module_base, pattern@),
{
    if pattern.len() == 0 || module_bytes.len() < pattern.len() {
        return None;
    }
    let last: usize = module_bytes.len() - pattern.len();
    let mut offset: usize = 0;
    loop
        invariant
            0 < pattern@.len() <= module_bytes@.len(),
            last == module_bytes@.len() - pattern@.len(),
            offset <= last,
            module_base + module_bytes@.len() <= address_space(),
            forall|earlier: int|
                0 <= earlier < offset ==> !#[trigger] matches_at(
                    module_bytes@,
                    earlier,
                    pattern@,
                ),
        decreases last - offset,
    {
        if matches_from(module_bytes, offset, pattern) {
            proof {
                let chosen = choose|o: int| is_first_match(module_bytes@, o, pattern@);
                assert(is_first_match(module_bytes@, offset as int, pattern@));
                lemma_first_match_is_unique(module_bytes@, offset as int, chosen, pattern@);
            }
            return Some(module_base + offset);
        }
        if offset == last {
            assert forall|o: int| !matches_at(module_bytes@, o, pattern@) by {
                if o < offset {
                } else if o > last {
                }
            }
            return None;
        }
        offset += 1;
    }
}

/// The distance from `from_next` to `to`, taken round the address space so that it is a signed
/// number of the machine's width.
pub open spec fn wrapped_distance(from_next: int, to: int) -> int {
    let distance = to - from_next;
    if distance > isize::MAX {
        distance - address_space()
    } else if distance < isize::MIN {
        distance + address_space()
    } else {
        distance
    }
}

/// The operand of a jump from `from` to `to`, counted from the end of the five bytes of the jump.
pub open spec fn jump_offset(from: int, to: int) -> Result<i32, HookInstallError> {
    if from + 5 > usize::MAX {
        Err(HookInstallError::RelativeJumpSourceOverflow)
    } else if i32::MIN <= wrapped_distance(from + 5, to) <= i32::MAX {
        Ok(wrapped_distance(from + 5, to) as i32)
    } else {
        Err(HookInstallError::RelativeJumpOutOfRange)
    }
}

/// The operand of a jump from `from_addr` to `to_addr`.
pub fn relative_jump_offset(from_addr: usize, to_addr: usize) -> (r: Result<i32, HookInstallError>)
    ensures
        r == jump_offset(from_addr as int, to_addr as int),
{
    let from_next = match from_addr.checked_add(5) {
        Some(from_next) => from_next,
        None => return Err(HookInstallError::RelativeJumpSourceOverflow),
    };
    let direct: i128 = to_addr as i128 - from_next as i128;
    let distance: i128 = if direct > isize::MAX as i128 {
        direct - (usize::MAX as i128 + 1)
    } else if direct < isize::MIN as i128 {
        direct + (usize::MAX as i128 + 1)
    } else {
        direct
    };
    if i32::MIN as i128 <= distance && distance <= i32::MAX as i128 {
        Ok(distance as i32)
    } else {
        Err(HookInstallError::RelativeJumpOutOfRange)
    }
}

/// The four bytes of `value`, lowest first.
pub open spec fn word_bytes(value: u32) -> Seq<u8> {
    seq![
        (value % 256) as u8,
        (value / 256 % 256) as u8,
        (value / 65536 % 256) as u8,
        (value / 16777216) as u8,
    ]
}

/// The word with the bit pattern of `value`.
pub open spec fn signed_word(value: i32) -> u32 {
    if value < 0 {
        (value + 0x1_0000_0000) as u32
    } else {
        value as u32
    }
}

/// The signed number with the bit pattern of `word`.
pub open spec fn word_signed(word: u32) -> i32 {
    if word >= 0x8000_0000 {
        (word - 0x1_0000_0000) as i32
    } else {
        word as i32
    }
}

/// The word whose four bytes, lowest first, stand at `at`.
pub open spec fn word_at(code: Seq<u8>, at: int) -> int {
    code[at] + 256 * code[at + 1] + 65536 * code[at + 2] + 16777216 * code[at + 3]
}

/// The opcode of a relative jump.
pub const JUMP_OPCODE: u8 = 0xE9;

/// The opcode that does nothing.
pub const NOP_OPCODE: u8 = 0x90;

/// The bytes of a jump whose operand is `offset`.
pub open spec fn jump_bytes(offset: i32) -> Seq<u8> {
    seq![JUMP_OPCODE] + word_bytes(signed_word(offset))
}

/// `code` with `bytes` in place of what stood from `at` on.
pub open spec fn overwritten(code: Seq<u8>, at: int, bytes: Seq<u8>) -> Seq<u8> {
    code.take(at) + bytes + code.skip(at + bytes.len())
}

/// The signed number with the bit pattern of `word`.
pub fn to_signed(word: u32) -> (r: i32)
    ensures
        r == word_signed(word),
{
    if word >= 0x8000_0000 {
        (word as i64 - 0x1_0000_0000) as i32
    } else {
        word as i32
    }
}

/// Writes the four bytes of `value` at `at`.
fn write_word(code: &mut Vec<u8>, at: usize, value: u32)
    requires
        at + 4 <= old(code).len(),
    ensures
        final(code)@ == overwritten(old(code)@, at as int, word_bytes(value)),
{
    code.set(at, (value % 256) as u8);
    code.set(at + 1, (value / 256 % 256) as u8);
    code.set(at + 2, (value / 65536 % 256) as u8);
    code.set(at + 3, (value / 16777216) as u8);
    assert(code@ =~= overwritten(old(code)@, at as int, word_bytes(value)));
}

/// `code` after a jump from `from` to `to` was written at `at`. The opcode is there even if the jump
/// turned out to be impossible.
pub open spec fn with_jump(code: Seq<u8>, at: int, from: int, to: int) -> Seq<u8> {
    match jump_offset(from, to) {
        Ok(offset) => overwritten(code, at, jump_bytes(offset)),
        Err(_) => code.update(at, JUMP_OPCODE),
    }
}

/// Writes a jump to `to_addr` at index `at` of `code`, which stands at the address `from_addr`.
pub fn write_relative_jump(code: &mut Vec<u8>, at: usize, from_addr: usize, to_addr: usize) -> (r:
    Result<(), HookInstallError>)
    requires
        at + 5 <= old(code).len(),
    ensures
        final(code)@ == with_jump(old(code)@, at as int, from_addr as int, to_addr as int),
        r == match jump_offset(from_addr as int, to_addr as int) {
            Ok(_) => Ok::<(), HookInstallError>(()),
            Err(error) => Err(error),
        },
{
    code.set(at, JUMP_OPCODE);
    match relative_jump_offset(from_addr, to_addr) {
        Ok(offset) => {
            let word: u32 = if offset < 0 {
                (offset as i64 + 0x1_0000_0000) as u32
            } else {
                offset as u32
            };
            write_word(code, at + 1, word);
            assert(code@ =~= overwritten(old(code)@, at as int, jump_bytes(offset)));
            Ok(())
        },
        Err(error) => Err(error),
    }
}

/// Code to write, and whether it could be completed.
#[derive(Debug)]
pub struct CodeBlock {
    pub bytes: Vec<u8>,
    pub result: Result<(), HookInstallError>,
}

/// Whether a jump from `from` to `to` is possible.
pub open spec fn jump_result(from: int, to: int) -> Result<(), HookInstallError> {
    match jump_offset(from, to) {
        Ok(_) => Ok(()),
        Err(error) => Err(error),
    }
}

/// The code of a trampoline: the instructions that the hook displaces, then a jump to what follows
/// them.
pub open spec fn trampoline_code(displaced: Seq<u8>, target: int, trampoline: int) -> Seq<u8> {
    with_jump(
        displaced + seq![0u8, 0u8, 0u8, 0u8, 0u8],
        displaced.len() as int,
        trampoline + displaced.len(),
        target + displaced.len(),
    )
}

/// The code of a trampoline at `trampoline_addr` for the instructions at `target_addr`.
pub fn create_trampoline(displaced: &Vec<u8>, target_addr: usize, trampoline_addr: usize) -> (r:
    CodeBlock)
    requires
        displaced@.len() + 5 <= usize::MAX,
        target_addr + displaced@.len() <= usize::MAX,
        trampoline_addr + displaced@.len() <= usize::MAX,
    ensures
        r.bytes@ == trampoline_code(displaced@, target_addr as int, trampoline_addr as int),
        r.result == jump_result(
            trampoline_addr + displaced@.len(),
            target_addr + displaced@.len(),
        ),
{
    let len: usize = displaced.len();
    let mut bytes: Vec<u8> = Vec::new();
    let mut i: usize = 0;
    while i < len
        invariant
            i <= len,
            len == displaced@.len(),
            bytes@ == displaced@.take(i as int),
        decreases len - i,
    {
        bytes.push(displaced[i]);
        assert(bytes@ =~= displaced@.take(i + 1));
        i += 1;
    }
    bytes.push(0);
    bytes.push(0);
    bytes.push(0);
    bytes.push(0);
    bytes.push(0);
    assert(bytes@ =~= displaced@ + seq![0u8, 0u8, 0u8, 0u8, 0u8]);
    let result = write_relative_jump(&mut bytes, len, trampoline_addr + len, target_addr + len);
    CodeBlock { bytes, result }
}

/// The size of a stub.
pub const STUB_SIZE: usize = 15;

/// Where the jump stands in a stub.
pub const STUB_JUMP_AT: usize = 10;

/// The code of a stub: save all registers, hand the callback a pointer to them, restore them, and
/// jump to the trampoline.
pub open spec fn stub_code(stub: int, callback: u32, trampoline: int) -> Seq<u8> {
    with_jump(
        seq![0x60u8, 0x54u8, 0xB8u8] + word_bytes(callback) + seq![
            0xFFu8,
            0xD0u8,
            0x61u8,
            0u8,
            0u8,
            0u8,
            0u8,
            0u8,
        ],
        STUB_JUMP_AT as int,
        stub + STUB_JUMP_AT,
        trampoline,
    )
}

/// The code of a stub at `stub_addr` that calls `callback` and goes on to the trampoline.
pub fn create_hook_stub(stub_addr: usize, callback: u32, trampoline_addr: usize) -> (r: CodeBlock)
    requires
        stub_addr + STUB_JUMP_AT <= usize::MAX,
    ensures
        r.bytes@ == stub_code(stub_addr as int, callback, trampoline_addr as int),
        r.result == jump_result(stub_addr + STUB_JUMP_AT, trampoline_addr as int),
{
    let mut bytes: Vec<u8> = vec![
        0x60u8,
        0x54u8,
        0xB8u8,
        0u8,
        0u8,
        0u8,
        0u8,
        0xFFu8,
        0xD0u8,
        0x61u8,
        0u8,
        0u8,
        0u8,
        0u8,
        0u8,
    ];
    write_word(&mut bytes, 3, callback);
    assert(bytes@ =~= seq![0x60u8, 0x54u8, 0xB8u8] + word_bytes(callback) + seq![
        0xFFu8,
        0xD0u8,
        0x61u8,
        0u8,
        0u8,
        0u8,
        0u8,
        0u8,
    ]);
    let result = write_relative_jump(
        &mut bytes,
        STUB_JUMP_AT,
        stub_addr + STUB_JUMP_AT,
        trampoline_addr,
    );
    CodeBlock { bytes, result }
}

/// Why the patch of `len` bytes at `target` cannot be completed, if it cannot.
pub open spec fn patch_result(target: int, len: int, stub: int) -> Result<(), HookInstallError> {
    match jump_offset(target, stub) {
        Ok(_) => if len > 5 && target + len - 1 > usize::MAX {
            Err(HookInstallError::HookPatchOverflow)
        } else {
            Ok(())
        },
        Err(error) => Err(error),
    }
}

/// The code that takes the place of the displaced instructions: a jump to the stub, and nothing after
/// it that is still addressable.
pub open spec fn patch_code(displaced: Seq<u8>, target: int, stub: int) -> Seq<u8> {
    let jump = with_jump(displaced, 0, target, stub);
    if jump_offset(target, stub) is Ok {
        Seq::new(
            jump.len(),
            |i: int|
                if 5 <= i && target + i <= usize::MAX {
                    NOP_OPCODE
                } else {
                    jump[i]
                },
        )
    } else {
        jump
    }
}

/// The code that takes the place of the displaced instructions at `target_addr`.
pub fn patch_hook_target(displaced: &Vec<u8>, target_addr: usize, stub_addr: usize) -> (r: CodeBlock)
    requires
        displaced@.len() >= 5,
    ensures
        r.bytes@ == patch_code(displaced@, target_addr as int, stub_addr as int),
        r.result == patch_result(target_addr as int, displaced@.len() as int, stub_addr as int),
{
    let mut bytes: Vec<u8> = Vec::new();
    let mut i: usize = 0;
    while i < displaced.len()
        invariant
            i <= displaced.len(),
            bytes@ == displaced@.take(i as int),
        decreases displaced.len() - i,
    {
        bytes.push(displaced[i]);
        assert(bytes@ =~= displaced@.take(i + 1));
        i += 1;
    }
    assert(bytes@ =~= displaced@);
    let ghost jump = with_jump(displaced@, 0, target_addr as int, stub_addr as int);
    if let Err(error) = write_relative_jump(&mut bytes, 0, target_addr, stub_addr) {
        return CodeBlock { bytes, result: Err(error) };
    }
    let mut offset: usize = 5;
    while offset < bytes.len()
        invariant
            5 <= offset <= bytes@.len(),
            bytes@.len() == displaced@.len(),
            jump.len() == displaced@.len(),
            jump == with_jump(displaced@, 0, target_addr as int, stub_addr as int),
            jump_offset(target_addr as int, stub_addr as int) is Ok,
            target_addr + offset - 1 <= usize::MAX,
            forall|j: int|
                0 <= j < bytes@.len() ==> #[trigger] bytes@[j] == if 5 <= j < offset {
                    NOP_OPCODE
                } else {
                    jump[j]
                },
        decreases bytes.len() - offset,
    {
        if add_offset(target_addr, offset).is_none() {
            assert(bytes@ =~= patch_code(displaced@, target_addr as int, stub_addr as int));
            return CodeBlock { bytes, result: Err(HookInstallError::HookPatchOverflow) };
        }
        bytes.set(offset, NOP_OPCODE);
        offset += 1;
    }
    assert(bytes@ =~= patch_code(displaced@, target_addr as int, stub_addr as int));
    CodeBlock { bytes, result: Ok(()) }
}

/// Where execution goes on that meets a jump at index `at` of `code`, which stands at `addr`.
pub open spec fn jump_destination(code: Seq<u8>, at: int, addr: int) -> Option<int> {
    if 0 <= at && at + 5 <= code.len() && code[at] == JUMP_OPCODE {
        Some((addr + 5 + word_signed(word_at(code, at + 1) as u32)) % address_space())
    } else {
        None
    }
}

proof fn lemma_word_reads_back(code: Seq<u8>, at: int, value: u32)
    requires
        0 <= at,
        at + 4 <= code.len(),
        code.subrange(at, at + 4) == word_bytes(value),
    ensures
        word_at(code, at) == value,
{
    let word = code.subrange(at, at + 4);
    assert(word[0] == code[at]);
    assert(word[1] == code[at + 1]);
    assert(word[2] == code[at + 2]);
    assert(word[3] == code[at + 3]);
}

/// A jump that could be written leads where it was meant to lead.
pub proof fn law_jumps_land_on_their_target(code: Seq<u8>, at: int, from: int, to: int)
    requires
        0 <= at,
        at + 5 <= code.len(),
        0 <= from <= usize::MAX,
        0 <= to <= usize::MAX,
        jump_offset(from, to) is Ok,
    ensures
        jump_destination(with_jump(code, at, from, to), at, from) == Some(to),
{
    let offset = jump_offset(from, to)->Ok_0;
    let written = with_jump(code, at, from, to);
    assert(written.subrange(at + 1, at + 5) =~= word_bytes(signed_word(offset)));
    lemma_word_reads_back(written, at + 1, signed_word(offset));
    assert(word_signed(signed_word(offset)) == offset);
    let sum = from + 5 + offset;
    let space = address_space();
    assert(sum == to || sum == to - space || sum == to + space);
    lemma_wraps_to(sum, to, space);
}

/// A complete hook leads from the patched place to the stub, from the stub to the trampoline, and
/// from the trampoline, which holds the displaced instructions, back to what followed them. Behind
/// the jump the patched place does nothing.
pub proof fn law_a_hook_leads_back_to_the_program(
    displaced: Seq<u8>,
    target: int,
    trampoline: int,
    stub: int,
    callback: u32,
)
    requires
        displaced.len() >= 5,
        0 <= target,
        target + displaced.len() <= usize::MAX,
        0 <= trampoline,
        trampoline + displaced.len() <= usize::MAX,
        0 <= stub,
        stub + STUB_SIZE <= usize::MAX,
        jump_result(trampoline + displaced.len(), target + displaced.len()) is Ok,
        jump_result(stub + STUB_JUMP_AT, trampoline) is Ok,
        patch_result(target, displaced.len() as int, stub) is Ok,
    ensures
        jump_destination(patch_code(displaced, target, stub), 0, target) == Some(stub),
        forall|i: int|
            5 <= i < displaced.len() ==> #[trigger] patch_code(displaced, target, stub)[i]
                == NOP_OPCODE,
        jump_destination(
            stub_code(stub, callback, trampoline),
            STUB_JUMP_AT as int,
            stub + STUB_JUMP_AT,
        ) == Some(trampoline),
        trampoline_code(displaced, target, trampoline).take(displaced.len() as int) == displaced,
        jump_destination(
            trampoline_code(displaced, target, trampoline),
            displaced.len() as int,
            trampoline + displaced.len(),
        ) == Some(target + displaced.len()),
{
    let n = displaced.len() as int;
    let jump = with_jump(displaced, 0, target, stub);
    let patch = patch_code(displaced, target, stub);
    law_jumps_land_on_their_target(displaced, 0, target, stub);
    assert(patch[0] == jump[0]);
    assert(patch[1] == jump[1]);
    assert(patch[2] == jump[2]);
    assert(patch[3] == jump[3]);
    assert(patch[4] == jump[4]);
    assert(word_at(patch, 1) == word_at(jump, 1));

    let stub_base = seq![0x60u8, 0x54u8, 0xB8u8] + word_bytes(callback) + seq![
        0xFFu8,
        0xD0u8,
        0x61u8,
        0u8,
        0u8,
        0u8,
        0u8,
        0u8,
    ];
    law_jumps_land_on_their_target(
        stub_base,
        STUB_JUMP_AT as int,
        stub + STUB_JUMP_AT,
        trampoline,
    );

    let trampoline_base = displaced + seq![0u8, 0u8, 0u8, 0u8, 0u8];
    law_jumps_land_on_their_target(trampoline_base, n, trampoline + n, target + n);
    assert(trampoline_code(displaced, target, trampoline).take(n) =~= displaced);
}

/// A pattern is where every byte that it names is: bytes that it leaves open may be anything, and no
/// byte beyond its length counts.
pub proof fn law_patterns_match_byte_by_byte(
    bytes: Seq<u8>,
    offset: int,
    pattern: Seq<PatternByte>,
)
    requires
        0 <= offset,
    ensures
        matches_at(bytes, offset, pattern) <==> {
            &&& offset + pattern.len() <= bytes.len()
            &&& forall|i: int|
                0 <= i < pattern.len() ==> ((#[trigger] pattern[i]) matches PatternByte::Exact(
                    value,
                ) ==> bytes[offset + i] == value)
        },
{
}

/// The address of a pattern is the lowest one in the module where the pattern is; where it is nowhere,
/// there is none.
pub proof fn law_the_lowest_place_of_a_pattern_counts(
    module_base: int,
    bytes: Seq<u8>,
    pattern: Seq<PatternByte>,
    offset: int,
)
    requires
        pattern.len() > 0,
    ensures
        pattern_address(module_base, bytes, pattern) is None <==> (forall|o: int|
            !#[trigger] matches_at(bytes, o, pattern)),
        matches_at(bytes, offset, pattern) ==> {
            &&& pattern_address(module_base, bytes, pattern) matches Some(addr)
            &&& module_base <= addr <= module_base + offset
            &&& matches_at(bytes, addr - module_base, pattern)
        },
{
    if pattern_address(module_base, bytes, pattern) is Some {
        lemma_pattern_address_is_a_first_match(module_base, bytes, pattern);
        let first = pattern_address(module_base, bytes, pattern)->0 - module_base;
        assert(matches_at(bytes, first, pattern));
    }
}

/// Whether a jump at `from` with the operand `offset` leads to `to`.
pub open spec fn leads_to(from: int, offset: i32, to: int) -> bool {
    (from + 5 + offset) % address_space() == to
}

/// A jump is written with the operand that leads to its target, and is refused only if there is no
/// such operand, or if the address behind the jump does not exist.
pub proof fn law_a_jump_is_refused_only_if_it_cannot_lead_there(from: int, to: int)
    requires
        0 <= from <= usize::MAX,
        0 <= to <= usize::MAX,
    ensures
        from + 5 > usize::MAX ==> jump_offset(from, to) == Err::<i32, _>(
            HookInstallError::RelativeJumpSourceOverflow,
        ),
        from + 5 <= usize::MAX ==> match jump_offset(from, to) {
            Ok(offset) => leads_to(from, offset, to),
            Err(error) => {
                &&& error == HookInstallError::RelativeJumpOutOfRange
                &&& forall|offset: i32| !#[trigger] leads_to(from, offset, to)
            },
        },
        jump_offset(from, to) is Ok <==> jump_result(from, to) is Ok,
{
    let space = address_space();
    if from + 5 <= usize::MAX {
        let distance = wrapped_distance(from + 5, to);
        assert(distance == to - (from + 5) || distance == to - (from + 5) - space || distance == to
            - (from + 5) + space);
        if let Ok(offset) = jump_offset(from, to) {
            lemma_wraps_to(from + 5 + offset, to, space);
        } else {
            assert forall|offset: i32| !#[trigger] leads_to(from, offset, to) by {
                if leads_to(from, offset, to) {
                    let sum = from + 5 + offset;
                    let turns = sum / space;
                    assert(sum == turns * space + to) by (nonlinear_arith)
                        requires
                            sum % space == to,
                            turns == sum / space,
                            space > 0,
                    ;
                    assert(-1 <= turns <= 1) by (nonlinear_arith)
                        requires
                            sum == turns * space + to,
                            0 <= to < space,
                            -space <= sum < 2 * space,
                            space > 0,
                    ;
                    assert(turns * space == space || turns * space == 0 || turns * space == -space)
                        by (nonlinear_arith)
                        requires
                            -1 <= turns <= 1,
                    ;
                    assert(false);
                }
            }
        }
    }
}

proof fn lemma_wraps_to(sum: int, to: int, space: int)
    requires
        0 <= to < space,
        sum == to || sum == to - space || sum == to + space,
    ensures
        sum % space == to,
{
    if sum == to - space {
        assert(sum % space == to) by (nonlinear_arith)
            requires
                sum == to - space,
                0 <= to < space,
        ;
    } else if sum == to + space {
        assert(sum % space == to) by (nonlinear_arith)
            requires
                sum == to + space,
                0 <= to < space,
        ;
    } else {
        assert(sum % space == to) by (nonlinear_arith)
            requires
                sum == to,
                0 <= to < space,
        ;
    }
}

/// A word and the signed number with its bit pattern differ by a multiple of two to the power of 32.
pub proof fn law_signed_words_keep_their_bits(word: u32, value: i32)
    ensures
        word_signed(word) == word || word_signed(word) == word - 0x1_0000_0000,
        signed_word(value) == value || signed_word(value) == value + 0x1_0000_0000,
        word_signed(signed_word(value)) == value,
        signed_word(word_signed(word)) == word,
{
}

/// A jump that is written changes its own five bytes and no others, and an impossible one only the
/// first of them.
pub proof fn law_a_jump_changes_its_own_bytes_only(
    code: Seq<u8>,
    at: int,
    from: int,
    to: int,
    i: int,
)
    requires
        0 <= at,
        at + 5 <= code.len(),
        0 <= i < code.len(),
    ensures
        with_jump(code, at, from, to).len() == code.len(),
        with_jump(code, at, from, to)[at] == 0xE9,
        i < at || i >= at + 5 ==> with_jump(code, at, from, to)[i] == code[i],
        jump_offset(from, to) is Err && i != at ==> with_jump(code, at, from, to)[i] == code[i],
{
}

/// A stub saves all registers, pushes the pointer to them, loads the address of the callback, calls
/// it, and restores the registers, before it jumps; the address of the callback reads back from it.
pub proof fn law_a_stub_calls_its_callback(stub: int, callback: u32, trampoline: int)
    ensures
        ({
            let code = stub_code(stub, callback, trampoline);
            &&& code.len() == 15
            &&& code[0] == 0x60 && code[1] == 0x54
            &&& code[2] == 0xB8 && word_at(code, 3) == callback
            &&& code[7] == 0xFF && code[8] == 0xD0
            &&& code[9] == 0x61
            &&& code[10] == 0xE9
        }),
        STUB_SIZE == 15,
        STUB_JUMP_AT == 10,
{
    let code = stub_code(stub, callback, trampoline);
    assert(code.subrange(3, 7) =~= word_bytes(callback));
    lemma_word_reads_back(code, 3, callback);
}

/// A patch changes the displaced bytes and no more of them; it fails exactly if its jump does, or if
/// the bytes reach beyond the address space.
pub proof fn law_a_patch_fills_the_displaced_bytes(displaced: Seq<u8>, target: int, stub: int)
    requires
        displaced.len() >= 5,
        0 <= target <= usize::MAX,
    ensures
        patch_code(displaced, target, stub).len() == displaced.len(),
        patch_code(displaced, target, stub)[0] == 0xE9,
        jump_offset(target, stub) matches Err(error) ==> patch_result(
            target,
            displaced.len() as int,
            stub,
        ) == Err::<(), _>(error),
        jump_offset(target, stub) is Ok && target + displaced.len() <= address_space()
            ==> patch_result(target, displaced.len() as int, stub) is Ok,
        jump_offset(target, stub) is Ok && target + displaced.len() > address_space()
            ==> patch_result(target, displaced.len() as int, stub) == Err::<(), _>(
            HookInstallError::HookPatchOverflow,
        ),
        forall|i: int|
            5 <= i < displaced.len() && jump_offset(target, stub) is Ok && target + i <= usize::MAX
                ==> #[trigger] patch_code(displaced, target, stub)[i] == 0x90,
{
}

} // verus!
