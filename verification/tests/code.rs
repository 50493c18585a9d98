use chunirichpresence::code::{
    add_offset, create_hook_stub, create_trampoline, find_pattern, fits_address_space,
    patch_hook_target,
    pattern_matches, relative_jump_offset, to_signed, write_relative_jump,
};
use chunirichpresence::types::{HookInstallError, PatternByte};

fn destination(code: &[u8], at: usize, addr: usize) -> usize {
    assert_eq!(code[at], 0xE9);
    let operand = i32::from_le_bytes([code[at + 1], code[at + 2], code[at + 3], code[at + 4]]);
    addr.wrapping_add(5).wrapping_add(operand as isize as usize)
}

#[test]
fn offsets_stop_at_the_end_of_the_address_space() {
    assert_eq!(add_offset(0x400000, 0x3C), Some(0x40003C));
    assert_eq!(add_offset(usize::MAX - 1, 1), Some(usize::MAX));
    assert_eq!(add_offset(usize::MAX, 1), None);
    assert!(fits_address_space(usize::MAX, 1));
    assert!(!fits_address_space(usize::MAX, 2));
    assert!(fits_address_space(usize::MAX, 0));
    assert!(fits_address_space(1, usize::MAX));
    assert!(!fits_address_space(2, usize::MAX));
}

#[test]
fn patterns_match_byte_by_byte() {
    let pattern = vec![PatternByte::Exact(0x89), PatternByte::Any, PatternByte::Exact(0x5B)];
    assert!(pattern_matches(&[0x89, 0x00, 0x5B, 0x77], &pattern));
    assert!(!pattern_matches(&[0x89, 0x00, 0x5A], &pattern));
    assert!(!pattern_matches(&[0x89, 0x00], &pattern));
    assert!(pattern_matches(&[], &vec![]));
}

#[test]
fn first_place_of_a_pattern_is_found() {
    let pattern = vec![PatternByte::Exact(2), PatternByte::Any];
    assert_eq!(find_pattern(1000, &[1, 2, 3, 2, 4], &pattern), Some(1001));
    assert_eq!(find_pattern(1000, &[1, 1, 1, 2, 4], &pattern), Some(1003));
    assert_eq!(find_pattern(1000, &[1, 1, 1, 1, 2], &pattern), None);
    assert_eq!(find_pattern(1000, &[2], &pattern), None);
    assert_eq!(find_pattern(1000, &[2, 2], &vec![]), None);
}

#[test]
fn jump_operands_count_from_the_end_of_the_jump() {
    assert!(matches!(relative_jump_offset(100, 105), Ok(0)));
    assert!(matches!(relative_jump_offset(100, 300), Ok(195)));
    assert!(matches!(relative_jump_offset(300, 100), Ok(-205)));
    assert!(matches!(relative_jump_offset(usize::MAX - 5, 0), Ok(0..=1)));
    assert!(matches!(
        relative_jump_offset(usize::MAX - 4, 0),
        Err(HookInstallError::RelativeJumpSourceOverflow)
    ));
    if usize::BITS == 64 {
        assert!(matches!(
            relative_jump_offset(0, (1usize << 31) + 4),
            Ok(i32::MAX)
        ));
        assert!(matches!(
            relative_jump_offset(0, (1usize << 31) + 5),
            Err(HookInstallError::RelativeJumpOutOfRange)
        ));
    }
}

#[test]
fn words_are_read_as_signed_numbers() {
    for word in [0u32, 1, 0x7FFF_FFFF, 0x8000_0000, 0xFFFF_FFFF, 2470] {
        assert_eq!(to_signed(word), word as i32);
    }
}

#[test]
fn jumps_land_on_their_target() {
    let mut code = vec![0u8; 8];
    assert!(write_relative_jump(&mut code, 2, 0x1000, 0x0800).is_ok());
    assert_eq!(code, vec![0, 0, 0xE9, 0xFB, 0xF7, 0xFF, 0xFF, 0]);
    assert_eq!(destination(&code, 2, 0x1000), 0x0800);
    let mut code = vec![7u8; 5];
    let failed = write_relative_jump(&mut code, 0, usize::MAX, 0);
    assert!(matches!(failed, Err(HookInstallError::RelativeJumpSourceOverflow)));
    assert_eq!(code, vec![0xE9, 7, 7, 7, 7]);
}

#[test]
fn hook_leads_back_to_the_program() {
    let displaced = vec![0x83u8, 0xC4, 0x1C, 0x89, 0x46, 0x60];
    let (target, trampoline, stub) = (0x0096_5C35, 0x0200_0000, 0x0201_0000);
    let block = create_trampoline(&displaced, target, trampoline);
    assert!(block.result.is_ok());
    assert_eq!(block.bytes[..6], displaced[..]);
    assert_eq!(block.bytes.len(), 11);
    assert_eq!(destination(&block.bytes, 6, trampoline + 6), target + 6);
    let block = create_hook_stub(stub, 0xDEAD_BEEF, trampoline);
    assert!(block.result.is_ok());
    assert_eq!(
        block.bytes[..10],
        [0x60, 0x54, 0xB8, 0xEF, 0xBE, 0xAD, 0xDE, 0xFF, 0xD0, 0x61]
    );
    assert_eq!(block.bytes.len(), 15);
    assert_eq!(destination(&block.bytes, 10, stub + 10), trampoline);
    let block = patch_hook_target(&displaced, target, stub);
    assert!(block.result.is_ok());
    assert_eq!(destination(&block.bytes, 0, target), stub);
    assert_eq!(block.bytes[5..], [0x90]);
}

#[test]
fn patch_at_the_end_of_the_address_space_fails() {
    let displaced = vec![1u8; 8];
    let block = patch_hook_target(&displaced, usize::MAX - 5, 0);
    assert!(matches!(block.result, Err(HookInstallError::HookPatchOverflow)));
    assert_eq!(block.bytes[0], 0xE9);
    assert_eq!(block.bytes[5..], [0x90, 1, 1]);
    let block = patch_hook_target(&displaced, usize::MAX, 0);
    assert!(matches!(block.result, Err(HookInstallError::RelativeJumpSourceOverflow)));
}
