use deet::patch::{align_addr_to_word, byte_of_word, replace_byte, TRAP_OPCODE, WORD_SIZE};

#[test]
fn test_align_addr_to_word() {
    assert_eq!(align_addr_to_word(0x1000), 0x1000);
    assert_eq!(align_addr_to_word(0x1007), 0x1000);
    assert_eq!(align_addr_to_word(0x1008), 0x1008);
    assert_eq!(align_addr_to_word(7), 0);
    assert_eq!(WORD_SIZE, 8);
}

#[test]
fn test_byte_of_word() {
    let w: u64 = 0x1122334455667788;
    assert_eq!(byte_of_word(w, 0), 0x88);
    assert_eq!(byte_of_word(w, 3), 0x55);
    assert_eq!(byte_of_word(w, 7), 0x11);
}

#[test]
fn test_replace_byte() {
    let w: u64 = 0x1122334455667788;
    assert_eq!(replace_byte(w, 0, TRAP_OPCODE), 0x11223344556677cc);
    assert_eq!(replace_byte(w, 7, 0x00), 0x0022334455667788);
    // only the requested byte changes
    let patched = replace_byte(w, 4, TRAP_OPCODE);
    for off in 0..8 {
        if off == 4 {
            assert_eq!(byte_of_word(patched, off), TRAP_OPCODE);
        } else {
            assert_eq!(byte_of_word(patched, off), byte_of_word(w, off));
        }
    }
}

#[test]
fn test_patch_then_restore_is_identity() {
    let w: u64 = 0xdeadbeefcafef00d;
    for off in 0..8 {
        let orig = byte_of_word(w, off);
        let patched = replace_byte(w, off, TRAP_OPCODE);
        let restored = replace_byte(patched, off, orig);
        assert_eq!(restored, w);
    }
}
