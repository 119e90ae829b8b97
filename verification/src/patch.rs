//! Word-aligned byte surgery: the mechanism behind breakpoint installation.
//!
//! A breakpoint is installed by overwriting one byte of the tracee's
//! instruction stream with a trap opcode, and removed by writing the original
//! byte back.  Both directions are a read-modify-write of the aligned machine
//! word containing the target address; every other byte of the word must be
//! preserved.  This module holds the pure word-level arithmetic of that
//! operation; the actual memory accesses live with the tracee.

use vstd::prelude::*;

verus! {

/// The single-byte trap opcode written over the original instruction byte.
pub const TRAP_OPCODE: u8 = 0xcc;

/// Number of bytes in a machine word of the traced process.
pub const WORD_SIZE: usize = 8;

/// The aligned base of the word containing `addr`.
pub open spec fn spec_align_addr_to_word(addr: usize) -> usize {
    addr & !7usize
}

/// The byte of `word` at byte offset `off` (little-endian, `off < 8`).
pub open spec fn spec_byte_of_word(word: u64, off: usize) -> u8 {
    ((word >> (8 * off as u64)) & 0xff) as u8
}

/// `word` with the byte at offset `off` replaced by `val`, all other bytes kept.
pub open spec fn spec_replace_byte(word: u64, off: usize, val: u8) -> u64 {
    (word & !(0xffu64 << (8 * off as u64))) | ((val as u64) << (8 * off as u64))
}

/// Rounds an address down to the base of its machine word.
pub fn align_addr_to_word(addr: usize) -> (r: usize)
    ensures
        r == spec_align_addr_to_word(addr),
        r <= addr,
        addr - r < WORD_SIZE,
{
    proof {
        assert(addr & !7usize <= addr && addr - (addr & !7usize) < 8) by (bit_vector);
    }
    addr & !7usize
}

/// Extracts the byte at offset `off` of `word`.
pub fn byte_of_word(word: u64, off: usize) -> (r: u8)
    requires
        off < WORD_SIZE,
    ensures
        r == spec_byte_of_word(word, off),
{
    ((word >> (8 * off as u64)) & 0xff) as u8
}

/// Replaces the byte at offset `off` of `word` with `val`.
pub fn replace_byte(word: u64, off: usize, val: u8) -> (r: u64)
    requires
        off < WORD_SIZE,
    ensures
        r == spec_replace_byte(word, off, val),
{
    (word & !(0xffu64 << (8 * off as u64))) | ((val as u64) << (8 * off as u64))
}

/// Replacing a byte leaves every other byte of the word untouched, and the
/// byte itself becomes the requested value.
pub proof fn lemma_replace_byte_effect(word: u64, off: usize, val: u8)
    requires
        off < WORD_SIZE,
    ensures
        spec_byte_of_word(spec_replace_byte(word, off, val), off) == val,
        forall|other: usize|
            other < WORD_SIZE && other != off ==> spec_byte_of_word(
                spec_replace_byte(word, off, val),
                other,
            ) == spec_byte_of_word(word, other),
{
    assert forall|other: usize| other < WORD_SIZE && other != off implies spec_byte_of_word(
        spec_replace_byte(word, off, val),
        other,
    ) == spec_byte_of_word(word, other) by {
        let o = other as u64;
        let f = off as u64;
        assert(o < 8 && f < 8 && o != f ==> ((((word & !(0xffu64 << (8 * f))) | ((val as u64) << (8
            * f))) >> (8 * o)) & 0xff) as u8 == (((word >> (8 * o)) & 0xff) as u8)) by (bit_vector);
    }
    let f = off as u64;
    assert(f < 8 ==> ((((word & !(0xffu64 << (8 * f))) | ((val as u64) << (8 * f))) >> (8 * f))
        & 0xff) as u8 == val) by (bit_vector);
}

/// Installing a trap byte and then writing the returned original byte back
/// restores the word exactly: patch-then-restore is the identity on the
/// aligned word.
pub proof fn lemma_patch_restore_is_identity(word: u64, off: usize, val: u8)
    requires
        off < WORD_SIZE,
    ensures
        spec_replace_byte(
            spec_replace_byte(word, off, val),
            off,
            spec_byte_of_word(word, off),
        ) == word,
{
    let f = off as u64;
    let orig = spec_byte_of_word(word, off);
    assert(f < 8 ==> ((((word & !(0xffu64 << (8 * f))) | ((val as u64) << (8 * f))) & !(0xffu64 << (
    8 * f))) | (((((word >> (8 * f)) & 0xff) as u8) as u64) << (8 * f))) == word) by (bit_vector);
}

} // verus!
