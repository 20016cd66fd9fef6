//! The word-patching rules for software breakpoints, and the laws that make
//! them reversible.
//!
//! A breakpoint is installed by replacing the lowest-order byte of the
//! machine word at the target address with a single-byte trap opcode; it is
//! removed by writing the saved original word back.  The whole correctness
//! argument for breakpoints rests on the two laws proved here: installation
//! touches only the lowest-order byte, and install-then-restore leaves the
//! traced process's memory exactly as it was.

use vstd::prelude::*;

verus! {

/// The architecture's single-byte software-trap opcode.
pub const TRAP_OPCODE: u8 = 0xCC;

/// The machine word `w` with its lowest-order byte replaced by the trap
/// opcode and all other bytes unchanged.
pub open spec fn trap_word(w: u64) -> u64 {
    (w & 0xFFFF_FFFF_FFFF_FF00) | TRAP_OPCODE as u64
}

/// Byte `k` (0 = lowest-order) of the machine word `w`.
pub open spec fn byte_of(w: u64, k: u64) -> u64 {
    (w >> (k * 8)) & 0xFF
}

/// Computes the patched word that installs a software trap at a location
/// whose current content is `w`.
pub fn make_trap_word(w: u64) -> (r: u64)
    ensures
        r == trap_word(w),
{
    (w & 0xFFFF_FFFF_FFFF_FF00) | TRAP_OPCODE as u64
}

/// A word-addressed model of the part of the traced process's memory that
/// breakpoints touch: the map sends an address to the machine word stored
/// there.  Writing a word is updating the map at that address.
pub open spec fn mem_after_write(mem: Map<u64, u64>, addr: u64, w: u64) -> Map<u64, u64> {
    mem.insert(addr, w)
}

/// Law: after a trap is installed over a word `w`, the lowest-order byte of
/// the patched word is the trap opcode and every other byte still holds its
/// original value.
pub proof fn lemma_trap_installation(w: u64)
    by (bit_vector)
    ensures
        byte_of(trap_word(w), 0) == TRAP_OPCODE,
        forall|k: u64| 1 <= k < 8 ==> byte_of(trap_word(w), k) == byte_of(w, k),
{
}

/// Law: installing a trap at `addr` (which saves the original word) and then
/// restoring the saved word leaves memory bit-identical to its state before
/// the installation.
pub proof fn lemma_round_trip_restoration(mem: Map<u64, u64>, addr: u64)
    requires
        mem.dom().contains(addr),
    ensures
        mem_after_write(mem_after_write(mem, addr, trap_word(mem[addr])), addr, mem[addr]) == mem,
{
    assert(mem_after_write(mem_after_write(mem, addr, trap_word(mem[addr])), addr, mem[addr])
        =~= mem);
}

} // verus!
