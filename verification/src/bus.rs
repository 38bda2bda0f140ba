//! The memory bus: a flat 64KB byte store addressed 0x0000–0xFFFF.
//!
//! Every 16-bit address is valid, so reads and writes are total. 16-bit
//! accesses are two byte accesses in little-endian order — low byte at the
//! address, high byte at the successor address — with the successor wrapping
//! from 0xFFFF to 0x0000.

use vstd::prelude::*;
use crate::registers::spec_pair;
use crate::registers::spec_hi_byte;
use crate::registers::spec_lo_byte;

verus! {

/// Number of addressable bytes.
pub const MEMORY_SIZE: usize = 0x10000;

/// The address after `addr`, wrapping at the 64KB boundary.
pub open spec fn spec_next_addr(addr: u16) -> u16 {
    if addr == 0xffff {
        0u16
    } else {
        (addr + 1) as u16
    }
}

/// The 16-bit value read little-endian at `addr` from memory `mem`.
pub open spec fn spec_word_at(mem: Seq<u8>, addr: u16) -> u16 {
    spec_pair(mem[spec_next_addr(addr) as int], mem[addr as int])
}

/// A flat 64KB byte store; the whole 16-bit address space is backed.
pub struct MemoryBus {
    mem: Vec<u8>,
}

impl View for MemoryBus {
    type V = Seq<u8>;

    closed spec fn view(&self) -> Seq<u8> {
        self.mem@
    }
}

impl MemoryBus {
    /// The bus is well formed when its backing store covers the full
    /// address space.
    pub open spec fn inv(&self) -> bool {
        self@.len() == MEMORY_SIZE
    }

    /// A bus with every byte zero.
    pub fn new() -> (r: MemoryBus)
        ensures
            r.inv(),
            forall|i: int| 0 <= i < MEMORY_SIZE ==> r@[i] == 0u8,
    {
        let mut mem: Vec<u8> = Vec::new();
        mem.resize(MEMORY_SIZE, 0u8);
        MemoryBus { mem }
    }

    /// Reads the byte at `address`; total over the address space.
    pub fn read_byte(&self, address: u16) -> (r: u8)
        requires
            self.inv(),
        ensures
            r == self@[address as int],
    {
        self.mem[address as usize]
    }

    /// Writes `value` at `address`; total over the address space.
    pub fn write_byte(&mut self, address: u16, value: u8)
        requires
            old(self).inv(),
        ensures
            final(self).inv(),
            final(self)@ == old(self)@.update(address as int, value),
    {
        self.mem[address as usize] = value;
    }

    /// Reads a 16-bit value little-endian: low byte at `address`, high byte
    /// at the next address (wrapping at 0xFFFF).
    pub fn read_word(&self, address: u16) -> (r: u16)
        requires
            self.inv(),
        ensures
            r == spec_word_at(self@, address),
    {
        let lo = self.read_byte(address);
        let hi = self.read_byte(if address == 0xffff {
            0
        } else {
            address + 1
        });
        proof {
            assert(((hi as u16) << 8) | (lo as u16) == hi * 256 + lo) by (bit_vector);
        }
        (hi as u16) << 8 | lo as u16
    }

    /// Writes a 16-bit value little-endian: low byte at `address`, high
    /// byte at the next address (wrapping at 0xFFFF).
    pub fn write_word(&mut self, address: u16, value: u16)
        requires
            old(self).inv(),
        ensures
            final(self).inv(),
            final(self)@ == old(self)@.update(address as int, spec_lo_byte(value)).update(
                spec_next_addr(address) as int,
                spec_hi_byte(value),
            ),
    {
        proof {
            assert(((value & 0xff00) >> 8) as u8 == (value / 256) as u8 && (value & 0xff) as u8 == (
            value % 256) as u8) by (bit_vector);
        }
        self.write_byte(address, (value & 0xff) as u8);
        let next = if address == 0xffff {
            0
        } else {
            address + 1
        };
        self.write_byte(next, ((value & 0xff00) >> 8) as u8);
    }
}

/// Law: a word written at any address reads back unchanged, as long as the
/// two byte cells do not alias (the address is not its own successor, which
/// holds of every 16-bit address).
pub proof fn lemma_word_round_trip(mem: Seq<u8>, addr: u16, value: u16)
    requires
        mem.len() == MEMORY_SIZE,
    ensures
        spec_word_at(
            mem.update(addr as int, spec_lo_byte(value)).update(
                spec_next_addr(addr) as int,
                spec_hi_byte(value),
            ),
            addr,
        ) == value,
{
    crate::registers::lemma_pair_round_trip(value);
}

} // verus!
