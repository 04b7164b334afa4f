//! Flat byte-addressed memory. Every 16-bit address is masked to the
//! memory size, so every access lands on a valid cell; 16-bit values
//! are stored little-endian, and the second byte of a word at the top
//! of the address space wraps around to address zero.

use vstd::prelude::*;
use vstd::arithmetic::div_mod::{
    lemma_fundamental_div_mod_converse_mod, lemma_mod_self_0, lemma_small_mod,
};

verus! {

/// Number of bytes of memory.
pub const MEMORY_SIZE: usize = 16384;

/// The cell that a 16-bit address selects: the address modulo the
/// memory size.
pub open spec fn addr_index(a: u16) -> int {
    (a as int) % (MEMORY_SIZE as int)
}

/// The address one past `a`, wrapping around the 16-bit address space.
pub open spec fn wrap_inc(a: u16) -> u16 {
    ((a as int + 1) % 0x10000) as u16
}

/// The low byte of a 16-bit word.
pub open spec fn word_lo(v: u16) -> u8 {
    ((v as int) % 256) as u8
}

/// The high byte of a 16-bit word.
pub open spec fn word_hi(v: u16) -> u8 {
    ((v as int) / 256) as u8
}

/// The word whose low byte is `lo` and whose high byte is `hi`.
pub open spec fn word_of(lo: u8, hi: u8) -> u16 {
    (256 * (hi as int) + (lo as int)) as u16
}

/// The word read little-endian at `a`: low byte at `a`, high byte at
/// the following address.
pub open spec fn spec_read_word(m: Seq<u8>, a: u16) -> u16 {
    word_of(m[addr_index(a)], m[addr_index(wrap_inc(a))])
}

/// The memory after writing a word little-endian at `a`.
pub open spec fn spec_write_word(m: Seq<u8>, a: u16, v: u16) -> Seq<u8> {
    m.update(addr_index(a), word_lo(v)).update(addr_index(wrap_inc(a)), word_hi(v))
}

/// The memory: a fixed-size byte array. The bytes are a plain field so
/// that a host can load a program directly; well-formedness says the
/// array has exactly `MEMORY_SIZE` cells.
#[derive(Debug)]
pub struct Memory {
    pub bytes: Vec<u8>,
}

impl View for Memory {
    type V = Seq<u8>;

    open spec fn view(&self) -> Seq<u8> {
        self.bytes@
    }
}

impl Memory {
    /// The byte array has exactly `MEMORY_SIZE` cells.
    pub open spec fn wf(self) -> bool {
        self.bytes@.len() == MEMORY_SIZE
    }

    /// Read the byte that `addr` selects.
    pub fn read(&self, addr: u16) -> (v: u8)
        requires
            self.wf(),
        ensures
            v == self@[addr_index(addr)],
    {
        let i: usize = (addr as usize) % MEMORY_SIZE;
        self.bytes[i]
    }

    /// Write the byte that `addr` selects.
    pub fn write(&mut self, addr: u16, v: u8)
        requires
            old(self).wf(),
        ensures
            final(self).wf(),
            final(self)@ == old(self)@.update(addr_index(addr), v),
    {
        let i: usize = (addr as usize) % MEMORY_SIZE;
        self.bytes[i] = v;
    }

    /// Read the word at `addr`, little-endian.
    pub fn read_word(&self, addr: u16) -> (v: u16)
        requires
            self.wf(),
        ensures
            v == spec_read_word(self@, addr),
    {
        let lo = self.read(addr);
        let hi = self.read(next_addr(addr));
        256 * (hi as u16) + (lo as u16)
    }

    /// Write the word at `addr`, little-endian: the low byte of `v`
    /// goes to `addr`, the high byte to the following address.
    pub fn write_word(&mut self, addr: u16, v: u16)
        requires
            old(self).wf(),
        ensures
            final(self).wf(),
            final(self)@ == spec_write_word(old(self)@, addr, v),
    {
        let lo = (v % 256) as u8;
        let hi = (v / 256) as u8;
        self.write(addr, lo);
        self.write(next_addr(addr), hi);
    }
}

/// The address one past `addr`, wrapping around the address space.
pub fn next_addr(addr: u16) -> (r: u16)
    ensures
        r == wrap_inc(addr),
{
    if addr == 0xFFFF {
        proof {
            lemma_mod_self_0(0x10000);
        }
        0
    } else {
        proof {
            lemma_small_mod((addr + 1) as nat, 0x10000);
        }
        addr + 1
    }
}

impl Default for Memory {
    /// Memory with every byte zero.
    fn default() -> (m: Memory)
        ensures
            m.wf(),
            forall|i: int| 0 <= i < MEMORY_SIZE ==> m@[i] == 0u8,
    {
        let mut bytes: Vec<u8> = Vec::new();
        let mut n: usize = 0;
        while n < MEMORY_SIZE
            invariant
                n == bytes@.len(),
                n <= MEMORY_SIZE,
                forall|i: int| 0 <= i < n ==> bytes@[i] == 0u8,
            decreases MEMORY_SIZE - n,
        {
            bytes.push(0);
            n = n + 1;
        }
        Memory { bytes }
    }
}

/// Writing a word and reading it back at the same address yields the
/// word, because the two bytes land on two distinct cells.
pub proof fn lemma_word_round_trip(m: Seq<u8>, a: u16, v: u16)
    requires
        m.len() == MEMORY_SIZE,
    ensures
        spec_read_word(spec_write_word(m, a, v), a) == v,
        spec_write_word(m, a, v)[addr_index(a)] == word_lo(v),
        spec_write_word(m, a, v)[addr_index(wrap_inc(a))] == word_hi(v),
{
    lemma_addr_index_distinct(a);
    assert(0 <= addr_index(a) < MEMORY_SIZE);
    assert(0 <= addr_index(wrap_inc(a)) < MEMORY_SIZE);
    assert(spec_read_word(spec_write_word(m, a, v), a) == word_of(word_lo(v), word_hi(v)));
    vstd::arithmetic::div_mod::lemma_fundamental_div_mod(v as int, 256);
}

/// Consecutive addresses select distinct cells.
pub proof fn lemma_addr_index_distinct(a: u16)
    ensures
        addr_index(a) != addr_index(wrap_inc(a)),
        0 <= addr_index(a) < MEMORY_SIZE,
        0 <= addr_index(wrap_inc(a)) < MEMORY_SIZE,
{
    let n = MEMORY_SIZE as int;
    lemma_mod_bounds(a as int, n);
    lemma_mod_bounds(wrap_inc(a) as int, n);
    if a == 0xFFFF {
        lemma_mod_self_0(0x10000);
        assert(wrap_inc(a) == 0);
        lemma_small_mod(0, n as nat);
        lemma_fundamental_div_mod_converse_mod(0xFFFF, n, 3, 0x3FFF);
    } else {
        lemma_small_mod((a + 1) as nat, 0x10000);
        assert(wrap_inc(a) == a + 1);
        if addr_index(a) == n - 1 {
            lemma_fundamental_div_mod_converse_mod(
                a as int + 1,
                n,
                (a as int) / n + 1,
                0,
            );
            vstd::arithmetic::div_mod::lemma_fundamental_div_mod(a as int, n);
        } else {
            lemma_fundamental_div_mod_converse_mod(
                a as int + 1,
                n,
                (a as int) / n,
                addr_index(a) + 1,
            );
            vstd::arithmetic::div_mod::lemma_fundamental_div_mod(a as int, n);
        }
    }
}

/// The remainder of a division by a positive number lies below the
/// divisor.
pub proof fn lemma_mod_bounds(x: int, m: int)
    requires
        m > 0,
    ensures
        0 <= x % m < m,
{
    vstd::arithmetic::div_mod::lemma_mod_division_less_than_divisor(x, m);
    vstd::arithmetic::div_mod::lemma_mod_is_mod_recursive(x, m);
}

} // verus!
