use vstd::prelude::*;

verus! {

/// Number of words in the address space.
pub const MEMORY_SIZE: usize = 65536;

/// Flat word-addressed store covering the whole 16-bit address space.
pub struct Memory {
    pub mem: [u16; 65536],
}

impl View for Memory {
    type V = Seq<u16>;

    open spec fn view(&self) -> Seq<u16> {
        self.mem@
    }
}

impl Memory {
    /// A store with every word zero.
    pub fn new() -> (m: Memory)
        ensures
            m@.len() == MEMORY_SIZE,
            forall|a: int| 0 <= a < MEMORY_SIZE ==> #[trigger] m@[a] == 0,
    {
        Memory { mem: [0u16; 65536] }
    }

    /// The word at `addr`.
    pub fn read_word(&self, addr: u16) -> (r: u16)
        ensures
            r == self@[addr as int],
    {
        self.mem[addr as usize]
    }

    /// Stores `val` at `addr`, leaving every other word as it was.
    pub fn write_word(&mut self, addr: u16, val: u16)
        ensures
            final(self)@ == old(self)@.update(addr as int, val),
    {
        self.mem[addr as usize] = val;
    }
}

/// Writing a word and then reading it back at the same address yields the
/// word written, and the other addresses keep their contents.
pub proof fn lemma_write_then_read(m: Memory, addr: u16, v: u16, other: u16)
    ensures
        m@.update(addr as int, v)[addr as int] == v,
        other != addr ==> m@.update(addr as int, v)[other as int] == m@[other as int],
{
}

} // verus!
