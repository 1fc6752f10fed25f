use vstd::prelude::*;

use crate::error::ExecutionError;

verus! {

pub type Address = u32;

pub type Word = u32;

// ---------------------------------------------------------------------------
// Memory: a flat byte store of fixed length with big-endian 32-bit word
// accessors. Word accesses touch 4 consecutive bytes, most-significant byte
// at the lowest address; no alignment is enforced. Any access beyond the
// allocated region fails with OutOfBounds and changes nothing.
// ---------------------------------------------------------------------------

/// Whether all 4 bytes of a word access at `addr` lie inside the store.
pub open spec fn word_in_bounds(m: Seq<u8>, addr: Address) -> bool {
    addr + 3 < m.len()
}

/// The big-endian 32-bit word formed by the 4 bytes starting at `addr`.
pub open spec fn word_at(m: Seq<u8>, addr: Address) -> Word
    recommends
        word_in_bounds(m, addr),
{
    ((m[addr as int] as u32) << 24) | ((m[addr as int + 1] as u32) << 16) | ((m[addr as int + 2]
        as u32) << 8) | (m[addr as int + 3] as u32)
}

/// The store after writing `val` big-endian into the 4 bytes at `addr`.
pub open spec fn put_word(m: Seq<u8>, addr: Address, val: Word) -> Seq<u8>
    recommends
        word_in_bounds(m, addr),
{
    m.update(addr as int, ((val >> 24) & 0xFF) as u8).update(
        addr as int + 1,
        ((val >> 16) & 0xFF) as u8,
    ).update(addr as int + 2, ((val >> 8) & 0xFF) as u8).update(addr as int + 3, (val & 0xFF) as u8)
}

pub struct Mem {
    data: Vec<u8>,
}

impl View for Mem {
    type V = Seq<u8>;

    closed spec fn view(&self) -> Seq<u8> {
        self.data@
    }
}

impl Mem {
    /// A store of `size` bytes, all zero.
    pub fn new(size: usize) -> (m: Mem)
        ensures
            m@ == Seq::new(size as nat, |i: int| 0u8),
    {
        let mut data: Vec<u8> = Vec::new();
        while data.len() < size
            invariant
                data@.len() <= size,
                forall|i: int| 0 <= i < data@.len() ==> data@[i] == 0u8,
            decreases size - data@.len(),
        {
            data.push(0u8);
        }
        proof {
            assert(data@ =~= Seq::new(size as nat, |i: int| 0u8));
        }
        Mem { data }
    }

    /// The number of bytes in the store.
    pub fn len(&self) -> (n: usize)
        ensures
            n == self@.len(),
    {
        self.data.len()
    }

    /// Reads the byte at `addr`; fails with OutOfBounds iff `addr` is past
    /// the end of the store.
    pub fn read(&self, addr: Address) -> (r: Result<u8, ExecutionError>)
        ensures
            (match r {
                Ok(b) => addr < self@.len() && b == self@[addr as int],
                Err(e) => addr >= self@.len() && e == ExecutionError::OutOfBounds,
            }),
    {
        if (addr as usize) < self.data.len() {
            Ok(self.data[addr as usize])
        } else {
            Err(ExecutionError::OutOfBounds)
        }
    }

    /// Reads the big-endian word whose 4 bytes start at `addr`; fails with
    /// OutOfBounds iff any of the 4 bytes is out of range.
    pub fn read_word(&self, addr: Address) -> (r: Result<Word, ExecutionError>)
        ensures
            (match r {
                Ok(w) => word_in_bounds(self@, addr) && w == word_at(self@, addr),
                Err(e) => !word_in_bounds(self@, addr) && e == ExecutionError::OutOfBounds,
            }),
    {
        let len = self.data.len();
        let a = addr as usize;
        if len < 4 || a > len - 4 {
            return Err(ExecutionError::OutOfBounds);
        }
        let b1 = self.data[a] as u32;
        let b2 = self.data[a + 1] as u32;
        let b3 = self.data[a + 2] as u32;
        let b4 = self.data[a + 3] as u32;
        Ok((b1 << 24) | (b2 << 16) | (b3 << 8) | b4)
    }

    /// Writes one byte at `addr`; fails with OutOfBounds iff `addr` is past
    /// the end of the store, in which case nothing changes.
    pub fn write(&mut self, addr: Address, val: u8) -> (r: Result<(), ExecutionError>)
        ensures
            (match r {
                Ok(_) => addr < old(self)@.len() && final(self)@ == old(self)@.update(
                    addr as int,
                    val,
                ),
                Err(e) => addr >= old(self)@.len() && e == ExecutionError::OutOfBounds
                    && final(self)@ == old(self)@,
            }),
    {
        if (addr as usize) < self.data.len() {
            self.data.set(addr as usize, val);
            Ok(())
        } else {
            Err(ExecutionError::OutOfBounds)
        }
    }

    /// Writes `val` big-endian into the 4 bytes starting at `addr`; fails
    /// with OutOfBounds iff any of the 4 bytes is out of range, in which
    /// case nothing changes.
    pub fn write_word(&mut self, addr: Address, val: Word) -> (r: Result<(), ExecutionError>)
        ensures
            (match r {
                Ok(_) => word_in_bounds(old(self)@, addr) && final(self)@ == put_word(
                    old(self)@,
                    addr,
                    val,
                ),
                Err(e) => !word_in_bounds(old(self)@, addr) && e == ExecutionError::OutOfBounds
                    && final(self)@ == old(self)@,
            }),
    {
        let len = self.data.len();
        let a = addr as usize;
        if len < 4 || a > len - 4 {
            return Err(ExecutionError::OutOfBounds);
        }
        self.data.set(a, ((val >> 24) & 0xFF) as u8);
        self.data.set(a + 1, ((val >> 16) & 0xFF) as u8);
        self.data.set(a + 2, ((val >> 8) & 0xFF) as u8);
        self.data.set(a + 3, (val & 0xFF) as u8);
        Ok(())
    }
}

/// Round trip: reading a word back from the 4 bytes just written returns
/// exactly the written value, for every value and every in-bounds address.
pub proof fn lemma_word_round_trip(m: Seq<u8>, addr: Address, val: Word)
    requires
        word_in_bounds(m, addr),
    ensures
        word_at(put_word(m, addr, val), addr) == val,
{
    let w = put_word(m, addr, val);
    assert(w[addr as int] == ((val >> 24) & 0xFF) as u8);
    assert(w[addr as int + 1] == ((val >> 16) & 0xFF) as u8);
    assert(w[addr as int + 2] == ((val >> 8) & 0xFF) as u8);
    assert(w[addr as int + 3] == (val & 0xFF) as u8);
    assert(((((val >> 24) & 0xFF) as u8 as u32) << 24) | ((((val >> 16) & 0xFF) as u8 as u32)
        << 16) | ((((val >> 8) & 0xFF) as u8 as u32) << 8) | ((val & 0xFF) as u8 as u32)
        == val) by (bit_vector);
}

} // verus!
