use vstd::prelude::*;

pub mod types;

verus! {

/// Number of addressable bytes: the whole 16-bit address space.
pub const MEMORY_SIZE: usize = 0x10000;

/// Flat, byte-addressable store covering the 64KB address space of the processor.
///
/// Its abstract view is a total map from every 16-bit address to the byte stored there.
pub struct Memory {
    mem: [u8; MEMORY_SIZE],
}

impl View for Memory {
    type V = Map<u16, u8>;

    closed spec fn view(&self) -> Map<u16, u8> {
        Map::new(|a: u16| true, |a: u16| self.mem@[a as int])
    }
}

/// The contents of a freshly created memory: every byte is zero.
pub open spec fn zeroed() -> Map<u16, u8> {
    Map::new(|a: u16| true, |a: u16| 0u8)
}

/// Little-endian 16-bit value made of the byte at `address` and the byte after it,
/// the address of the second byte wrapping at the end of the address space.
pub open spec fn word_at(m: Map<u16, u8>, address: u16) -> u16 {
    (m[address] as int + 256 * m[address.wrapping_add(1)] as int) as u16
}

/// `m` after writing the first `n` bytes of `data` from `address` on, one address apart,
/// addresses wrapping at the end of the address space.
pub open spec fn written(m: Map<u16, u8>, address: u16, data: Seq<u8>, n: int) -> Map<u16, u8>
    decreases n,
{
    if n <= 0 {
        m
    } else {
        written(m, address, data, n - 1).insert(((address + n - 1) % 0x10000) as u16, data[n - 1])
    }
}

impl Memory {
    /// A memory whose bytes are all zero.
    pub fn new() -> (r: Self)
        ensures
            r@ == zeroed(),
    {
        let r = Memory { mem: [0u8; MEMORY_SIZE] };
        assert(r@ =~= zeroed());
        r
    }

    /// The byte stored at `address`.
    pub fn read(&self, address: u16) -> (r: u8)
        ensures
            r == self@[address],
    {
        self.mem[address as usize]
    }

    /// The little-endian 16-bit value at `address` (low byte) and `address + 1` (high byte).
    pub fn read_u16(&self, address: u16) -> (r: u16)
        ensures
            r == word_at(self@, address),
    {
        let lsb = self.read(address) as u16;
        let msb = self.read(address.wrapping_add(1)) as u16;
        msb * 256 + lsb
    }

    /// Stores `data` at `address`.
    pub fn write(&mut self, data: u8, address: u16)
        ensures
            final(self)@ == old(self)@.insert(address, data),
    {
        self.mem[address as usize] = data;
        assert(self@ =~= old(self)@.insert(address, data));
    }

    /// The `N` bytes from `address` on.
    pub fn read_as_array<const N: usize>(&self, address: usize) -> (r: [u8; N])
        requires
            address + N <= MEMORY_SIZE,
        ensures
            forall|i: int| 0 <= i < N ==> r[i] == self@[(address + i) as u16],
    {
        let mut array = [0u8; N];
        let mut i: usize = 0;
        while i < N
            invariant
                i <= N,
                address + N <= MEMORY_SIZE,
                forall|j: int| 0 <= j < i ==> array[j] == self@[(address + j) as u16],
            decreases N - i,
        {
            array[i] = self.read((address + i) as u16);
            i = i + 1;
        }
        array
    }

    /// Writes the bytes of `data` one after the other from `address` on.
    pub fn write_array(&mut self, data: &[u8], address: u16)
        ensures
            final(self)@ == written(old(self)@, address, data@, data@.len() as int),
    {
        let mut i: usize = 0;
        let mut at: u16 = address;
        while i < data.len()
            invariant
                i <= data@.len(),
                at == ((address + i) % 0x10000) as u16,
                self@ == written(old(self)@, address, data@, i as int),
            decreases data@.len() - i,
        {
            self.write(data[i], at);
            proof {
                vstd::arithmetic::div_mod::lemma_add_mod_noop(address + i, 1, 0x10000);
            }
            at = at.wrapping_add(1);
            i = i + 1;
        }
    }
}

} // verus!
