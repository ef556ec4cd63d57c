use vstd::prelude::*;

verus! {

/// Number of addressable bytes: the whole 16-bit address space.
pub const MEMORY_SIZE: usize = 0x10000;

/// A flat, byte-addressable 64 KiB memory.
pub struct Bus {
    pub memory: [u8; 0x10000],
}

impl Bus {
    /// A bus whose every byte is zero.
    pub fn new() -> (r: Bus)
        ensures
            r.memory@.len() == MEMORY_SIZE,
            forall|i: int| 0 <= i < MEMORY_SIZE ==> r.memory@[i] == 0,
    {
        Bus { memory: [0u8; 0x10000] }
    }

    /// The byte stored at `addr`.
    pub fn read(&self, addr: u16) -> (r: u8)
        ensures
            r == self.memory@[addr as int],
    {
        self.memory[addr as usize]
    }

    /// Stores `data` at `addr`; every other byte is unchanged.
    pub fn write(&mut self, addr: u16, data: u8)
        ensures
            final(self).memory@ == old(self).memory@.update(addr as int, data),
    {
        self.memory[addr as usize] = data;
    }

    /// Copies `image` into memory starting at address `base`, leaving every
    /// byte outside `base .. base + image.len()` unchanged.
    pub fn load(&mut self, base: u16, image: &[u8])
        requires
            base as int + image@.len() <= MEMORY_SIZE,
        ensures
            final(self).memory@.len() == MEMORY_SIZE,
            forall|i: int|
                0 <= i < MEMORY_SIZE ==> final(self).memory@[i] == if base <= i < base + image@.len() {
                    image@[i - base]
                } else {
                    old(self).memory@[i]
                },
    {
        let n = image.len();
        let mut k: usize = 0;
        while k < n
            invariant
                k <= n,
                n == image@.len(),
                base as int + n <= MEMORY_SIZE,
                self.memory@.len() == MEMORY_SIZE,
                forall|i: int|
                    0 <= i < MEMORY_SIZE ==> self.memory@[i] == if base <= i < base + k {
                        image@[i - base]
                    } else {
                        old(self).memory@[i]
                    },
            decreases n - k,
        {
            self.memory[base as usize + k] = image[k];
            k = k + 1;
        }
    }
}

} // verus!
