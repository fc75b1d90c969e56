use vstd::prelude::*;

verus! {

/// Read/write byte store.
pub struct RAM {
    pub mem: Vec<u8>,
}

impl View for RAM {
    type V = Seq<u8>;

    open spec fn view(&self) -> Seq<u8> {
        self.mem@
    }
}

impl RAM {
    /// A zero-filled store of `size` bytes.
    pub fn new(size: usize) -> (r: RAM)
        ensures
            r@ == Seq::new(size as nat, |_i: int| 0u8),
    {
        let mut mem: Vec<u8> = Vec::new();
        let mut i: usize = 0;
        while i < size
            invariant
                i <= size,
                mem@ == Seq::new(i as nat, |_i: int| 0u8),
            decreases size - i,
        {
            mem.push(0u8);
            i = i + 1;
            assert(mem@ =~= Seq::new(i as nat, |_i: int| 0u8));
        }
        RAM { mem }
    }

    /// A store that holds the given image.
    pub fn load(image: Vec<u8>) -> (r: RAM)
        ensures
            r@ == image@,
    {
        RAM { mem: image }
    }

    pub fn len(&self) -> (r: usize)
        ensures
            r == self@.len(),
    {
        self.mem.len()
    }

    /// The byte at `addr`, without side effects.
    pub fn peek(&self, addr: u16) -> (r: u8)
        requires
            (addr as int) < self@.len(),
        ensures
            r == self@[addr as int],
    {
        self.mem[addr as usize]
    }

    /// The byte at `addr`; a read has no effect on the store.
    pub fn read(&self, addr: u16) -> (r: u8)
        requires
            (addr as int) < self@.len(),
        ensures
            r == self@[addr as int],
    {
        self.mem[addr as usize]
    }

    /// Stores `data` at `addr`.
    pub fn write(&mut self, addr: u16, data: u8)
        requires
            (addr as int) < old(self)@.len(),
        ensures
            final(self)@ == old(self)@.update(addr as int, data),
    {
        self.mem.set(addr as usize, data);
    }
}

} // verus!
