use vstd::prelude::*;

verus! {

/// Number of bytes in the read-only window (CPU addresses 0x8000..=0xFFFF).
pub const ROM_SIZE: usize = 0x8000;

/// Read-only byte store holding a full image of the ROM window.
pub struct ROM {
    mem: Vec<u8>,
}

impl View for ROM {
    type V = Seq<u8>;

    closed spec fn view(&self) -> Seq<u8> {
        self.mem@
    }
}

impl ROM {
    /// Wraps an image; `None` unless it fills the window exactly.
    pub fn new(image: Vec<u8>) -> (r: Option<ROM>)
        ensures
            r is Some <==> image@.len() == ROM_SIZE,
            r matches Some(rom) ==> rom@ == image@,
    {
        if image.len() == ROM_SIZE {
            Some(ROM { mem: image })
        } else {
            None
        }
    }

    pub fn len(&self) -> (r: usize)
        ensures
            r == self@.len(),
    {
        self.mem.len()
    }

    /// The byte at `addr`, without side effects.
    pub fn peek(&self, addr: u16) -> (r: u8)
        requires
            (addr as int) < self@.len(),
        ensures
            r == self@[addr as int],
    {
        self.mem[addr as usize]
    }

    /// The byte at `addr`.
    pub fn read(&self, addr: u16) -> (r: u8)
        requires
            (addr as int) < self@.len(),
        ensures
            r == self@[addr as int],
    {
        self.mem[addr as usize]
    }

    /// A write to ROM is refused: the contents stay as they are and the
    /// fault names the address.
    pub fn write(&mut self, addr: u16, _data: u8) -> (r: Result<(), crate::fault::Fault>)
        ensures
            *final(self) == *old(self),
            r == Err::<(), crate::fault::Fault>(crate::fault::Fault::RomWrite(addr)),
    {
        Err(crate::fault::Fault::RomWrite(addr))
    }
}

} // verus!
