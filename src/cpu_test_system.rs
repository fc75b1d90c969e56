use vstd::prelude::*;

use crate::bus::Bus;
use crate::cpu::{ticked, W65C02S};
use crate::ram::RAM;

verus! {

/// Bytes of the flat address space.
pub const SPACE_SIZE: usize = 0x10000;

/// A bus that backs the whole 16-bit address space with RAM.
pub struct SystemBus {
    pub ram: RAM,
}

/// The image with the reset vector pointing at `entry` (little-endian).
pub open spec fn with_entry(image: Seq<u8>, entry: u16) -> Seq<u8> {
    image.update(0xFFFC, (entry & 0xff) as u8).update(0xFFFD, ((entry >> 8) & 0xff) as u8)
}

impl SystemBus {
    /// Loads a full 64 KiB image and patches its reset vector to `entry`;
    /// `None` when the image has another size.
    pub fn new(image: Vec<u8>, entry_address: u16) -> (r: Option<SystemBus>)
        ensures
            r is Some <==> image@.len() == SPACE_SIZE,
            r matches Some(b) ==> b.ram@ == with_entry(image@, entry_address),
    {
        if image.len() != SPACE_SIZE {
            return None;
        }
        let mut ram = RAM::load(image);
        ram.write(0xfffc, (entry_address & 0xff) as u8);
        ram.write(0xfffd, ((entry_address >> 8) & 0xff) as u8);
        Some(SystemBus { ram })
    }
}

impl Bus for SystemBus {
    open spec fn wf(&self) -> bool {
        self.ram@.len() == SPACE_SIZE
    }

    open spec fn peek_spec(&self, addr: u16) -> u8 {
        self.ram@[addr as int]
    }

    open spec fn is_memory(&self, addr: u16) -> bool {
        true
    }

    fn peek(&self, addr: u16) -> (r: u8) {
        self.ram.peek(addr)
    }

    fn read(&mut self, addr: u16) -> (r: u8) {
        self.ram.read(addr)
    }

    fn write(&mut self, addr: u16, val: u8) {
        self.ram.write(addr, val)
    }
}

/// The CPU alone on a flat RAM bus, for running CPU test images.
pub struct CPUTestSystem {
    pub cpu: W65C02S<SystemBus>,
}

impl CPUTestSystem {
    /// A CPU in its power-on sequence on a RAM loaded from `image`, with
    /// the reset vector patched to `entry_address`; `None` unless the image
    /// fills the 64 KiB space.
    pub fn new(image: Vec<u8>, entry_address: u16) -> (r: Option<CPUTestSystem>)
        ensures
            r is Some <==> image@.len() == SPACE_SIZE,
            r matches Some(sys) ==> sys.wf() && sys.cpu.bus.ram@ == with_entry(
                image@,
                entry_address,
            ) && sys.cpu.state == crate::cpu::CPUState::Init(0),
    {
        match SystemBus::new(image, entry_address) {
            Some(bus) => Some(CPUTestSystem { cpu: W65C02S::new(bus) }),
            None => None,
        }
    }

    pub open spec fn wf(&self) -> bool {
        self.cpu.wf()
    }

    pub fn is_halted(&self) -> (r: bool)
        ensures
            r == (self.cpu.state == crate::cpu::CPUState::Halt),
    {
        self.cpu.is_halted()
    }

    pub fn get_cpu(&self) -> (r: &W65C02S<SystemBus>)
        ensures
            *r == self.cpu,
    {
        &self.cpu
    }

    pub fn get_ram(&self) -> (r: &RAM)
        ensures
            *r == self.cpu.bus.ram,
    {
        &self.cpu.bus.ram
    }

    /// The byte at `addr`, without side effects.
    pub fn peek(&self, addr: u16) -> (r: u8)
        requires
            self.wf(),
        ensures
            r == self.cpu.bus.ram@[addr as int],
    {
        self.cpu.bus.peek(addr)
    }

    /// One tick: one CPU cycle.
    pub fn cycle(&mut self)
        requires
            old(self).wf(),
        ensures
            final(self).wf(),
            ticked(old(self).cpu, final(self).cpu),
    {
        self.cpu.cycle();
    }
}

} // verus!
