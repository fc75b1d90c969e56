use vstd::prelude::*;

use crate::bus::Bus;
use crate::controller::{Button, SNESController};
use crate::cpu::{ticked, CPUState, W65C02S};
use crate::display::{display_ticked, HD44780U};
use crate::fault::Fault;
use crate::periph::{
    irq_asserted, read_effect, register_value, tick_faults, ticked as adapter_ticked, write_outcome,
    W65C22,
};
use crate::ports::Peripherals;
use crate::ram::RAM;
use crate::rom::ROM;

verus! {

/// Selector of the RAM: addresses 0x0000..=0x3FFF.
pub const RAM_MASK: u16 = 0xC000;
pub const RAM_VALUE: u16 = 0x0000;

/// Selector of the adapter: addresses 0x6000..=0x600F.
pub const PER_MASK: u16 = 0xFFF0;
pub const PER_VALUE: u16 = 0x6000;

/// Selector of the ROM: addresses 0x8000..=0xFFFF.
pub const ROM_MASK: u16 = 0x8000;
pub const ROM_VALUE: u16 = 0x8000;

/// Bytes of RAM on the board.
pub const RAM_SIZE: usize = 0x4000;

/// Whether the selector `(mask, value)` matches `addr`.
pub open spec fn selects(mask: u16, value: u16, addr: u16) -> bool {
    addr & mask == value
}

/// How many of the board's selectors match `addr`.
pub open spec fn responders(addr: u16) -> int {
    (if selects(RAM_MASK, RAM_VALUE, addr) { 1int } else { 0int }) + (if selects(
        PER_MASK,
        PER_VALUE,
        addr,
    ) { 1int } else { 0int }) + (if selects(ROM_MASK, ROM_VALUE, addr) { 1int } else { 0int })
}

/// Addresses that some device of the board answers.
pub open spec fn mapped(addr: u16) -> bool {
    addr < 0x4000 || (0x6000 <= addr && addr < 0x6010) || addr >= 0x8000
}

/// Each address has at most one responding device, and exactly one on the
/// mapped ranges; unmapped addresses have none.
pub proof fn lemma_unique_responder(addr: u16)
    ensures
        responders(addr) <= 1,
        mapped(addr) <==> responders(addr) == 1,
{
    assert(addr & 0xC000 == 0x0000 <==> addr < 0x4000) by (bit_vector);
    assert(addr & 0xFFF0 == 0x6000 <==> (0x6000 <= addr && addr < 0x6010)) by (bit_vector);
    assert(addr & 0x8000 == 0x8000 <==> addr >= 0x8000) by (bit_vector);
}

/// The board's bus: RAM, the adapter with its peripherals, and ROM.
pub struct SystemBus {
    pub per: W65C22,
    pub ram: RAM,
    pub rom: ROM,
    /// The last fatal condition met by an access, if any.
    pub fault: Option<Fault>,
}

/// The byte the board's bus reads at `addr`; unmapped addresses and
/// adapter registers that cannot be read give 0.
pub open spec fn board_byte(b: &SystemBus, addr: u16) -> u8 {
    if selects(ROM_MASK, ROM_VALUE, addr) {
        b.rom@[(addr & 0x7FFF) as int]
    } else if selects(RAM_MASK, RAM_VALUE, addr) {
        b.ram@[(addr & 0x3FFF) as int]
    } else if selects(PER_MASK, PER_VALUE, addr) {
        match register_value(&b.per, addr & 0x000F) {
            Ok(v) => v,
            Err(_) => 0,
        }
    } else {
        0
    }
}

/// The fault a read of `addr` meets, if any.
pub open spec fn read_fault(b: &SystemBus, addr: u16) -> Option<Fault> {
    if selects(ROM_MASK, ROM_VALUE, addr) || selects(RAM_MASK, RAM_VALUE, addr) {
        None
    } else if selects(PER_MASK, PER_VALUE, addr) {
        match register_value(&b.per, addr & 0x000F) {
            Ok(_) => None,
            Err(f) => Some(f),
        }
    } else {
        Some(Fault::UnmappedAddress(addr))
    }
}

/// `b1` is `b0` after a read of `addr`.
pub open spec fn board_read(b0: SystemBus, b1: SystemBus, addr: u16) -> bool {
    &&& b1.ram == b0.ram && b1.rom == b0.rom
    &&& b1.per == if selects(ROM_MASK, ROM_VALUE, addr) || selects(RAM_MASK, RAM_VALUE, addr) {
        b0.per
    } else if selects(PER_MASK, PER_VALUE, addr) {
        read_effect(b0.per, addr & 0x000F)
    } else {
        b0.per
    }
    &&& b1.fault == match read_fault(&b0, addr) {
        Some(f) => Some(f),
        None => b0.fault,
    }
}

/// `b1` is `b0` after a write of `val` to `addr`: RAM stores it, ROM and
/// unmapped addresses record a fault, the adapter takes it as a register
/// write.
pub open spec fn board_written(b0: SystemBus, b1: SystemBus, addr: u16, val: u8) -> bool {
    if selects(ROM_MASK, ROM_VALUE, addr) {
        b1 == SystemBus { fault: Some(Fault::RomWrite(addr)), ..b0 }
    } else if selects(RAM_MASK, RAM_VALUE, addr) {
        &&& b1.ram@ == b0.ram@.update((addr & 0x3FFF) as int, val)
        &&& b1.rom == b0.rom && b1.per == b0.per && b1.fault == b0.fault
    } else if selects(PER_MASK, PER_VALUE, addr) {
        exists|r: Result<(), Fault>|
            {
                &&& write_outcome(b0.per, b1.per, addr & 0x000F, val, r)
                &&& b1.ram == b0.ram && b1.rom == b0.rom
                &&& b1.fault == match r {
                    Ok(_) => b0.fault,
                    Err(f) => Some(f),
                }
            }
    } else {
        b1 == SystemBus { fault: Some(Fault::UnmappedAddress(addr)), ..b0 }
    }
}

proof fn lemma_offsets(addr: u16)
    ensures
        (addr & 0x7FFF) < 0x8000,
        (addr & 0x3FFF) < 0x4000,
        (addr & 0x000F) < 16,
{
    assert((addr & 0x7FFF) < 0x8000) by (bit_vector);
    assert((addr & 0x3FFF) < 0x4000) by (bit_vector);
    assert((addr & 0x000F) < 16) by (bit_vector);
}

proof fn lemma_ram_offsets_differ(a: u16, b: u16)
    requires
        a & 0xC000 == 0,
        b & 0xC000 == 0,
        a != b,
    ensures
        a & 0x3FFF != b & 0x3FFF,
{
    assert(a & 0xC000 == 0 && b & 0xC000 == 0 && a != b ==> a & 0x3FFF != b & 0x3FFF)
        by (bit_vector);
}

/// A byte written to a RAM address is what later reads and peeks of that
/// address return, without a fault.
pub proof fn lemma_ram_write_then_read(b0: SystemBus, b1: SystemBus, addr: u16, v: u8)
    requires
        b0.wf_bus(),
        selects(RAM_MASK, RAM_VALUE, addr),
        board_written(b0, b1, addr, v),
    ensures
        board_byte(&b1, addr) == v,
        read_fault(&b1, addr) is None,
{
    lemma_offsets(addr);
    assert(addr & 0xC000 == 0 ==> addr & 0x8000 != 0x8000) by (bit_vector);
}

/// ROM is immutable: a write to a ROM address is refused with a fault and
/// the byte read there stays what it was.
pub proof fn lemma_rom_write_refused(b0: SystemBus, b1: SystemBus, addr: u16, v: u8)
    requires
        b0.wf_bus(),
        selects(ROM_MASK, ROM_VALUE, addr),
        board_written(b0, b1, addr, v),
    ensures
        board_byte(&b1, addr) == board_byte(&b0, addr),
        b1.fault == Some(Fault::RomWrite(addr)),
        b1.rom == b0.rom,
{
}

impl SystemBus {
    pub open spec fn wf_bus(&self) -> bool {
        &&& self.ram@.len() == RAM_SIZE
        &&& self.rom@.len() == crate::rom::ROM_SIZE
        &&& self.per.wf()
    }

    /// Zeroed RAM, the given ROM, and an adapter with the display and the
    /// controller on its ports.
    pub fn new(rom: ROM) -> (r: SystemBus)
        requires
            rom@.len() == crate::rom::ROM_SIZE,
        ensures
            r.wf_bus(),
            r.ram@ == Seq::new(RAM_SIZE as nat, |_i: int| 0u8),
            r.rom == rom,
            r.fault is None,
    {
        SystemBus {
            per: W65C22::new(Peripherals::new()),
            ram: RAM::new(RAM_SIZE),
            rom,
            fault: None,
        }
    }

    /// The byte at `addr`, without side effects.
    pub fn peek_byte(&self, addr: u16) -> (r: u8)
        requires
            self.wf_bus(),
        ensures
            r == board_byte(self, addr),
    {
        proof {
            lemma_offsets(addr);
        }
        if addr & ROM_MASK == ROM_VALUE {
            self.rom.peek(addr & 0x7FFF)
        } else if addr & RAM_MASK == RAM_VALUE {
            self.ram.peek(addr & 0x3FFF)
        } else if addr & PER_MASK == PER_VALUE {
            match self.per.peek(addr & 0x000F) {
                Ok(v) => v,
                Err(_) => 0,
            }
        } else {
            0
        }
    }

    /// Reads `addr`; a fatal condition is recorded in `fault`.
    pub fn read_byte(&mut self, addr: u16) -> (r: u8)
        requires
            old(self).wf_bus(),
        ensures
            final(self).wf_bus(),
            r == board_byte(old(self), addr),
            board_read(*old(self), *final(self), addr),
    {
        proof {
            lemma_offsets(addr);
        }
        if addr & ROM_MASK == ROM_VALUE {
            self.rom.read(addr & 0x7FFF)
        } else if addr & RAM_MASK == RAM_VALUE {
            self.ram.read(addr & 0x3FFF)
        } else if addr & PER_MASK == PER_VALUE {
            match self.per.read(addr & 0x000F) {
                Ok(v) => v,
                Err(f) => {
                    self.fault = Some(f);
                    0
                },
            }
        } else {
            self.fault = Some(Fault::UnmappedAddress(addr));
            0
        }
    }

    /// Writes `val` to `addr`; a fatal condition is recorded in `fault`.
    pub fn write_byte(&mut self, addr: u16, val: u8)
        requires
            old(self).wf_bus(),
        ensures
            final(self).wf_bus(),
            board_written(*old(self), *final(self), addr, val),
    {
        proof {
            lemma_offsets(addr);
        }
        if addr & ROM_MASK == ROM_VALUE {
            self.fault = Some(Fault::RomWrite(addr));
        } else if addr & RAM_MASK == RAM_VALUE {
            self.ram.write(addr & 0x3FFF, val);
        } else if addr & PER_MASK == PER_VALUE {
            let r = self.per.write(addr & 0x000F, val);
            if let Err(f) = r {
                self.fault = Some(f);
            }
            assert(write_outcome(old(self).per, self.per, addr & 0x000F, val, r));
        } else {
            self.fault = Some(Fault::UnmappedAddress(addr));
        }
    }
}

impl Bus for SystemBus {
    open spec fn wf(&self) -> bool {
        self.wf_bus()
    }

    open spec fn peek_spec(&self, addr: u16) -> u8 {
        board_byte(self, addr)
    }

    open spec fn is_memory(&self, addr: u16) -> bool {
        selects(RAM_MASK, RAM_VALUE, addr)
    }

    fn peek(&self, addr: u16) -> (r: u8) {
        self.peek_byte(addr)
    }

    fn read(&mut self, addr: u16) -> (r: u8) {
        self.read_byte(addr)
    }

    fn write(&mut self, addr: u16, val: u8) {
        self.write_byte(addr, val);
        proof {
            lemma_offsets(addr);
            let ram_write = selects(RAM_MASK, RAM_VALUE, addr);
            assert(ram_write ==> !selects(ROM_MASK, ROM_VALUE, addr)) by {
                assert(addr & 0xC000 == 0 ==> addr & 0x8000 != 0x8000) by (bit_vector);
            }
            assert(!ram_write ==> self.ram == old(self).ram);
            assert forall|a: u16|
                a != addr && #[trigger] old(self).is_memory(a) implies final(self).peek_spec(a)
                == old(self).peek_spec(a) by {
                lemma_offsets(a);
                if selects(RAM_MASK, RAM_VALUE, addr) {
                    lemma_ram_offsets_differ(a, addr);
                }
                assert(!selects(ROM_MASK, ROM_VALUE, a)) by {
                    assert(a & 0xC000 == 0 ==> a & 0x8000 != 0x8000) by (bit_vector);
                }
            }
            assert(selects(RAM_MASK, RAM_VALUE, addr) ==> !selects(ROM_MASK, ROM_VALUE, addr)) by {
                assert(addr & 0xC000 == 0 ==> addr & 0x8000 != 0x8000) by (bit_vector);
            }
        }
    }
}

/// The rest of a board tick after the CPU's cycle left `mid`: a fault
/// halts the CPU; otherwise the adapter ticks, its interrupt line becomes
/// the CPU's interrupt input, and the display ticks.
pub open spec fn board_step(mid: W65C02S<SystemBus>, c1: W65C02S<SystemBus>) -> bool {
    if mid.bus.fault is Some {
        c1 == W65C02S { state: CPUState::Halt, ..mid }
    } else if tick_faults(&mid.bus.per) {
        c1 == W65C02S {
            state: CPUState::Halt,
            bus: SystemBus {
                fault: Some(Fault::UnsupportedTimerMode(mid.bus.per.acr >> 6)),
                ..mid.bus
            },
            ..mid
        }
    } else {
        let per = adapter_ticked(mid.bus.per);
        let dsp = display_ticked(per.ports.dsp);
        c1 == W65C02S {
            interrupt: irq_asserted(&per),
            bus: SystemBus {
                per: W65C22 { ports: Peripherals { dsp, ..per.ports }, ..per },
                ..mid.bus
            },
            ..mid
        }
    }
}

/// The board: the CPU, whose bus holds RAM, ROM and the adapter, which in
/// turn drives the display and the controller.
pub struct BreadboardSystem {
    pub cpu: W65C02S<SystemBus>,
}

impl BreadboardSystem {
    pub open spec fn wf(&self) -> bool {
        self.cpu.wf()
    }

    /// Powers the board on with the given ROM image.
    pub fn new(rom: ROM) -> (r: BreadboardSystem)
        requires
            rom@.len() == crate::rom::ROM_SIZE,
        ensures
            r.wf(),
            r.cpu.state == CPUState::Init(0),
            r.cpu.bus.rom == rom,
            r.cpu.bus.fault is None,
    {
        BreadboardSystem { cpu: W65C02S::new(SystemBus::new(rom)) }
    }

    pub fn is_halted(&self) -> (r: bool)
        ensures
            r == (self.cpu.state == CPUState::Halt),
    {
        self.cpu.is_halted()
    }

    /// The fatal condition that stopped the board, if any.
    pub fn fault(&self) -> (r: Option<Fault>)
        ensures
            r == self.cpu.bus.fault,
    {
        self.cpu.bus.fault
    }

    pub fn get_cpu(&self) -> (r: &W65C02S<SystemBus>)
        ensures
            *r == self.cpu,
    {
        &self.cpu
    }

    pub fn get_display(&self) -> (r: &HD44780U)
        ensures
            *r == self.cpu.bus.per.ports.dsp,
    {
        &self.cpu.bus.per.ports.dsp
    }

    pub fn get_ram(&self) -> (r: &RAM)
        ensures
            *r == self.cpu.bus.ram,
    {
        &self.cpu.bus.ram
    }

    pub fn get_controller(&self) -> (r: &SNESController)
        ensures
            *r == self.cpu.bus.per.ports.con,
    {
        &self.cpu.bus.per.ports.con
    }

    pub fn get_peripheral_controller(&self) -> (r: &W65C22)
        ensures
            *r == self.cpu.bus.per,
    {
        &self.cpu.bus.per
    }

    /// Whether the display changed since the last call; clears the flag.
    pub fn take_display_update(&mut self) -> (r: bool)
        requires
            old(self).wf(),
        ensures
            final(self).wf(),
            r == old(self).cpu.bus.per.ports.dsp.updated,
            !final(self).cpu.bus.per.ports.dsp.updated,
    {
        self.cpu.bus.per.ports.dsp.get_updated()
    }

    pub fn press(&mut self, btn: Button)
        requires
            old(self).wf(),
        ensures
            final(self).wf(),
            final(self).cpu.bus.per.ports.con.state == old(self).cpu.bus.per.ports.con.state
                & !(1u8 << crate::controller::button_bit(btn)),
    {
        self.cpu.bus.per.ports.con.on_press(btn);
    }

    pub fn release(&mut self, btn: Button)
        requires
            old(self).wf(),
        ensures
            final(self).wf(),
            final(self).cpu.bus.per.ports.con.state == old(self).cpu.bus.per.ports.con.state
                | (1u8 << crate::controller::button_bit(btn)),
    {
        self.cpu.bus.per.ports.con.on_release(btn);
    }

    /// The byte at `addr`, without side effects.
    pub fn peek(&self, addr: u16) -> (r: u8)
        requires
            self.wf(),
        ensures
            r == board_byte(&self.cpu.bus, addr),
    {
        self.cpu.bus.peek_byte(addr)
    }

    /// One tick: a CPU cycle, then a tick of the adapter, whose interrupt
    /// line becomes the CPU's interrupt input, then a tick of the display.
    /// A fatal condition halts the CPU and stops the tick.
    pub fn cycle(&mut self)
        requires
            old(self).wf(),
        ensures
            final(self).wf(),
            final(self).cpu.bus.fault is Some ==> final(self).cpu.state == CPUState::Halt,
            final(self).cpu.bus.fault is None ==> final(self).cpu.interrupt == irq_asserted(
                &final(self).cpu.bus.per,
            ),
            exists|mid: W65C02S<SystemBus>|
                ticked(old(self).cpu, mid) && #[trigger] board_step(mid, final(self).cpu),
    {
        self.cpu.cycle();
        let ghost mid = self.cpu;
        if self.cpu.bus.fault.is_some() {
            self.cpu.halt();
            assert(board_step(mid, self.cpu));
            return;
        }
        match self.cpu.bus.per.cycle() {
            Ok(irq) => {
                self.cpu.set_interrupt(irq);
            },
            Err(f) => {
                self.cpu.bus.fault = Some(f);
                self.cpu.halt();
                assert(board_step(mid, self.cpu));
                return;
            },
        }
        self.cpu.bus.per.ports.dsp.cycle();
        assert(board_step(mid, self.cpu));
    }
}

} // verus!
