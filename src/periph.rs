use vstd::prelude::*;

use crate::fault::Fault;
use crate::ports::{port_value, port_written, Peripherals, Port};

verus! {

/// Interrupt flag of timer 1.
pub const IRQ_T1: u8 = 0x40;

/// Summary bit of the interrupt flag register.
pub const IRQ_ANY: u8 = 0x80;

/// Versatile interface adapter: two ports, timer 1 and interrupt flags.
/// Timer 2, the shift register and the handshake modes are not modelled.
pub struct W65C22 {
    pub orb: u8,
    pub ora: u8,
    pub irb: u8,
    pub ira: u8,
    pub ddrb: u8,
    pub ddra: u8,
    pub t1c: u16,
    pub t1l: u16,
    pub t2c: u16,
    pub sr: u8,
    pub acr: u8,
    pub pcr: u8,
    pub ifr: u8,
    pub ier: u8,
    pub cb1: bool,
    pub cb2: bool,
    pub ports: Peripherals,
}

/// The interrupt flags `flags` (bit 7 ignored) with the summary bit set
/// exactly when one of them is enabled in `ier`.
pub open spec fn with_summary(flags: u8, ier: u8) -> u8 {
    if (flags & 0x7F) & ier != 0 {
        (flags & 0x7F) | IRQ_ANY
    } else {
        flags & 0x7F
    }
}

/// Whether the adapter asserts its interrupt line.
pub open spec fn irq_asserted(v: &W65C22) -> bool {
    v.ifr & v.ier & 0x7F != 0
}

/// The pins that a read of port B sees: the latch when latching is on.
pub open spec fn port_b_pins(v: &W65C22) -> Result<u8, Fault> {
    if v.acr & 0x02 == 0x02 {
        Ok(v.irb)
    } else {
        port_value(&v.ports, Port::B)
    }
}

/// Output bits where the direction register says output, pins elsewhere.
pub open spec fn mix(out: u8, ddr: u8, pins: Result<u8, Fault>) -> Result<u8, Fault> {
    match pins {
        Ok(p) => Ok((out & ddr) | (p & !ddr)),
        Err(f) => Err(f),
    }
}

/// What a read of register `addr` returns.
pub open spec fn register_value(v: &W65C22, addr: u16) -> Result<u8, Fault> {
    if addr == 0x0 {
        mix(v.orb, v.ddrb, port_b_pins(v))
    } else if addr == 0x2 {
        Ok(v.ddrb)
    } else if addr == 0x3 {
        Ok(v.ddra)
    } else if addr == 0x4 {
        Ok((v.t1c & 0x00ff) as u8)
    } else if addr == 0x5 {
        Ok((v.t1c >> 8) as u8)
    } else if addr == 0x6 {
        Ok((v.t1l & 0x00ff) as u8)
    } else if addr == 0x7 {
        Ok((v.t1l >> 8) as u8)
    } else if addr == 0xD {
        Ok(v.ifr)
    } else if addr == 0xE {
        Ok(v.ier)
    } else if addr == 0xF {
        mix(v.ora, v.ddra, port_value(&v.ports, Port::A))
    } else {
        Err(Fault::UnsupportedRead(addr))
    }
}

/// Whether a read of register `addr` acknowledges the timer 1 interrupt.
pub open spec fn read_clears_t1(addr: u16) -> bool {
    addr == 0x4 || addr == 0x6
}

/// Whether register `addr` can be written.
pub open spec fn writable(addr: u16) -> bool {
    addr == 0x0 || addr == 0x2 || addr == 0x3 || addr == 0x4 || addr == 0x5 || addr == 0x6
        || addr == 0x7 || addr == 0xB || addr == 0xD || addr == 0xE || addr == 0xF
}

/// `v1` equals `v0` in every register but the interrupt flags.
pub open spec fn same_but_ifr(v0: W65C22, v1: W65C22) -> bool {
    &&& v1.orb == v0.orb && v1.ora == v0.ora && v1.irb == v0.irb && v1.ira == v0.ira
    &&& v1.ddrb == v0.ddrb && v1.ddra == v0.ddra
    &&& v1.t1c == v0.t1c && v1.t1l == v0.t1l && v1.t2c == v0.t2c
    &&& v1.sr == v0.sr && v1.acr == v0.acr && v1.pcr == v0.pcr && v1.ier == v0.ier
    &&& v1.cb1 == v0.cb1 && v1.cb2 == v0.cb2
}

/// `v1` is `v0` after a write of `data` to the writable register `addr`.
pub open spec fn register_written(v0: W65C22, v1: W65C22, addr: u16, data: u8) -> bool {
    let lo = (v0.t1l & 0xff00) | (data as u16);
    let hi = (v0.t1l & 0x00ff) | ((data as u16) << 8);
    let ports_same = v1.ports == v0.ports;
    if addr == 0x0 {
        &&& v1.orb == data & v0.ddrb
        &&& port_written(v0.ports, v1.ports, Port::B, data & v0.ddrb)
        &&& same_but_ifr(v0, W65C22 { orb: v0.orb, ..v1 }) && v1.ifr == v0.ifr
    } else if addr == 0x2 {
        &&& v1 == W65C22 { ddrb: data, ..v0 }
    } else if addr == 0x3 {
        &&& v1 == W65C22 { ddra: data, ..v0 }
    } else if addr == 0x4 || addr == 0x6 {
        &&& v1 == W65C22 { t1l: lo, ..v0 }
    } else if addr == 0x5 {
        &&& v1 == W65C22 { t1l: hi, t1c: hi, ifr: with_summary(v0.ifr & !IRQ_T1, v0.ier), ..v0 }
    } else if addr == 0x7 {
        &&& v1 == W65C22 { t1l: hi, ifr: with_summary(v0.ifr & !IRQ_T1, v0.ier), ..v0 }
    } else if addr == 0xB {
        &&& v1 == W65C22 { acr: data, ..v0 }
    } else if addr == 0xD {
        &&& v1 == W65C22 { ifr: with_summary(v0.ifr & !data, v0.ier), ..v0 }
    } else if addr == 0xE {
        &&& v1 == W65C22 { ier: data, ifr: with_summary(v0.ifr, data), ..v0 }
    } else {
        &&& v1.ora == data & v0.ddra
        &&& port_written(v0.ports, v1.ports, Port::A, data & v0.ddra)
        &&& same_but_ifr(v0, W65C22 { ora: v0.ora, ..v1 }) && v1.ifr == v0.ifr
    }
}

/// The adapter after one tick of timer 1, when that tick succeeds.
pub open spec fn ticked(v: W65C22) -> W65C22 {
    if v.t1c > 0 {
        W65C22 { t1c: (v.t1c - 1) as u16, ..v }
    } else {
        let flagged = W65C22 { ifr: with_summary(v.ifr | IRQ_T1, v.ier), ..v };
        if v.acr >> 6 == 1 {
            W65C22 { t1c: v.t1l, ..flagged }
        } else {
            flagged
        }
    }
}

/// Whether a tick reaches zero in a timer mode that is not modelled.
pub open spec fn tick_faults(v: &W65C22) -> bool {
    v.t1c == 0 && v.acr >> 6 >= 2
}

/// The adapter with the timer 1 interrupt acknowledged.
pub open spec fn t1_acknowledged(v: W65C22) -> W65C22 {
    W65C22 { ifr: with_summary(v.ifr & !IRQ_T1, v.ier), ..v }
}

/// The adapter after a read of register `addr`.
pub open spec fn read_effect(v: W65C22, addr: u16) -> W65C22 {
    if read_clears_t1(addr) {
        t1_acknowledged(v)
    } else {
        v
    }
}

/// Outcome of a tick: a fault that changes nothing, or the ticked adapter
/// and its interrupt line.
pub open spec fn cycled(v0: W65C22, v1: W65C22, r: Result<bool, Fault>) -> bool {
    if tick_faults(&v0) {
        r == Err::<bool, Fault>(Fault::UnsupportedTimerMode(v0.acr >> 6)) && v1 == v0
    } else {
        v1 == ticked(v0) && r == Ok::<bool, Fault>(irq_asserted(&v1))
    }
}

/// Outcome of `write(addr, data)`.
pub open spec fn write_outcome(
    v0: W65C22,
    v1: W65C22,
    addr: u16,
    data: u8,
    r: Result<(), Fault>,
) -> bool {
    if writable(addr) {
        r is Ok && register_written(v0, v1, addr, data)
    } else {
        r == Err::<(), Fault>(Fault::UnsupportedWrite(addr)) && v1 == v0
    }
}

/// Outcome of driving a control line to `val` when `latches` says whether
/// its edge latches port B; `v0_line` is `v0` with the new line level.
pub open spec fn line_set(
    v0: W65C22,
    v1: W65C22,
    v0_line: W65C22,
    latches: bool,
    r: Result<(), Fault>,
) -> bool {
    if latches {
        match port_value(&v0.ports, Port::B) {
            Ok(p) => r is Ok && v1 == W65C22 { irb: p, ..v0_line },
            Err(f) => r == Err::<(), Fault>(f) && v1 == v0_line,
        }
    } else {
        r is Ok && v1 == v0_line
    }
}

/// Outcome of `set_cb1(val)`.
pub open spec fn cb1_set(v0: W65C22, v1: W65C22, val: bool, r: Result<(), Fault>) -> bool {
    let latches = v0.acr & 0x02 == 0x02 && if v0.pcr >> 4 & 1 == 1 {
        !v0.cb1 && val
    } else {
        v0.cb1 && !val
    };
    line_set(v0, v1, W65C22 { cb1: val, ..v0 }, latches, r)
}

/// Outcome of `set_cb2(val)`.
pub open spec fn cb2_set(v0: W65C22, v1: W65C22, val: bool, r: Result<(), Fault>) -> bool {
    let mode = v0.pcr >> 5;
    let latches = v0.acr & 0x02 == 0x02 && if mode <= 1 {
        v0.cb2 && !val
    } else if mode <= 3 {
        !v0.cb2 && val
    } else {
        false
    };
    line_set(v0, v1, W65C22 { cb2: val, ..v0 }, latches, r)
}

impl W65C22 {
    pub open spec fn wf(&self) -> bool {
        &&& self.ports.wf()
        &&& self.ifr == with_summary(self.ifr, self.ier)
    }

    /// All registers zero.
    pub fn new(ports: Peripherals) -> (r: W65C22)
        requires
            ports.wf(),
        ensures
            r.wf(),
            r.ports == ports,
            r.orb == 0 && r.ora == 0 && r.irb == 0 && r.ira == 0,
            r.ddrb == 0 && r.ddra == 0,
            r.t1c == 0 && r.t1l == 0 && r.t2c == 0,
            r.sr == 0 && r.acr == 0 && r.pcr == 0 && r.ifr == 0 && r.ier == 0,
            !r.cb1 && !r.cb2,
    {
        let r = W65C22 {
            orb: 0,
            ora: 0,
            irb: 0,
            ira: 0,
            ddrb: 0,
            ddra: 0,
            t1c: 0,
            t1l: 0,
            t2c: 0,
            sr: 0,
            acr: 0,
            pcr: 0,
            ifr: 0,
            ier: 0,
            cb1: false,
            cb2: false,
            ports,
        };
        assert(0u8 == with_summary(0u8, 0u8)) by (bit_vector);
        r
    }

    fn summarize(flags: u8, ier: u8) -> (r: u8)
        ensures
            r == with_summary(flags, ier),
            r == with_summary(r, ier),
    {
        let low = flags & 0x7F;
        assert(with_summary(flags, ier) == with_summary(with_summary(flags, ier), ier))
            by (bit_vector);
        if low & ier != 0 {
            low | IRQ_ANY
        } else {
            low
        }
    }

    fn clear_t1(&mut self)
        ensures
            *final(self) == t1_acknowledged(*old(self)),
            final(self).ifr == with_summary(final(self).ifr, final(self).ier),
    {
        self.ifr = Self::summarize(self.ifr & !IRQ_T1, self.ier);
    }

    /// One tick of timer 1: it counts down; at zero it flags its
    /// interrupt and, in free-run mode, reloads from the latch. Returns
    /// whether the interrupt line is asserted.
    pub fn cycle(&mut self) -> (r: Result<bool, Fault>)
        requires
            old(self).wf(),
        ensures
            final(self).wf(),
            cycled(*old(self), *final(self), r),
    {
        if self.t1c > 0 {
            self.t1c = self.t1c - 1;
        } else {
            let mode = self.acr >> 6;
            if mode >= 2 {
                return Err(Fault::UnsupportedTimerMode(mode));
            }
            self.ifr = Self::summarize(self.ifr | IRQ_T1, self.ier);
            if mode == 1 {
                self.t1c = self.t1l;
            }
        }
        Ok(self.ifr & self.ier & 0x7F != 0)
    }

    fn port_b_pins(&self) -> (r: Result<u8, Fault>)
        requires
            self.wf(),
        ensures
            r == port_b_pins(self),
    {
        if self.acr & 0x02 == 0x02 {
            Ok(self.irb)
        } else {
            self.ports.peek(Port::B)
        }
    }

    fn mix(out: u8, ddr: u8, pins: Result<u8, Fault>) -> (r: Result<u8, Fault>)
        ensures
            r == mix(out, ddr, pins),
    {
        match pins {
            Ok(p) => Ok((out & ddr) | (p & !ddr)),
            Err(f) => Err(f),
        }
    }

    /// The value of register `addr` without side effects: no flag is
    /// acknowledged.
    pub fn peek(&self, addr: u16) -> (r: Result<u8, Fault>)
        requires
            self.wf(),
            addr < 16,
        ensures
            r == register_value(self, addr),
    {
        if addr == 0x0 {
            Self::mix(self.orb, self.ddrb, self.port_b_pins())
        } else if addr == 0x2 {
            Ok(self.ddrb)
        } else if addr == 0x3 {
            Ok(self.ddra)
        } else if addr == 0x4 {
            Ok((self.t1c & 0x00ff) as u8)
        } else if addr == 0x5 {
            Ok((self.t1c >> 8) as u8)
        } else if addr == 0x6 {
            Ok((self.t1l & 0x00ff) as u8)
        } else if addr == 0x7 {
            Ok((self.t1l >> 8) as u8)
        } else if addr == 0xD {
            Ok(self.ifr)
        } else if addr == 0xE {
            Ok(self.ier)
        } else if addr == 0xF {
            Self::mix(self.ora, self.ddra, self.ports.peek(Port::A))
        } else {
            Err(Fault::UnsupportedRead(addr))
        }
    }

    /// Reads register `addr`: the value `peek` gives; reading a timer 1
    /// low byte acknowledges its interrupt.
    pub fn read(&mut self, addr: u16) -> (r: Result<u8, Fault>)
        requires
            old(self).wf(),
            addr < 16,
        ensures
            final(self).wf(),
            r == register_value(old(self), addr),
            *final(self) == read_effect(*old(self), addr),
    {
        let r = if addr == 0x0 {
            let pins = if self.acr & 0x02 == 0x02 {
                Ok(self.irb)
            } else {
                self.ports.read(Port::B)
            };
            Self::mix(self.orb, self.ddrb, pins)
        } else if addr == 0xF {
            let pins = self.ports.read(Port::A);
            Self::mix(self.ora, self.ddra, pins)
        } else {
            self.peek(addr)
        };
        if read_clears_t1_exec(addr) {
            self.clear_t1();
        }
        r
    }

    /// Writes register `addr`; port writes keep only the output bits and
    /// drive the attached devices.
    pub fn write(&mut self, addr: u16, data: u8) -> (r: Result<(), Fault>)
        requires
            old(self).wf(),
            addr < 16,
        ensures
            final(self).wf(),
            write_outcome(*old(self), *final(self), addr, data, r),
    {
        if addr == 0x0 {
            self.orb = data & self.ddrb;
            let v = self.orb;
            self.ports.write(Port::B, v);
        } else if addr == 0x2 {
            self.ddrb = data;
        } else if addr == 0x3 {
            self.ddra = data;
        } else if addr == 0x4 || addr == 0x6 {
            self.t1l = (self.t1l & 0xff00) | (data as u16);
        } else if addr == 0x5 {
            self.t1l = (self.t1l & 0x00ff) | ((data as u16) << 8);
            self.t1c = self.t1l;
            self.clear_t1();
        } else if addr == 0x7 {
            self.t1l = (self.t1l & 0x00ff) | ((data as u16) << 8);
            self.clear_t1();
        } else if addr == 0xB {
            self.acr = data;
        } else if addr == 0xD {
            self.ifr = Self::summarize(self.ifr & !data, self.ier);
        } else if addr == 0xE {
            self.ier = data;
            self.ifr = Self::summarize(self.ifr, data);
        } else if addr == 0xF {
            self.ora = data & self.ddra;
            let v = self.ora;
            self.ports.write(Port::A, v);
        } else {
            return Err(Fault::UnsupportedWrite(addr));
        }
        Ok(())
    }

    /// Sets the CB1 control line; with port B latching on (ACR bit 1),
    /// the edge chosen by PCR bit 4 (1 = rising) latches port B's pins.
    pub fn set_cb1(&mut self, val: bool) -> (r: Result<(), Fault>)
        requires
            old(self).wf(),
        ensures
            final(self).wf(),
            cb1_set(*old(self), *final(self), val, r),
    {
        let mut r = Ok(());
        if self.acr & 0x02 == 0x02 {
            let rising = self.pcr >> 4 & 1 == 1;
            let edge = if rising {
                !self.cb1 && val
            } else {
                self.cb1 && !val
            };
            if edge {
                match self.ports.read(Port::B) {
                    Ok(p) => {
                        self.irb = p;
                    },
                    Err(f) => {
                        r = Err(f);
                    },
                }
            }
        }
        self.cb1 = val;
        r
    }

    /// Sets the CB2 control line; with port B latching on, the input modes
    /// of PCR bits 7..5 latch port B's pins on their edge (modes 0 and 1
    /// falling, 2 and 3 rising).
    pub fn set_cb2(&mut self, val: bool) -> (r: Result<(), Fault>)
        requires
            old(self).wf(),
        ensures
            final(self).wf(),
            cb2_set(*old(self), *final(self), val, r),
    {
        let mut r = Ok(());
        if self.acr & 0x02 == 0x02 {
            let mode = self.pcr >> 5;
            let edge = if mode <= 1 {
                self.cb2 && !val
            } else if mode <= 3 {
                !self.cb2 && val
            } else {
                false
            };
            if edge {
                match self.ports.read(Port::B) {
                    Ok(p) => {
                        self.irb = p;
                    },
                    Err(f) => {
                        r = Err(f);
                    },
                }
            }
        }
        self.cb2 = val;
        r
    }
}

fn read_clears_t1_exec(addr: u16) -> (r: bool)
    ensures
        r == read_clears_t1(addr),
{
    addr == 0x4 || addr == 0x6
}

/// The summary bit of the interrupt flags is set exactly when some other
/// flag is set and enabled.
pub proof fn lemma_summary_bit(v: &W65C22)
    requires
        v.wf(),
    ensures
        (v.ifr & IRQ_ANY != 0) <==> (v.ifr & 0x7F & v.ier != 0),
{
    let ifr = v.ifr;
    let ier = v.ier;
    assert(ifr == with_summary(ifr, ier) ==> ((ifr & 0x80 != 0) <==> (ifr & 0x7F & ier != 0)))
        by (bit_vector);
}

} // verus!
