use vstd::prelude::*;

use crate::controller::{controller_after_write, SNESController};
use crate::display::{register_value, written, HD44780U, RegisterSelector};
use crate::fault::Fault;

verus! {

/// One of the adapter's two 8-bit ports.
#[derive(Clone, Copy, Debug, PartialEq, Eq, Structural)]
pub enum Port {
    A,
    B,
}

/// Port A pin driving the display's register select.
pub const DSP_RS: u8 = 0x20;

/// Port A pin driving the display's read/write line.
pub const DSP_RW: u8 = 0x40;

/// Port A pin driving the display's enable line.
pub const DSP_E: u8 = 0x80;

/// Port A pin driving the controller's latch line.
pub const CON_LATCH: u8 = 0x02;

/// Port A pin driving the controller's clock line.
pub const CON_CLK: u8 = 0x04;

/// Port A input pins that carry the controller's data line.
pub const CON_DATA_MASK: u8 = 0x07;

/// The devices on the adapter's ports: port B is the display's data bus,
/// port A carries the display's control lines and the controller.
pub struct Peripherals {
    pub dsp: HD44780U,
    pub con: SNESController,
    pub a_cache: u8,
    pub b_cache: u8,
}

/// Display control lines encoded by a port A value.
pub open spec fn dsp_pins(a: u8) -> (RegisterSelector, bool, bool) {
    (
        if a & DSP_RS == DSP_RS {
            RegisterSelector::Data
        } else {
            RegisterSelector::Instruction
        },
        a & DSP_RW == DSP_RW,
        a & DSP_E == DSP_E,
    )
}

/// Controller latch and clock lines encoded by a port A value.
pub open spec fn con_pins(a: u8) -> (bool, bool) {
    (a & CON_LATCH == CON_LATCH, a & CON_CLK == CON_CLK)
}

/// What the pins of a port read as.
pub open spec fn port_value(p: &Peripherals, port: Port) -> Result<u8, Fault> {
    match port {
        Port::A => Ok((p.con.shift & 1u8) & CON_DATA_MASK),
        Port::B => {
            let (rs, rw, _e) = dsp_pins(p.a_cache);
            if rw {
                Ok(register_value(&p.dsp, rs))
            } else {
                Err(Fault::DisplayReadWithoutRw)
            }
        },
    }
}

/// `p1` is `p0` with both caches as given, after the cached lines were
/// driven into the display and the controller.
pub open spec fn lines_driven(p0: Peripherals, p1: Peripherals, a: u8, b: u8) -> bool {
    &&& p1.a_cache == a
    &&& p1.b_cache == b
    &&& written(p0.dsp, p1.dsp, dsp_pins(a).0, dsp_pins(a).1, dsp_pins(a).2, b)
    &&& p1.con == controller_after_write(p0.con, con_pins(a).0, con_pins(a).1)
}

/// `p1` is `p0` after `write(port, val)`.
pub open spec fn port_written(p0: Peripherals, p1: Peripherals, port: Port, val: u8) -> bool {
    match port {
        Port::A => lines_driven(p0, p1, val, p0.b_cache),
        Port::B => lines_driven(p0, p1, p0.a_cache, val),
    }
}

impl Peripherals {
    pub open spec fn wf(&self) -> bool {
        self.dsp.wf()
    }

    pub fn new() -> (r: Peripherals)
        ensures
            r.wf(),
            r.a_cache == 0 && r.b_cache == 0,
            r.con == SNESController::new_spec(),
            r.dsp.state == crate::display::State::Busy(crate::display::RESET_DELAY),
            r.dsp.addr == 0,
    {
        Peripherals { dsp: HD44780U::new(), con: SNESController::new(), a_cache: 0, b_cache: 0 }
    }

    pub fn get_dsp_pins(&self) -> (r: (RegisterSelector, bool, bool))
        ensures
            r == dsp_pins(self.a_cache),
    {
        (
            if self.a_cache & DSP_RS == DSP_RS {
                RegisterSelector::Data
            } else {
                RegisterSelector::Instruction
            },
            self.a_cache & DSP_RW == DSP_RW,
            self.a_cache & DSP_E == DSP_E,
        )
    }

    pub fn get_con_pins(&self) -> (r: (bool, bool))
        ensures
            r == con_pins(self.a_cache),
    {
        (self.a_cache & CON_LATCH == CON_LATCH, self.a_cache & CON_CLK == CON_CLK)
    }

    /// Drives the cached port values into the display and the controller.
    pub fn do_write(&mut self)
        requires
            old(self).wf(),
        ensures
            final(self).wf(),
            lines_driven(*old(self), *final(self), old(self).a_cache, old(self).b_cache),
    {
        let (rs, rw, e) = self.get_dsp_pins();
        self.dsp.write(rs, rw, e, self.b_cache);
        let (latch, clk) = self.get_con_pins();
        self.con.write(latch, clk);
    }

    /// The pins of `port`, without side effects.
    pub fn peek(&self, port: Port) -> (r: Result<u8, Fault>)
        requires
            self.wf(),
        ensures
            r == port_value(self, port),
    {
        match port {
            Port::A => Ok(self.con.peek() & CON_DATA_MASK),
            Port::B => {
                let (rs, rw, e) = self.get_dsp_pins();
                self.dsp.peek(rs, rw, e)
            },
        }
    }

    /// The pins of `port`; reading them changes nothing.
    pub fn read(&mut self, port: Port) -> (r: Result<u8, Fault>)
        requires
            old(self).wf(),
        ensures
            r == port_value(old(self), port),
            *final(self) == *old(self),
    {
        match port {
            Port::A => Ok(self.con.read() & CON_DATA_MASK),
            Port::B => {
                let (rs, rw, e) = self.get_dsp_pins();
                self.dsp.read(rs, rw, e)
            },
        }
    }

    /// Sets the output value of `port` and drives the attached devices.
    pub fn write(&mut self, port: Port, val: u8)
        requires
            old(self).wf(),
        ensures
            final(self).wf(),
            port_written(*old(self), *final(self), port, val),
    {
        match port {
            Port::A => {
                self.a_cache = val;
            },
            Port::B => {
                self.b_cache = val;
            },
        }
        self.do_write();
    }
}

} // verus!
