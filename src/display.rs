use vstd::prelude::*;

use crate::fault::Fault;

verus! {

/// Characters per DDRAM line.
pub const LINE_LEN: usize = 40;

/// Characters shown per line.
pub const VISIBLE_LEN: usize = 16;

/// Busy time after a command or a data write, in ticks.
pub const COMMAND_DELAY: usize = 37;

/// Busy time after power-on, in ticks.
pub const RESET_DELAY: usize = 150;

/// The byte stored by "clear display" (ASCII space).
pub const BLANK: u8 = 0x20;

#[derive(Clone, Copy, Debug, PartialEq, Eq, Structural)]
pub enum State {
    Idle,
    Busy(usize),
}

#[derive(Clone, Copy, Debug, PartialEq, Eq, Structural)]
pub enum RegisterSelector {
    Instruction,
    Data,
}

/// Character LCD controller with two 40-byte DDRAM lines; bit 6 of the
/// address counter selects the line.
pub struct HD44780U {
    pub state: State,
    pub addr: u8,
    pub line1: Vec<u8>,
    pub line2: Vec<u8>,
    pub charset: Vec<char>,
    pub updated: bool,
    pub e: bool,
}

/// Address counter after an instruction-register command, decoded by its
/// highest set bit.
pub open spec fn command_addr(addr: u8, val: u8) -> u8 {
    if val & 0x80 == 0x80 {
        ((val & 0x7f) % 80) as u8
    } else if val & 0x40 == 0x40 || val & 0x20 == 0x20 || val & 0x10 == 0x10 || val & 0x08
        == 0x08 || val & 0x04 == 0x04 {
        addr
    } else if val & 0x02 == 0x02 || val & 0x01 == 0x01 {
        0
    } else {
        addr
    }
}

/// Whether a command is "clear display".
pub open spec fn clears_display(val: u8) -> bool {
    val & 0xFE == 0 && val & 0x01 == 0x01
}

/// Address counter after a data write at `addr`.
pub open spec fn next_addr(addr: u8) -> u8 {
    let n = (addr + 1) as u8;
    if n & 0x40 == 0x00 {
        if n > 40 { 0x40 } else { n }
    } else {
        if n > 0x40 + 40 { 0x00 } else { n }
    }
}

/// Whether `addr` selects the first line.
pub open spec fn on_line1(addr: u8) -> bool {
    addr & 0x40 == 0x00
}

/// Offset of `addr` within its line.
pub open spec fn line_offset(addr: u8) -> int {
    (addr & 0x3F) as int
}

/// A line after a data write at `addr`; offsets past the line's end hold
/// no storage and ignore the write.
pub open spec fn line_after_write(line: Seq<u8>, selected: bool, addr: u8, val: u8) -> Seq<u8> {
    if selected && line_offset(addr) < LINE_LEN {
        line.update(line_offset(addr), val)
    } else {
        line
    }
}

/// The byte read from DDRAM at `addr`.
pub open spec fn ddram_at(line1: Seq<u8>, line2: Seq<u8>, addr: u8) -> u8 {
    if line_offset(addr) >= LINE_LEN {
        BLANK
    } else if on_line1(addr) {
        line1[line_offset(addr)]
    } else {
        line2[line_offset(addr)]
    }
}

/// What a read returns for the given register.
pub open spec fn register_value(d: &HD44780U, rs: RegisterSelector) -> u8 {
    match rs {
        RegisterSelector::Instruction => if d.state is Busy {
            d.addr | 0x80
        } else {
            d.addr
        },
        RegisterSelector::Data => ddram_at(d.line1@, d.line2@, d.addr),
    }
}

/// The visible glyphs of a line.
pub open spec fn render(line: Seq<u8>, charset: Seq<char>) -> Seq<char> {
    Seq::new(VISIBLE_LEN as nat, |i: int| charset[line[i] as int])
}

/// Whether a write with these enable levels commits (falling edge).
pub open spec fn commits(last_e: bool, rw: bool, e: bool) -> bool {
    !rw && last_e && !e
}

/// The display `d1` is `d0` after `write(rs, rw, e, val)`.
pub open spec fn written(
    d0: HD44780U,
    d1: HD44780U,
    rs: RegisterSelector,
    rw: bool,
    e: bool,
    val: u8,
) -> bool {
    &&& (d1.wf())
    &&& (d1.e == e)
    &&& (d1.charset@ == d0.charset@)
    &&& (!commits(d0.e, rw, e) ==> {
                &&& d1.state == d0.state
                &&& d1.addr == d0.addr
                &&& d1.line1@ == d0.line1@
                &&& d1.line2@ == d0.line2@
                &&& d1.updated == d0.updated
            })
    &&& (commits(d0.e, rw, e) && rs == RegisterSelector::Instruction ==> {
                &&& d1.state == State::Busy(COMMAND_DELAY)
                &&& d1.addr == command_addr(d0.addr, val)
                &&& d1.updated == d0.updated
                &&& clears_display(val) ==> d1.line1@ == Seq::new(
                    LINE_LEN as nat,
                    |_i: int| BLANK,
                ) && d1.line2@ == Seq::new(LINE_LEN as nat, |_i: int| BLANK)
                &&& !clears_display(val) ==> d1.line1@ == d0.line1@
                    && d1.line2@ == d0.line2@
            })
    &&& (commits(d0.e, rw, e) && rs == RegisterSelector::Data ==> {
                &&& d1.state == State::Busy(COMMAND_DELAY)
                &&& d1.addr == next_addr(d0.addr)
                &&& d1.updated
                &&& d1.line1@ == line_after_write(
                    d0.line1@,
                    on_line1(d0.addr),
                    d0.addr,
                    val,
                )
                &&& d1.line2@ == line_after_write(
                    d0.line2@,
                    !on_line1(d0.addr),
                    d0.addr,
                    val,
                )
            })
}

/// The display after one tick: the busy counter runs down to idle.
pub open spec fn display_ticked(d: HD44780U) -> HD44780U {
    HD44780U {
        state: match d.state {
            State::Idle => State::Idle,
            State::Busy(0) => State::Idle,
            State::Busy(c) => State::Busy((c - 1) as usize),
        },
        ..d
    }
}

/// Relies on String::push: appends one character.
#[verifier::external_body]
pub(crate) fn push_char(s: &mut String, c: char)
    ensures
        final(s)@ == old(s)@.push(c),
{
    s.push(c);
}

impl HD44780U {
    pub open spec fn wf(&self) -> bool {
        &&& self.line1@.len() == LINE_LEN
        &&& self.line2@.len() == LINE_LEN
        &&& self.charset@.len() == 256
        &&& self.addr <= 0x69
    }

    /// Powered on: blank lines, address 0, busy with the reset delay.
    pub fn new() -> (r: HD44780U)
        ensures
            r.wf(),
            r.state == State::Busy(RESET_DELAY),
            r.addr == 0,
            r.line1@ == Seq::new(LINE_LEN as nat, |_i: int| BLANK),
            r.line2@ == Seq::new(LINE_LEN as nat, |_i: int| BLANK),
            !r.updated,
            !r.e,
    {
        let line1 = Self::blank_line();
        let line2 = Self::blank_line();
        let charset = vec![
            ' ', ' ', ' ', ' ', ' ', ' ', ' ', ' ', ' ', ' ', ' ', ' ', ' ', ' ', ' ', ' ',
            ' ', ' ', ' ', ' ', ' ', ' ', ' ', ' ', ' ', ' ', ' ', ' ', ' ', ' ', ' ', ' ',
            ' ', '!', '"', '#', '$', '%', '&', '\'', '(', ')', '*', '+', ',', '-', '.', '/',
            '0', '1', '2', '3', '4', '5', '6', '7', '8', '9', ':', ';', '<', '=', '>', '?',
            '@', 'A', 'B', 'C', 'D', 'E', 'F', 'G', 'H', 'I', 'J', 'K', 'L', 'M', 'N', 'O',
            'P', 'Q', 'R', 'S', 'T', 'U', 'V', 'W', 'X', 'Y', 'Z', '[', '¥', ']', '^', '_',
            '`', 'a', 'b', 'c', 'd', 'e', 'f', 'g', 'h', 'i', 'j', 'k', 'l', 'm', 'n', 'o',
            'p', 'q', 'r', 's', 't', 'u', 'v', 'w', 'x', 'y', 'z', '{', '|', '}', '→', '←',
            ' ', ' ', ' ', ' ', ' ', ' ', ' ', ' ', ' ', ' ', ' ', ' ', ' ', ' ', ' ', ' ',
            ' ', ' ', ' ', ' ', ' ', ' ', ' ', ' ', ' ', ' ', ' ', ' ', ' ', ' ', ' ', ' ',
            ' ', '｡', '｢', '｣', '､', '･', 'ｦ', 'ｧ', 'ｨ', 'ｩ', 'ｪ', 'ｫ', 'ｭ', 'ｪ', 'ｮ', 'ｯ',
            'ｰ', 'ｱ', 'ｲ', 'ｳ', 'ｴ', 'ｵ', 'ｶ', 'ｷ', 'ｸ', 'ｹ', 'ｺ', 'ｻ', 'ｼ', 'ｽ', 'ｾ', 'ｿ',
            'ﾀ', 'ﾁ', 'ﾂ', 'ﾃ', 'ﾄ', 'ﾅ', 'ﾆ', 'ﾇ', 'ﾈ', 'ﾉ', 'ﾊ', 'ﾋ', 'ﾌ', 'ﾍ', 'ﾎ', 'ﾏ',
            'ﾐ', 'ﾑ', 'ﾒ', 'ﾓ', 'ﾔ', 'ﾕ', 'ﾖ', 'ﾗ', 'ﾘ', 'ﾙ', 'ﾚ', 'ﾛ', 'ﾜ', 'ﾝ', 'ﾞ', 'ﾟ',
            'α', 'ä', 'β', 'ε', 'μ', 'δ', 'ρ', 'g', '√', '¹', 'ϳ', '×', '¢', '£', 'ñ', 'ö',
            'p', 'q', 'θ', '∞', 'Ω', 'ü', '∑', 'π', 'x', 'y', '子', '万', '円', '÷', ' ', '█',
        ];
        HD44780U {
            state: State::Busy(RESET_DELAY),
            addr: 0,
            line1,
            line2,
            charset,
            updated: false,
            e: false,
        }
    }

    fn blank_line() -> (r: Vec<u8>)
        ensures
            r@ == Seq::new(LINE_LEN as nat, |_i: int| BLANK),
    {
        let mut line: Vec<u8> = Vec::new();
        let mut i: usize = 0;
        while i < LINE_LEN
            invariant
                i <= LINE_LEN,
                line@ == Seq::new(i as nat, |_i: int| BLANK),
            decreases LINE_LEN - i,
        {
            line.push(BLANK);
            i = i + 1;
            assert(line@ =~= Seq::new(i as nat, |_i: int| BLANK));
        }
        line
    }

    fn ddram_read(&self) -> (r: u8)
        requires
            self.wf(),
        ensures
            r == ddram_at(self.line1@, self.line2@, self.addr),
    {
        let offset = (self.addr & 0x3F) as usize;
        if offset >= LINE_LEN {
            BLANK
        } else if self.addr & 0x40 == 0x00 {
            self.line1[offset]
        } else {
            self.line2[offset]
        }
    }

    /// Register contents without side effects; refused unless `rw` asks
    /// for a read.
    pub fn peek(&self, rs: RegisterSelector, rw: bool, _e: bool) -> (r: Result<u8, Fault>)
        requires
            self.wf(),
        ensures
            !rw ==> r == Err::<u8, Fault>(Fault::DisplayReadWithoutRw),
            rw ==> r == Ok::<u8, Fault>(register_value(self, rs)),
    {
        if !rw {
            return Err(Fault::DisplayReadWithoutRw);
        }
        match rs {
            RegisterSelector::Instruction => {
                let mut result = self.addr;
                if let State::Busy(_) = self.state {
                    result = result | 0x80;
                }
                Ok(result)
            },
            RegisterSelector::Data => Ok(self.ddram_read()),
        }
    }

    /// A read: the same as `peek`; it changes nothing.
    pub fn read(&self, rs: RegisterSelector, rw: bool, e: bool) -> (r: Result<u8, Fault>)
        requires
            self.wf(),
        ensures
            !rw ==> r == Err::<u8, Fault>(Fault::DisplayReadWithoutRw),
            rw ==> r == Ok::<u8, Fault>(register_value(self, rs)),
    {
        self.peek(rs, rw, e)
    }

    fn clear_lines(&mut self)
        requires
            old(self).wf(),
        ensures
            final(self).wf(),
            final(self).line1@ == Seq::new(LINE_LEN as nat, |_i: int| BLANK),
            final(self).line2@ == Seq::new(LINE_LEN as nat, |_i: int| BLANK),
            final(self).addr == old(self).addr,
            final(self).state == old(self).state,
            final(self).charset@ == old(self).charset@,
            final(self).updated == old(self).updated,
            final(self).e == old(self).e,
    {
        let mut i: usize = 0;
        while i < LINE_LEN
            invariant
                i <= LINE_LEN,
                self.wf(),
                self.addr == old(self).addr,
                self.state == old(self).state,
                self.charset@ == old(self).charset@,
                self.updated == old(self).updated,
                self.e == old(self).e,
                forall|j: int| 0 <= j < i ==> self.line1@[j] == BLANK && self.line2@[j] == BLANK,
            decreases LINE_LEN - i,
        {
            self.line1.set(i, BLANK);
            self.line2.set(i, BLANK);
            i = i + 1;
        }
        assert(self.line1@ =~= Seq::new(LINE_LEN as nat, |_i: int| BLANK));
        assert(self.line2@ =~= Seq::new(LINE_LEN as nat, |_i: int| BLANK));
    }

    /// Drives the bus lines. The enable level is always recorded; a write
    /// (`rw` low) commits only on a falling edge of enable.
    pub fn write(&mut self, rs: RegisterSelector, rw: bool, e: bool, val: u8)
        requires
            old(self).wf(),
        ensures
            final(self).wf(),
            written(*old(self), *final(self), rs, rw, e, val),
    {
        let last_e = self.e;
        self.e = e;
        if rw {
            return;
        }
        if last_e && !self.e {
            match rs {
                RegisterSelector::Instruction => {
                    if val & 0x80 == 0x80 {
                        self.addr = (val & 0x7f) % 80;
                    } else if val & 0x40 == 0x40 {
                        // CGRAM address: acknowledged only
                    } else if val & 0x20 == 0x20 {
                        // function set: acknowledged only
                    } else if val & 0x10 == 0x10 {
                        // cursor or display shift: acknowledged only
                    } else if val & 0x08 == 0x08 {
                        // display on/off: acknowledged only
                    } else if val & 0x04 == 0x04 {
                        // entry mode set: acknowledged only
                    } else if val & 0x02 == 0x02 {
                        self.addr = 0;
                    } else if val & 0x01 == 0x01 {
                        self.addr = 0;
                        self.clear_lines();
                    }
                    assert(clears_display(val) <==> (val & 0x80 != 0x80 && val & 0x40 != 0x40
                        && val & 0x20 != 0x20 && val & 0x10 != 0x10 && val & 0x08 != 0x08 && val
                        & 0x04 != 0x04 && val & 0x02 != 0x02 && val & 0x01 == 0x01))
                        by (bit_vector);
                    self.state = State::Busy(COMMAND_DELAY);
                },
                RegisterSelector::Data => {
                    let offset = (self.addr & 0x3F) as usize;
                    if offset < LINE_LEN {
                        if self.addr & 0x40 == 0x00 {
                            self.line1.set(offset, val);
                        } else {
                            self.line2.set(offset, val);
                        }
                    }
                    let n = self.addr + 1;
                    if n & 0x40 == 0x00 {
                        self.addr = if n > 40 { 0x40 } else { n };
                    } else {
                        self.addr = if n > 0x40 + 40 { 0x00 } else { n };
                    }
                    self.state = State::Busy(COMMAND_DELAY);
                    self.updated = true;
                },
            }
        }
    }

    /// The two visible lines, each the first 16 bytes mapped through the
    /// character table.
    pub fn get_output(&self) -> (r: (String, String))
        requires
            self.wf(),
        ensures
            r.0@ == render(self.line1@, self.charset@),
            r.1@ == render(self.line2@, self.charset@),
    {
        (self.render_line(&self.line1), self.render_line(&self.line2))
    }

    fn render_line(&self, line: &Vec<u8>) -> (r: String)
        requires
            self.wf(),
            line@.len() == LINE_LEN,
        ensures
            r@ == render(line@, self.charset@),
    {
        let mut s = String::new();
        let mut i: usize = 0;
        while i < VISIBLE_LEN
            invariant
                i <= VISIBLE_LEN,
                self.wf(),
                line@.len() == LINE_LEN,
                s@ == render(line@, self.charset@).subrange(0, i as int),
            decreases VISIBLE_LEN - i,
        {
            push_char(&mut s, self.charset[line[i] as usize]);
            i = i + 1;
            assert(s@ =~= render(line@, self.charset@).subrange(0, i as int));
        }
        assert(s@ =~= render(line@, self.charset@));
        s
    }

    /// Whether the DDRAM changed since the last call; clears the flag.
    pub fn get_updated(&mut self) -> (r: bool)
        ensures
            r == old(self).updated,
            !final(self).updated,
            final(self).state == old(self).state,
            final(self).addr == old(self).addr,
            final(self).line1 == old(self).line1,
            final(self).line2 == old(self).line2,
            final(self).charset == old(self).charset,
            final(self).e == old(self).e,
    {
        let result = self.updated;
        self.updated = false;
        result
    }

    /// One tick: the busy counter runs down to idle.
    pub fn cycle(&mut self)
        ensures
            *final(self) == display_ticked(*old(self)),
    {
        self.state = match self.state {
            State::Idle => State::Idle,
            State::Busy(0) => State::Idle,
            State::Busy(c) => State::Busy(c - 1),
        };
    }
}

} // verus!
