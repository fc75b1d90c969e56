use vstd::prelude::*;

use crate::controller::Button;
use crate::cpu::Instruction;
use crate::display::push_char;

verus! {

/// Letter shown for each status bit, bit 0 first.
pub open spec fn flag_letter(bit: int) -> char {
    if bit == 0 {
        'C'
    } else if bit == 1 {
        'Z'
    } else if bit == 2 {
        'I'
    } else if bit == 3 {
        'D'
    } else if bit == 4 {
        'B'
    } else if bit == 5 {
        '-'
    } else if bit == 6 {
        'O'
    } else {
        'N'
    }
}

/// The status register as eight characters, bit 7 first: the flag's letter
/// where the bit is set, '-' where it is clear.
pub open spec fn flag_string(flags: u8) -> Seq<char> {
    Seq::new(8, |i: int| if (flags >> ((7 - i) as u8)) & 1 == 1 { flag_letter(7 - i) } else { '-' })
}

fn letter(bit: u8) -> (r: char)
    requires
        bit < 8,
    ensures
        r == flag_letter(bit as int),
{
    if bit == 0 {
        'C'
    } else if bit == 1 {
        'Z'
    } else if bit == 2 {
        'I'
    } else if bit == 3 {
        'D'
    } else if bit == 4 {
        'B'
    } else if bit == 5 {
        '-'
    } else if bit == 6 {
        'O'
    } else {
        'N'
    }
}

/// The status register as text, e.g. `N-----ZC`.
pub fn get_flag_string(flags: u8) -> (r: String)
    ensures
        r@ == flag_string(flags),
{
    let mut s = String::new();
    let mut i: u8 = 0;
    while i < 8
        invariant
            i <= 8,
            s@ == flag_string(flags).subrange(0, i as int),
        decreases 8 - i,
    {
        let bit = 7 - i;
        let c = if (flags >> bit) & 1 == 1 {
            letter(bit)
        } else {
            '-'
        };
        push_char(&mut s, c);
        i = i + 1;
        assert(s@ =~= flag_string(flags).subrange(0, i as int));
    }
    assert(s@ =~= flag_string(flags));
    s
}

/// Value of an ASCII hexadecimal digit, if it is one.
pub open spec fn hex_digit(c: u8) -> Option<int> {
    if 0x30 <= c <= 0x39 {
        Some(c - 0x30)
    } else if 0x41 <= c <= 0x46 {
        Some(c - 0x41 + 10)
    } else if 0x61 <= c <= 0x66 {
        Some(c - 0x61 + 10)
    } else {
        None
    }
}

/// Whether every byte is a hexadecimal digit.
pub open spec fn all_hex(s: Seq<u8>) -> bool {
    forall|i: int| 0 <= i < s.len() ==> #[trigger] hex_digit(s[i]) is Some
}

/// Value of a string of hexadecimal digits.
pub open spec fn hex_value(s: Seq<u8>) -> int
    decreases s.len(),
{
    if s.len() == 0 {
        0
    } else {
        16 * hex_value(s.drop_last()) + hex_digit(s.last())->0
    }
}

fn digit(c: u8) -> (r: Option<u16>)
    ensures
        r matches Some(v) ==> hex_digit(c) == Some(v as int),
        r is None ==> hex_digit(c) is None,
{
    if 0x30 <= c && c <= 0x39 {
        Some((c - 0x30) as u16)
    } else if 0x41 <= c && c <= 0x46 {
        Some((c - 0x41 + 10) as u16)
    } else if 0x61 <= c && c <= 0x66 {
        Some((c - 0x61 + 10) as u16)
    } else {
        None
    }
}

proof fn lemma_hex_value_nonneg(s: Seq<u8>)
    requires
        all_hex(s),
    ensures
        hex_value(s) >= 0,
    decreases s.len(),
{
    if s.len() > 0 {
        assert(all_hex(s.drop_last())) by {
            assert forall|i: int| 0 <= i < s.drop_last().len() implies #[trigger] hex_digit(
                s.drop_last()[i],
            ) is Some by {
                assert(s.drop_last()[i] == s[i]);
            }
        }
        lemma_hex_value_nonneg(s.drop_last());
        assert(hex_digit(s[s.len() - 1]) is Some);
    }
}

/// Parses an address written in hexadecimal (a breakpoint argument).
/// `Some` exactly when the text is one or more hex digits whose value fits
/// in 16 bits.
pub fn parse_hex_address(text: &[u8]) -> (r: Option<u16>)
    ensures
        r is Some <==> (text@.len() > 0 && all_hex(text@) && hex_value(text@) < 0x10000),
        r matches Some(v) ==> v as int == hex_value(text@),
{
    if text.len() == 0 {
        return None;
    }
    let mut value: u32 = 0;
    let mut i: usize = 0;
    while i < text.len()
        invariant
            0 <= i <= text@.len(),
            all_hex(text@.subrange(0, i as int)),
            value as int == hex_value(text@.subrange(0, i as int)),
            value < 0x10000,
        decreases text@.len() - i,
    {
        let d = digit(text[i]);
        let ghost prefix = text@.subrange(0, i as int);
        let ghost next = text@.subrange(0, i + 1);
        assert(next.drop_last() =~= prefix);
        match d {
            Some(v) => {
                let nv = value * 16 + v as u32;
                assert(all_hex(next)) by {
                    assert forall|j: int| 0 <= j < next.len() implies #[trigger] hex_digit(
                        next[j],
                    ) is Some by {
                        if j < i {
                            assert(next[j] == prefix[j]);
                        }
                    }
                }
                if nv >= 0x10000 {
                    proof {
                        lemma_prefix_bound(text@, i as int + 1);
                    }
                    return None;
                }
                value = nv;
            },
            None => {
                assert(!all_hex(text@)) by {
                    assert(hex_digit(text@[i as int]) is None);
                }
                return None;
            },
        }
        i = i + 1;
    }
    assert(text@.subrange(0, text@.len() as int) =~= text@);
    Some(value as u16)
}

/// The value of a hex string is at least that of any of its prefixes.
proof fn lemma_prefix_bound(s: Seq<u8>, k: int)
    requires
        0 <= k <= s.len(),
        all_hex(s.subrange(0, k)) ,
    ensures
        all_hex(s) ==> hex_value(s) >= hex_value(s.subrange(0, k)),
    decreases s.len() - k,
{
    if k < s.len() && all_hex(s) {
        let p = s.subrange(0, k);
        let q = s.subrange(0, k + 1);
        assert(q.drop_last() =~= p);
        assert(all_hex(q)) by {
            assert forall|j: int| 0 <= j < q.len() implies #[trigger] hex_digit(q[j]) is Some by {
                assert(q[j] == s[j]);
            }
        }
        lemma_hex_value_nonneg(p);
        assert(hex_digit(q.last()) is Some);
        lemma_prefix_bound(s, k + 1);
    } else if k == s.len() {
        assert(s.subrange(0, k) =~= s);
    }
}

/// Adds a breakpoint unless it is already set; the index of the
/// breakpoint in the list.
pub fn add_breakpoint(breakpoints: &mut Vec<u16>, addr: u16) -> (r: usize)
    ensures
        old(breakpoints)@.contains(addr) ==> final(breakpoints)@ == old(breakpoints)@,
        !old(breakpoints)@.contains(addr) ==> final(breakpoints)@ == old(breakpoints)@.push(addr),
        r < final(breakpoints)@.len() && final(breakpoints)@[r as int] == addr,
{
    let mut i: usize = 0;
    while i < breakpoints.len()
        invariant
            i <= breakpoints@.len(),
            breakpoints@ == old(breakpoints)@,
            forall|j: int| 0 <= j < i ==> breakpoints@[j] != addr,
        decreases breakpoints@.len() - i,
    {
        if breakpoints[i] == addr {
            return i;
        }
        i = i + 1;
    }
    breakpoints.push(addr);
    breakpoints.len() - 1
}

/// Removes the breakpoint at `ix`; false, with nothing removed, when there
/// is none.
pub fn remove_breakpoint(breakpoints: &mut Vec<u16>, ix: usize) -> (r: bool)
    ensures
        r == (ix < old(breakpoints)@.len()),
        r ==> final(breakpoints)@ == old(breakpoints)@.remove(ix as int),
        !r ==> final(breakpoints)@ == old(breakpoints)@,
{
    if ix < breakpoints.len() {
        breakpoints.remove(ix);
        true
    } else {
        false
    }
}

/// Whether the instruction that starts at PC-1 (just fetched) is at a
/// breakpoint.
pub fn at_breakpoint(breakpoints: &Vec<u16>, pc: u16) -> (r: bool)
    ensures
        r == breakpoints@.contains(pc.wrapping_sub(1)),
{
    let target = pc.wrapping_sub(1);
    let mut i: usize = 0;
    while i < breakpoints.len()
        invariant
            i <= breakpoints@.len(),
            target == pc.wrapping_sub(1),
            forall|j: int| 0 <= j < i ==> breakpoints@[j] != target,
        decreases breakpoints@.len() - i,
    {
        if breakpoints[i] == target {
            assert(breakpoints@[i as int] == target);
            assert(breakpoints@.contains(target));
            return true;
        }
        i = i + 1;
    }
    false
}

/// Whether a run loop stops after completing an instruction: the CPU
/// halted, it reached a breakpoint, or the user cancelled.
pub fn should_stop(halted: bool, pc: u16, breakpoints: &Vec<u16>, cancelled: bool) -> (r: bool)
    ensures
        r == (halted || breakpoints@.contains(pc.wrapping_sub(1)) || cancelled),
{
    halted || at_breakpoint(breakpoints, pc) || cancelled
}

/// Where "step over" stops: after a subroutine call, the instruction that
/// follows it (PC + 2 while the call's operand is being read); `None` for
/// any other instruction, which is simply stepped.
pub fn step_over_target(ins: Instruction, pc: u16) -> (r: Option<u16>)
    ensures
        ins == Instruction::JSR ==> r == Some(pc.wrapping_add(2)),
        ins != Instruction::JSR ==> r is None,
{
    match ins {
        Instruction::JSR => Some(pc.wrapping_add(2)),
        _ => None,
    }
}

/// Call depth for "step out" after the instruction `ins` completes: a
/// call enters one level, a return leaves one. The step ends when it goes
/// below zero.
pub fn depth_after(depth: i32, ins: Instruction) -> (r: i32)
    requires
        i32::MIN < depth < i32::MAX,
    ensures
        ins == Instruction::JSR ==> r == depth + 1,
        ins == Instruction::RTS ==> r == depth - 1,
        ins != Instruction::JSR && ins != Instruction::RTS ==> r == depth,
{
    match ins {
        Instruction::JSR => depth + 1,
        Instruction::RTS => depth - 1,
        _ => depth,
    }
}

/// The controller button a key stands for: w/s/a/d for the pad, j and k
/// for A and B, l for Select and ';' for Start.
pub fn button_for_key(c: char) -> (r: Option<Button>)
    ensures
        c == 'w' ==> r == Some(Button::Up),
        c == 's' ==> r == Some(Button::Down),
        c == 'a' ==> r == Some(Button::Left),
        c == 'd' ==> r == Some(Button::Right),
        c == 'j' ==> r == Some(Button::A),
        c == 'k' ==> r == Some(Button::B),
        c == 'l' ==> r == Some(Button::Select),
        c == ';' ==> r == Some(Button::Start),
        !(c == 'w' || c == 's' || c == 'a' || c == 'd' || c == 'j' || c == 'k' || c == 'l' || c
            == ';') ==> r is None,
{
    match c {
        'w' => Some(Button::Up),
        's' => Some(Button::Down),
        'a' => Some(Button::Left),
        'd' => Some(Button::Right),
        'j' => Some(Button::A),
        'k' => Some(Button::B),
        'l' => Some(Button::Select),
        ';' => Some(Button::Start),
        _ => None,
    }
}

/// A breakpoint was reached while `skip` more are to be passed: whether
/// to stop, and how many are left to pass.
pub fn on_breakpoint(skip: u32) -> (r: (bool, u32))
    ensures
        skip == 0 ==> r == (true, 0u32),
        skip > 0 ==> r == (false, (skip - 1) as u32),
{
    if skip == 0 {
        (true, 0)
    } else {
        (false, skip - 1)
    }
}

} // verus!
