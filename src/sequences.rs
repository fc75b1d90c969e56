//! Properties of short instruction sequences, stated over the CPU's tick
//! relation `ticked` and proved from it.
use vstd::prelude::*;

use crate::alu::CARRY;
use crate::bus::Bus;
use crate::bus::{memory_kept, stored};
use crate::cpu::{
    branch_offset_step, branch_taken, branch_target, brk_handles, brk_step, flow_handles,
    flow_step, instruction_handles, interrupt_taken, misc_handles, misc_step, mode_step, opcode,
    read_handles, read_step, register_result, run_step, stack_addr, stack_finish_step,
    stack_handles, stack_transfer_step, store_handles, store_step, ticked, writes, AddressMode,
    CPUState, Instruction, W65C02S,
};

verus! {

/// `c` is about to fetch an opcode at PC, with no interrupt request to
/// take, and the `n` program bytes from PC on lie in plain memory.
pub open spec fn ready<B: Bus>(c: W65C02S<B>, n: int) -> bool {
    &&& c.state == CPUState::Run
    &&& c.tcu == 0
    &&& !interrupt_taken(c)
    &&& c.wf()
    &&& forall|i: int| 0 <= i < n ==> c.bus.is_memory(#[trigger] program_addr(c, i))
}

/// The address of program offset `i` from PC.
pub open spec fn program_addr<B: Bus>(c: W65C02S<B>, i: int) -> u16 {
    c.pc.wrapping_add(i as u16)
}

/// The byte at program offset `i` from PC.
pub open spec fn program_byte<B: Bus>(c: W65C02S<B>, i: int) -> u8 {
    c.bus.peek_spec(program_addr(c, i))
}

/// The first tick of an instruction fetches and decodes the opcode at PC.
pub proof fn lemma_fetch<B: Bus>(c0: W65C02S<B>, c1: W65C02S<B>)
    requires
        c0.state == CPUState::Run,
        c0.tcu == 0,
        !interrupt_taken(c0),
        ticked(c0, c1),
    ensures
        c1.ir == opcode(c0.bus.peek_spec(c0.pc)),
        c1.pc == c0.pc.wrapping_add(1),
        c1.tcu == if c1.ir.0 == Instruction::NOP(1, 1) { 0u8 } else { 1u8 },
        c1.state == CPUState::Run,
        c1.a == c0.a && c1.x == c0.x && c1.y == c0.y && c1.p == c0.p && c1.s == c0.s,
        c1.temp8 == c0.temp8 && c1.temp16 == c0.temp16 && c1.interrupt == c0.interrupt,
        memory_kept(c0.bus, c1.bus),
{
}

/// A single-tick register instruction completes with its result.
pub proof fn lemma_register_tick<B: Bus>(c0: W65C02S<B>, c1: W65C02S<B>)
    requires
        c0.state == CPUState::Run,
        c0.tcu == 1,
        register_result(c0) is Some,
        ticked(c0, c1),
    ensures
        ({
            let v = register_result(c0)->0;
            c1 == W65C02S { a: v.0, x: v.1, y: v.2, p: v.3, s: v.4, tcu: 0, ..c0 }
        }),
{
    reveal(run_step);
}

/// A tick that some step of the instruction itself handles, with its
/// effect; ticks that do not write keep plain memory.
pub proof fn lemma_run_tick<B: Bus>(c0: W65C02S<B>, c1: W65C02S<B>)
    requires
        c0.state == CPUState::Run,
        c0.tcu > 0,
        ticked(c0, c1),
    ensures
        !writes(c0) ==> memory_kept(c0.bus, c1.bus),
        read_handles(c0) ==> read_step(c0, c1),
        store_handles(c0) ==> store_step(c0, c1),
        c0.tcu == 1 && branch_taken(c0.ir.0, c0.p) is Some && c0.ir.1
            == AddressMode::ProgramCounterRelative ==> branch_offset_step(c0, c1),
        stack_handles(c0) && c0.tcu == 1 ==> stack_transfer_step(c0, c1),
        stack_handles(c0) && c0.tcu >= 2 ==> stack_finish_step(c0, c1),
        !instruction_handles(c0) ==> mode_step(c0, c1),
{
    reveal(run_step);
}

/// Each tick of a running instruction either moves TCU on by one or ends
/// the instruction by setting it to 0 (unless the CPU stops); a tick that
/// ends with TCU at 0 is followed by the fetch of the next instruction.
pub proof fn lemma_tcu_marks_completion<B: Bus>(c0: W65C02S<B>, c1: W65C02S<B>)
    requires
        c0.state == CPUState::Run,
        c0.tcu > 0,
        ticked(c0, c1),
    ensures
        c1.state == CPUState::Run ==> (c1.tcu == 0 || c1.tcu == c0.tcu + 1),
        c1.state == CPUState::Wait ==> c1.tcu == 0,
        c1.state == CPUState::Run || c1.state == CPUState::Wait || c1.state == CPUState::Halt,
{
    reveal(run_step);
}

/// SEC then CLC leaves Carry clear, each instruction taking two ticks.
pub proof fn lemma_sec_then_clc<B: Bus>(
    c0: W65C02S<B>,
    c1: W65C02S<B>,
    c2: W65C02S<B>,
    c3: W65C02S<B>,
    c4: W65C02S<B>,
)
    requires
        ready(c0, 2),
        program_byte(c0, 0) == 0x38,
        program_byte(c0, 1) == 0x18,
        ticked(c0, c1),
        ticked(c1, c2),
        ticked(c2, c3),
        ticked(c3, c4),
    ensures
        c2.p & CARRY == CARRY,
        c4.p & CARRY == 0,
        c4.tcu == 0,
        c4.pc == c0.pc.wrapping_add(2),
{
    assert(c0.bus.is_memory(program_addr(c0, 0)));
    assert(c0.pc.wrapping_add(0u16) == c0.pc);
    assert(c0.bus.is_memory(program_addr(c0, 1)));
    lemma_fetch(c0, c1);
    lemma_register_tick(c1, c2);
    assert(c2.pc == c0.pc.wrapping_add(1));
    assert(c1.bus.is_memory(c2.pc));
    lemma_irq_mask_kept(c1.p);
    lemma_fetch(c2, c3);
    assert(c2.bus.peek_spec(c2.pc) == 0x18);
    lemma_register_tick(c3, c4);
    lemma_pc_steps(c0.pc);
    lemma_carry_bits(c1.p);
    lemma_carry_bits(c3.p);
}

/// Clearing Carry twice is the same as clearing it once: CLC; CLC leaves
/// the status register as the first CLC left it.
pub proof fn lemma_clc_twice<B: Bus>(
    c0: W65C02S<B>,
    c1: W65C02S<B>,
    c2: W65C02S<B>,
    c3: W65C02S<B>,
    c4: W65C02S<B>,
)
    requires
        ready(c0, 2),
        program_byte(c0, 0) == 0x18,
        program_byte(c0, 1) == 0x18,
        ticked(c0, c1),
        ticked(c1, c2),
        ticked(c2, c3),
        ticked(c3, c4),
    ensures
        c4.p == c2.p,
        c2.p & CARRY == 0,
        c4.tcu == 0,
{
    assert(c0.bus.is_memory(program_addr(c0, 0)));
    assert(c0.bus.is_memory(program_addr(c0, 1)));
    lemma_pc_steps(c0.pc);
    lemma_fetch(c0, c1);
    lemma_register_tick(c1, c2);
    assert(c1.bus.is_memory(c2.pc));
    lemma_irq_mask_kept(c1.p);
    lemma_fetch(c2, c3);
    lemma_register_tick(c3, c4);
    lemma_carry_bits(c1.p);
    lemma_clear_twice(c1.p);
}

/// A conditional branch (or BRA) whose condition holds adds the signed
/// offset in its second byte to the address after the branch, in three
/// ticks; one whose condition fails goes on after the branch in two.
pub proof fn lemma_branch<B: Bus>(
    c0: W65C02S<B>,
    c1: W65C02S<B>,
    c2: W65C02S<B>,
    c3: W65C02S<B>,
)
    requires
        ready(c0, 2),
        opcode(program_byte(c0, 0)).1 == AddressMode::ProgramCounterRelative,
        branch_taken(opcode(program_byte(c0, 0)).0, c0.p) is Some,
        ticked(c0, c1),
        ticked(c1, c2),
        ticked(c2, c3),
    ensures
        branch_taken(opcode(program_byte(c0, 0)).0, c0.p) == Some(true) ==> c3.tcu == 0
            && c3.pc == branch_target(c0.pc.wrapping_add(2), program_byte(c0, 1)),
        branch_taken(opcode(program_byte(c0, 0)).0, c0.p) == Some(false) ==> c2.tcu == 0
            && c2.pc == c0.pc.wrapping_add(2),
{
    assert(c0.bus.is_memory(program_addr(c0, 0)));
    assert(c0.bus.is_memory(program_addr(c0, 1)));
    lemma_pc_steps(c0.pc);
    lemma_fetch(c0, c1);
    assert(c0.bus.is_memory(c1.pc));
    assert(c1.bus.is_memory(c1.pc));
    lemma_run_tick(c1, c2);
    if branch_taken(c1.ir.0, c1.p) == Some(true) {
        assert(!instruction_handles(c2));
        lemma_run_tick(c2, c3);
    }
}

/// Plain memory kept over two steps is kept over both.
pub proof fn lemma_kept_trans<B: Bus>(b0: B, b1: B, b2: B)
    requires
        memory_kept(b0, b1),
        memory_kept(b1, b2),
    ensures
        memory_kept(b0, b2),
{
    assert forall|a: u16| #[trigger] b2.is_memory(a) == b0.is_memory(a) && (b0.is_memory(a)
        ==> b2.peek_spec(a) == b0.peek_spec(a)) by {
        assert(b2.is_memory(a) == b1.is_memory(a));
        assert(b1.is_memory(a) == b0.is_memory(a));
    }
}

/// Loading an immediate, storing it to page zero, loading zero, then
/// loading from that page-zero address gives the immediate back:
/// `LDA #imm ; STA zp ; LDA #0 ; LDA zp`.
pub proof fn lemma_store_then_load<B: Bus>(c: Seq<W65C02S<B>>)
    requires
        c.len() == 11,
        forall|i: int| 0 <= i < 10 ==> ticked(#[trigger] c[i], c[i + 1]),
        ready(c[0], 8),
        program_byte(c[0], 0) == 0xA9,
        program_byte(c[0], 2) == 0x85,
        program_byte(c[0], 4) == 0xA9,
        program_byte(c[0], 5) == 0x00,
        program_byte(c[0], 6) == 0xA5,
        program_byte(c[0], 7) == program_byte(c[0], 3),
        c[0].bus.is_memory(program_byte(c[0], 3) as u16),
        forall|i: int|
            0 <= i < 8 ==> #[trigger] program_addr(c[0], i) != program_byte(c[0], 3) as u16,
    ensures
        c[10].a == program_byte(c[0], 1),
        c[10].tcu == 0,
        c[10].pc == c[0].pc.wrapping_add(8),
{
    let c0 = c[0];
    let zp = program_byte(c0, 3) as u16;
    let imm = program_byte(c0, 1);
    assert(ticked(c[0], c[1]));
    assert(ticked(c[1], c[2]));
    assert(ticked(c[2], c[3]));
    assert(ticked(c[3], c[4]));
    assert(ticked(c[4], c[5]));
    assert(ticked(c[5], c[6]));
    assert(ticked(c[6], c[7]));
    assert(ticked(c[7], c[8]));
    assert(ticked(c[8], c[9]));
    assert(ticked(c[9], c[10]));
    lemma_pc_steps(c0.pc);
    lemma_pc_more(c0.pc);
    let a0 = c0.pc;
    let a1 = program_addr(c0, 1);
    let a2 = program_addr(c0, 2);
    let a3 = program_addr(c0, 3);
    let a4 = program_addr(c0, 4);
    let a5 = program_addr(c0, 5);
    let a6 = program_addr(c0, 6);
    let a7 = program_addr(c0, 7);
    assert(program_addr(c0, 0) == a0);
    assert(c0.bus.is_memory(a0));
    assert(c0.bus.is_memory(a1));
    assert(c0.bus.is_memory(a2));
    assert(c0.bus.is_memory(a3));
    assert(c0.bus.is_memory(a4));
    assert(c0.bus.is_memory(a5));
    assert(c0.bus.is_memory(a6));
    assert(c0.bus.is_memory(a7));
    assert(a4 != zp && a5 != zp && a6 != zp && a7 != zp);
    // LDA #imm
    lemma_fetch(c[0], c[1]);
    assert(c[1].bus.is_memory(a1));
    lemma_run_tick(c[1], c[2]);
    lemma_kept_trans(c0.bus, c[1].bus, c[2].bus);
    assert(c[2].a == imm);
    lemma_nz_keeps_irq(c[1].p, imm);
    // STA zp
    assert(c[2].bus.is_memory(a2));
    lemma_fetch(c[2], c[3]);
    lemma_kept_trans(c0.bus, c[2].bus, c[3].bus);
    assert(c[3].bus.is_memory(a3));
    lemma_run_tick(c[3], c[4]);
    lemma_kept_trans(c0.bus, c[3].bus, c[4].bus);
    assert(c[4].temp16 == zp);
    assert(c[4].bus.is_memory(zp));
    lemma_run_tick(c[4], c[5]);
    assert(stored(c[4].bus, c[5].bus, zp, imm));
    assert(c[5].bus.peek_spec(zp) == imm);
    assert(c[4].bus.is_memory(a4));
    assert(c[4].bus.is_memory(a5));
    assert(c[4].bus.is_memory(a6));
    assert(c[4].bus.is_memory(a7));
    assert(c[5].bus.peek_spec(a4) == 0xA9 && c[5].bus.peek_spec(a5) == 0x00);
    assert(c[5].bus.peek_spec(a6) == 0xA5 && c[5].bus.peek_spec(a7) == program_byte(c0, 3));
    // LDA #0
    assert(c[5].bus.is_memory(a4));
    lemma_fetch(c[5], c[6]);
    assert(c[6].bus.is_memory(a5));
    assert(c[6].bus.is_memory(a6));
    assert(c[6].bus.is_memory(a7));
    assert(c[6].bus.is_memory(zp));
    lemma_run_tick(c[6], c[7]);
    lemma_kept_trans(c[5].bus, c[6].bus, c[7].bus);
    lemma_nz_keeps_irq(c[6].p, 0);
    // LDA zp
    assert(c[7].bus.is_memory(a6) && c[7].bus.is_memory(a7) && c[7].bus.is_memory(zp));
    lemma_fetch(c[7], c[8]);
    lemma_kept_trans(c[5].bus, c[7].bus, c[8].bus);
    assert(c[8].bus.is_memory(a7) && c[8].bus.is_memory(zp));
    lemma_run_tick(c[8], c[9]);
    lemma_kept_trans(c[5].bus, c[8].bus, c[9].bus);
    assert(c[9].bus.is_memory(zp));
    assert(c[9].temp16 == zp);
    lemma_run_tick(c[9], c[10]);
}

/// A push of A, X or Y followed by the matching pull (PHA/PLA, PHX/PLX,
/// PHY/PLY) leaves A, X, Y and S as they were.
pub proof fn lemma_push_then_pull<B: Bus>(c: Seq<W65C02S<B>>)
    requires
        c.len() == 8,
        forall|i: int| 0 <= i < 7 ==> ticked(#[trigger] c[i], c[i + 1]),
        ready(c[0], 2),
        (program_byte(c[0], 0) == 0x48 && program_byte(c[0], 1) == 0x68) || (program_byte(c[0], 0)
            == 0xDA && program_byte(c[0], 1) == 0xFA) || (program_byte(c[0], 0) == 0x5A
            && program_byte(c[0], 1) == 0x7A),
        c[0].bus.is_memory(stack_addr(c[0].s)),
        stack_addr(c[0].s) != program_addr(c[0], 1),
    ensures
        c[7].a == c[0].a,
        c[7].x == c[0].x,
        c[7].y == c[0].y,
        c[7].s == c[0].s,
        c[7].tcu == 0,
{
    let c0 = c[0];
    assert(ticked(c[0], c[1]));
    assert(ticked(c[1], c[2]));
    assert(ticked(c[2], c[3]));
    assert(ticked(c[3], c[4]));
    assert(ticked(c[4], c[5]));
    assert(ticked(c[5], c[6]));
    assert(ticked(c[6], c[7]));
    lemma_pc_steps(c0.pc);
    let a0 = program_addr(c0, 0);
    let a1 = program_addr(c0, 1);
    let slot = stack_addr(c0.s);
    assert(c0.bus.is_memory(a0) && c0.bus.is_memory(a1));
    lemma_fetch(c[0], c[1]);
    assert(c[1].bus.is_memory(a1) && c[1].bus.is_memory(slot));
    lemma_run_tick(c[1], c[2]);
    assert(c[2].bus.peek_spec(a1) == program_byte(c0, 1));
    assert(c[2].bus.is_memory(a1) && c[2].bus.is_memory(slot));
    lemma_run_tick(c[2], c[3]);
    assert(c[3].bus.is_memory(a1) && c[3].bus.is_memory(slot));
    lemma_fetch(c[3], c[4]);
    lemma_wrap_sub_add(c0.s);
    assert(c[4].bus.is_memory(slot));
    lemma_run_tick(c[4], c[5]);
    lemma_run_tick(c[5], c[6]);
    lemma_run_tick(c[6], c[7]);
}

/// A subroutine call pushes the address of its last byte (high byte
/// first) and jumps to its operand; the matching return pulls it and goes
/// on right after the call. `JSR target` at PC, `RTS` at `target`.
pub proof fn lemma_call_then_return<B: Bus>(c: Seq<W65C02S<B>>)
    requires
        c.len() == 13,
        forall|i: int| 0 <= i < 12 ==> ticked(#[trigger] c[i], c[i + 1]),
        ready(c[0], 3),
        program_byte(c[0], 0) == 0x20,
        ({
            let target = (program_byte(c[0], 1) as u16) | ((program_byte(c[0], 2) as u16) << 8);
            &&& c[0].bus.is_memory(target)
            &&& c[0].bus.peek_spec(target) == 0x60
            &&& target != stack_addr(c[0].s) && target != stack_addr(c[0].s.wrapping_sub(1))
        }),
        c[0].bus.is_memory(stack_addr(c[0].s)),
        c[0].bus.is_memory(stack_addr(c[0].s.wrapping_sub(1))),
        forall|i: int| 0 <= i < 3 ==> #[trigger] program_addr(c[0], i) != stack_addr(c[0].s)
            && program_addr(c[0], i) != stack_addr(c[0].s.wrapping_sub(1)),
    ensures
        c[6].pc == (program_byte(c[0], 1) as u16) | ((program_byte(c[0], 2) as u16) << 8),
        c[6].s == c[0].s.wrapping_sub(2),
        c[6].bus.peek_spec(stack_addr(c[0].s)) == (c[0].pc.wrapping_add(2) >> 8) as u8,
        c[6].bus.peek_spec(stack_addr(c[0].s.wrapping_sub(1))) == (c[0].pc.wrapping_add(2)
            & 0xff) as u8,
        c[12].pc == c[0].pc.wrapping_add(3),
        c[12].s == c[0].s,
        c[12].tcu == 0,
{
    let c0 = c[0];
    assert(ticked(c[0], c[1]));
    assert(ticked(c[1], c[2]));
    assert(ticked(c[2], c[3]));
    assert(ticked(c[3], c[4]));
    assert(ticked(c[4], c[5]));
    assert(ticked(c[5], c[6]));
    assert(ticked(c[6], c[7]));
    assert(ticked(c[7], c[8]));
    assert(ticked(c[8], c[9]));
    assert(ticked(c[9], c[10]));
    assert(ticked(c[10], c[11]));
    assert(ticked(c[11], c[12]));
    lemma_pc_steps(c0.pc);
    let a0 = program_addr(c0, 0);
    let a1 = program_addr(c0, 1);
    let a2 = program_addr(c0, 2);
    let hi_slot = stack_addr(c0.s);
    let lo_slot = stack_addr(c0.s.wrapping_sub(1));
    let target = (program_byte(c0, 1) as u16) | ((program_byte(c0, 2) as u16) << 8);
    assert(c0.bus.is_memory(a0) && c0.bus.is_memory(a1) && c0.bus.is_memory(a2));
    assert(a1 != hi_slot && a1 != lo_slot && a2 != hi_slot && a2 != lo_slot);
    lemma_fetch(c[0], c[1]);
    assert(c[1].bus.is_memory(a1) && c[1].bus.is_memory(a2) && c[1].bus.is_memory(target));
    assert(c[1].bus.is_memory(hi_slot) && c[1].bus.is_memory(lo_slot));
    lemma_flow_tick(c[1], c[2]);
    assert(c[2].bus.is_memory(a2) && c[2].bus.is_memory(target));
    assert(c[2].bus.is_memory(hi_slot) && c[2].bus.is_memory(lo_slot));
    lemma_flow_tick(c[2], c[3]);
    assert(c[3].bus.is_memory(a2) && c[3].bus.is_memory(target));
    assert(c[3].bus.is_memory(hi_slot) && c[3].bus.is_memory(lo_slot));
    lemma_flow_tick(c[3], c[4]);
    assert(c[4].bus.is_memory(a2) && c[4].bus.is_memory(target) && c[4].bus.is_memory(lo_slot));
    assert(c[4].s == c0.s.wrapping_sub(1));
    lemma_flow_tick(c[4], c[5]);
    assert(c[5].bus.is_memory(a2) && c[5].bus.is_memory(target) && c[5].bus.is_memory(hi_slot));
    assert(c[5].pc == a2);
    lemma_flow_tick(c[5], c[6]);
    lemma_wrap_twice(c0.s);
    assert(c[6].pc == target);
    // RTS
    assert(c[6].bus.is_memory(target));
    assert(c[6].bus.is_memory(hi_slot));
    assert(c[6].bus.is_memory(lo_slot));
    lemma_fetch(c[6], c[7]);
    assert(c[7].bus.is_memory(hi_slot) && c[7].bus.is_memory(lo_slot));
    lemma_flow_tick(c[7], c[8]);
    assert(c[8].bus.is_memory(hi_slot) && c[8].bus.is_memory(lo_slot));
    lemma_flow_tick(c[8], c[9]);
    assert(c[9].bus.is_memory(hi_slot) && c[9].bus.is_memory(lo_slot));
    lemma_flow_tick(c[9], c[10]);
    assert(c[10].bus.is_memory(hi_slot));
    lemma_flow_tick(c[10], c[11]);
    lemma_flow_tick(c[11], c[12]);
    lemma_bytes_join(c0.pc.wrapping_add(2));
}

/// A break followed by a return from interrupt restores PC (to the byte
/// after the break's signature byte) and S, and P as it was pushed: with
/// Break and User set. `BRK` at PC, the vector at 0xFFFE points to `RTI`.
pub proof fn lemma_break_then_return<B: Bus>(c: Seq<W65C02S<B>>)
    requires
        c.len() == 14,
        forall|i: int| 0 <= i < 13 ==> ticked(#[trigger] c[i], c[i + 1]),
        ready(c[0], 2),
        program_byte(c[0], 0) == 0x00,
        c[0].bus.is_memory(0xFFFE) && c[0].bus.is_memory(0xFFFF),
        ({
            let handler = (c[0].bus.peek_spec(0xFFFE) as u16) | ((c[0].bus.peek_spec(0xFFFF) as u16)
                << 8);
            &&& c[0].bus.is_memory(handler)
            &&& c[0].bus.peek_spec(handler) == 0x40
            &&& handler != stack_addr(c[0].s) && handler != stack_addr(c[0].s.wrapping_sub(1))
                && handler != stack_addr(c[0].s.wrapping_sub(2))
        }),
        c[0].bus.is_memory(stack_addr(c[0].s)),
        c[0].bus.is_memory(stack_addr(c[0].s.wrapping_sub(1))),
        c[0].bus.is_memory(stack_addr(c[0].s.wrapping_sub(2))),
    ensures
        c[13].pc == c[0].pc.wrapping_add(2),
        c[13].s == c[0].s,
        c[13].p == c[0].p | 0x30,
        c[13].tcu == 0,
{
    let c0 = c[0];
    assert(ticked(c[0], c[1]));
    assert(ticked(c[1], c[2]));
    assert(ticked(c[2], c[3]));
    assert(ticked(c[3], c[4]));
    assert(ticked(c[4], c[5]));
    assert(ticked(c[5], c[6]));
    assert(ticked(c[6], c[7]));
    assert(ticked(c[7], c[8]));
    assert(ticked(c[8], c[9]));
    assert(ticked(c[9], c[10]));
    assert(ticked(c[10], c[11]));
    assert(ticked(c[11], c[12]));
    assert(ticked(c[12], c[13]));
    lemma_pc_steps(c0.pc);
    lemma_wrap_twice(c0.s);
    lemma_wrap_three(c0.s);
    let a0 = program_addr(c0, 0);
    let a1 = program_addr(c0, 1);
    let s0 = stack_addr(c0.s);
    let s1 = stack_addr(c0.s.wrapping_sub(1));
    let s2 = stack_addr(c0.s.wrapping_sub(2));
    let handler = (c0.bus.peek_spec(0xFFFE) as u16) | ((c0.bus.peek_spec(0xFFFF) as u16) << 8);
    assert(c0.bus.is_memory(a0) && c0.bus.is_memory(a1));
    lemma_fetch(c[0], c[1]);
    assert(c[1].bus.is_memory(s0) && c[1].bus.is_memory(s1) && c[1].bus.is_memory(s2));
    assert(c[1].bus.is_memory(0xFFFE) && c[1].bus.is_memory(0xFFFF) && c[1].bus.is_memory(handler));
    lemma_brk_tick(c[1], c[2]);
    assert(c[2].bus.is_memory(s0) && c[2].bus.is_memory(s1) && c[2].bus.is_memory(s2));
    assert(c[2].bus.is_memory(0xFFFE) && c[2].bus.is_memory(0xFFFF) && c[2].bus.is_memory(handler));
    lemma_brk_tick(c[2], c[3]);
    assert(c[3].bus.is_memory(s1) && c[3].bus.is_memory(s2));
    assert(c[3].bus.is_memory(0xFFFE) && c[3].bus.is_memory(0xFFFF) && c[3].bus.is_memory(handler));
    lemma_brk_tick(c[3], c[4]);
    assert(c[4].bus.is_memory(s0) && c[4].bus.is_memory(s2));
    assert(c[4].bus.is_memory(0xFFFE) && c[4].bus.is_memory(0xFFFF) && c[4].bus.is_memory(handler));
    lemma_brk_tick(c[4], c[5]);
    assert(c[5].bus.is_memory(s0) && c[5].bus.is_memory(s1) && c[5].bus.is_memory(s2));
    assert(c[5].bus.is_memory(0xFFFE) && c[5].bus.is_memory(0xFFFF) && c[5].bus.is_memory(handler));
    lemma_brk_tick(c[5], c[6]);
    assert(c[6].bus.is_memory(s0) && c[6].bus.is_memory(s1) && c[6].bus.is_memory(s2));
    assert(c[6].bus.is_memory(0xFFFF) && c[6].bus.is_memory(handler));
    lemma_brk_tick(c[6], c[7]);
    assert(c[7].pc == handler);
    lemma_interrupts_masked(c[5].p);
    // RTI
    assert(c[7].bus.is_memory(s0));
    assert(c[7].bus.is_memory(s1));
    assert(c[7].bus.is_memory(s2));
    assert(c[7].bus.is_memory(handler));
    lemma_fetch(c[7], c[8]);
    assert(c[8].bus.is_memory(s0) && c[8].bus.is_memory(s1) && c[8].bus.is_memory(s2));
    lemma_flow_tick(c[8], c[9]);
    assert(c[9].bus.is_memory(s0) && c[9].bus.is_memory(s1));
    lemma_flow_tick(c[9], c[10]);
    assert(c[10].bus.is_memory(s0) && c[10].bus.is_memory(s1));
    lemma_flow_tick(c[10], c[11]);
    assert(c[11].bus.is_memory(s0));
    lemma_flow_tick(c[11], c[12]);
    assert(c[12].bus.is_memory(s0));
    lemma_flow_tick(c[12], c[13]);
    lemma_bytes_join(c0.pc.wrapping_add(2));
    lemma_break_bits(c0.p);
}

/// Every no-operation opcode has a length of one to three bytes and no
/// more cycles than 8, and never fewer cycles than bytes.
pub proof fn lemma_nop_shapes(op: u8)
    ensures
        (opcode(op).0 matches Instruction::NOP(b, cy) ==> 1 <= b <= cy <= 8 && b <= 3
            && opcode(op).1 == AddressMode::Implied),
{
}

/// A no-operation opcode advances PC by its declared length and completes
/// after exactly its declared number of ticks.
pub proof fn lemma_nop<B: Bus>(c: Seq<W65C02S<B>>, b: u8, cy: u8)
    requires
        opcode(program_byte(c[0], 0)) == (Instruction::NOP(b, cy), AddressMode::Implied),
        c.len() == cy + 1,
        forall|i: int| 0 <= i < cy ==> ticked(#[trigger] c[i], c[i + 1]),
        ready(c[0], b as int),
    ensures
        c[cy as int].tcu == 0,
        c[cy as int].pc == program_addr(c[0], b as int),
        forall|i: int| 0 < i < cy ==> (#[trigger] c[i]).tcu != 0,
{
    lemma_nop_shapes(program_byte(c[0], 0));
    assert(ticked(c[0], c[1]));
    assert(c[0].bus.is_memory(program_addr(c[0], 0)));
    assert(program_addr(c[0], 0) == c[0].pc);
    lemma_fetch(c[0], c[1]);
    if cy == 1 {
        assert(c[1].pc == program_addr(c[0], 1));
    } else {
        assert forall|i: int| 0 < i < cy implies (#[trigger] c[i]).tcu != 0 by {
            lemma_nop_prefix(c, b, cy, i);
        }
        lemma_nop_prefix(c, b, cy, cy - 1);
        let k = cy - 1;
        assert(ticked(c[k as int], c[cy as int]));
        lemma_misc_tick(c[k as int], c[cy as int]);
        lemma_offset_step(c[0].pc, k as int);
        lemma_offset_step(c[0].pc, (b - 1) as int);
    }
}

proof fn lemma_nop_prefix<B: Bus>(c: Seq<W65C02S<B>>, b: u8, cy: u8, k: int)
    requires
        opcode(program_byte(c[0], 0)) == (Instruction::NOP(b, cy), AddressMode::Implied),
        1 <= b <= cy <= 8,
        c.len() == cy + 1,
        forall|i: int| 0 <= i < cy ==> ticked(#[trigger] c[i], c[i + 1]),
        ready(c[0], b as int),
        1 <= k < cy,
    ensures
        c[k].state == CPUState::Run,
        c[k].ir == (Instruction::NOP(b, cy), AddressMode::Implied),
        c[k].tcu == k,
        c[k].pc == program_addr(c[0], if k < b { k } else { b as int }),
    decreases k,
{
    assert(ticked(c[0], c[1]));
    assert(c[0].bus.is_memory(program_addr(c[0], 0)));
    assert(program_addr(c[0], 0) == c[0].pc);
    lemma_fetch(c[0], c[1]);
    if k == 1 {
        assert(c[1].pc == program_addr(c[0], 1));
    } else {
        lemma_nop_prefix(c, b, cy, k - 1);
        assert(ticked(c[k - 1], c[k]));
        lemma_misc_tick(c[k - 1], c[k]);
        lemma_offset_step(c[0].pc, k - 1);
    }
}

/// A tick of STP, WAI or a no-operation opcode.
pub proof fn lemma_misc_tick<B: Bus>(c0: W65C02S<B>, c1: W65C02S<B>)
    requires
        c0.state == CPUState::Run,
        c0.tcu > 0,
        misc_handles(c0),
        ticked(c0, c1),
    ensures
        misc_step(c0, c1),
        memory_kept(c0.bus, c1.bus),
{
    reveal(run_step);
}

proof fn lemma_offset_step(pc: u16, m: int)
    requires
        0 <= m < 8,
    ensures
        pc.wrapping_add(m as u16).wrapping_add(1) == pc.wrapping_add((m + 1) as u16),
{
}

/// A tick of the break sequence.
pub proof fn lemma_brk_tick<B: Bus>(c0: W65C02S<B>, c1: W65C02S<B>)
    requires
        c0.state == CPUState::Run,
        c0.tcu > 0,
        brk_handles(c0),
        ticked(c0, c1),
    ensures
        brk_step(c0, c1),
        !writes(c0) ==> memory_kept(c0.bus, c1.bus),
{
    reveal(run_step);
}

proof fn lemma_wrap_three(s: u8)
    ensures
        s.wrapping_sub(2).wrapping_sub(1) == s.wrapping_sub(3),
        s.wrapping_sub(3).wrapping_add(1) == s.wrapping_sub(2),
{
}

proof fn lemma_interrupts_masked(p: u8)
    ensures
        ((p | 4u8) & !8u8) & 4u8 != 0,
{
    assert(((p | 4u8) & !8u8) & 4u8 != 0) by (bit_vector);
}

proof fn lemma_break_bits(p: u8)
    ensures
        (p | 0x10u8) | 0x10u8 | 0x20u8 == p | 0x30u8,
{
    assert((p | 0x10u8) | 0x10u8 | 0x20u8 == p | 0x30u8) by (bit_vector);
}

/// A tick of a jump, call or return.
pub proof fn lemma_flow_tick<B: Bus>(c0: W65C02S<B>, c1: W65C02S<B>)
    requires
        c0.state == CPUState::Run,
        c0.tcu > 0,
        flow_handles(c0),
        ticked(c0, c1),
    ensures
        flow_step(c0, c1),
        !writes(c0) ==> memory_kept(c0.bus, c1.bus),
{
    reveal(run_step);
}

proof fn lemma_wrap_twice(s: u8)
    ensures
        s.wrapping_sub(1).wrapping_sub(1) == s.wrapping_sub(2),
        s.wrapping_sub(2).wrapping_add(1) == s.wrapping_sub(1),
        s.wrapping_sub(1).wrapping_add(1) == s,
{
}

proof fn lemma_bytes_join(v: u16)
    ensures
        (((v & 0xff) as u8) as u16) | ((((v >> 8) as u8) as u16) << 8) == v,
{
    assert((((v & 0xff) as u8) as u16) | ((((v >> 8) as u8) as u16) << 8) == v) by (bit_vector);
}

proof fn lemma_wrap_sub_add(s: u8)
    ensures
        s.wrapping_sub(1).wrapping_add(1) == s,
{
}

proof fn lemma_pc_more(pc: u16)
    ensures
        pc.wrapping_add(3).wrapping_add(1) == pc.wrapping_add(4),
        pc.wrapping_add(4).wrapping_add(1) == pc.wrapping_add(5),
        pc.wrapping_add(5).wrapping_add(1) == pc.wrapping_add(6),
        pc.wrapping_add(6).wrapping_add(1) == pc.wrapping_add(7),
        pc.wrapping_add(7).wrapping_add(1) == pc.wrapping_add(8),
{
}

proof fn lemma_nz_keeps_irq(p: u8, v: u8)
    ensures
        crate::alu::with_nz(p, v) & 4u8 == p & 4u8,
{
    let z = if v == 0 { p | 2u8 } else { p & !2u8 };
    assert((p | 2u8) & 4u8 == p & 4u8) by (bit_vector);
    assert((p & !2u8) & 4u8 == p & 4u8) by (bit_vector);
    assert((z | 0x80u8) & 4u8 == z & 4u8) by (bit_vector);
    assert((z & !0x80u8) & 4u8 == z & 4u8) by (bit_vector);
}

proof fn lemma_pc_steps(pc: u16)
    ensures
        pc.wrapping_add(1).wrapping_add(1) == pc.wrapping_add(2),
        pc.wrapping_add(2).wrapping_add(1) == pc.wrapping_add(3),
        pc.wrapping_add(3).wrapping_add(1) == pc.wrapping_add(4),
        pc.wrapping_add(1).wrapping_add(2) == pc.wrapping_add(3),
        pc.wrapping_add(2).wrapping_add(2) == pc.wrapping_add(4),
        pc.wrapping_add(4).wrapping_add(2) == pc.wrapping_add(6),
        pc.wrapping_add(6).wrapping_add(2) == pc.wrapping_add(8),
        pc.wrapping_add(0) == pc,
{
}

proof fn lemma_irq_mask_kept(p: u8)
    ensures
        (p | 1u8) & 4u8 == p & 4u8,
        (p & !1u8) & 4u8 == p & 4u8,
{
    assert((p | 1u8) & 4u8 == p & 4u8) by (bit_vector);
    assert((p & !1u8) & 4u8 == p & 4u8) by (bit_vector);
}

proof fn lemma_clear_twice(p: u8)
    ensures
        p & !1u8 & !1u8 == p & !1u8,
{
    assert(p & !1u8 & !1u8 == p & !1u8) by (bit_vector);
}

proof fn lemma_carry_bits(p: u8)
    ensures
        (p | 1u8) & 1u8 == 1u8,
        (p & !1u8) & 1u8 == 0,
{
    assert((p | 1u8) & 1u8 == 1u8) by (bit_vector);
    assert((p & !1u8) & 1u8 == 0) by (bit_vector);
}

} // verus!
