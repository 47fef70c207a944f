//! What holds of the processor whatever bus it runs on.

use vstd::prelude::*;

use super::model::{
    absolute_index_mode, advance_cycle, bit_value, branch, branch_target, cycle, high_byte,
    indexed_operand, low_byte, pull_first, pull_next, push, read, read_pc_byte, signed,
    stack_address, word, CpuState, Machine,
};
use super::{Bus6502, Flags, PinState};

verus! {

/// Whether two processor states differ at most in what a bus cycle touches:
/// the pins, the sampled interrupts and the edge latches. Registers, flags,
/// program counter and the instruction in progress are the same.
pub open spec fn same_registers(before: CpuState, after: CpuState) -> bool {
    after == (CpuState {
        pins: after.pins,
        pending: after.pending,
        meta: after.meta,
        ..before
    }) && after.meta.jammed == before.meta.jammed
}

/// A bus cycle, however long the bus holds the processor, changes neither a
/// register nor a flag nor the program counter.
pub proof fn lemma_cycle_keeps_registers<B: Bus6502>(m: Machine<B::V>, poll: bool)
    ensures
        same_registers(m.cpu, advance_cycle::<B>(m, poll).cpu),
    decreases B::stall(m.bus),
{
    reveal(advance_cycle);
    let sampled = (if poll {
        m.cpu.poll_interrupts()
    } else {
        m.cpu
    }).update_meta_latches();
    let replied = B::reply(m.bus, sampled.pins);
    let next = B::next(m.bus, sampled.pins);
    if replied.read && replied.not_ready && B::stall(next) < B::stall(m.bus) {
        let held = Machine::<B::V> {
            cpu: sampled.with_pins(PinState { halt: true, ..replied }),
            bus: next,
        };
        lemma_cycle_keeps_registers::<B>(held, poll);
    }
}

/// The unsigned and the signed reading of the flags after an addition: N
/// is bit 7 of the result and Z tells whether it is zero; C is set exactly
/// when the sum of accumulator, operand and carry does not fit in eight
/// bits; V is set exactly when the sum of the two signed bytes and the
/// carry does not fit in a signed byte. The result is the sum modulo 256.
pub proof fn lemma_adc_flags(cpu: CpuState, val: u8)
    ensures
        cpu.adc(val).a as int == (cpu.a + val + bit_value(cpu.flags.carry)) % 256,
        cpu.adc(val).flags.negative <==> cpu.adc(val).a >= 128,
        cpu.adc(val).flags.zero <==> cpu.adc(val).a == 0,
        cpu.adc(val).flags.carry <==> cpu.a + val + bit_value(cpu.flags.carry) > 255,
        cpu.adc(val).flags.overflow <==> !(-128 <= signed(cpu.a) + signed(val) + bit_value(
            cpu.flags.carry,
        ) <= 127),
        cpu.adc(val).flags.overflow <==> signed(cpu.adc(val).a) != signed(cpu.a) + signed(val)
            + bit_value(cpu.flags.carry),
{
    reveal(CpuState::adc);
}

/// The flags after a subtraction: N and Z describe the result; C is set
/// exactly when no borrow was needed; V is set exactly when the signed
/// difference does not fit in a signed byte.
pub proof fn lemma_sbc_flags(cpu: CpuState, val: u8)
    ensures
        cpu.sbc(val).a as int == (cpu.a - val - bit_value(!cpu.flags.carry)) % 256,
        cpu.sbc(val).flags.negative <==> cpu.sbc(val).a >= 128,
        cpu.sbc(val).flags.zero <==> cpu.sbc(val).a == 0,
        cpu.sbc(val).flags.carry <==> cpu.a - val - bit_value(!cpu.flags.carry) >= 0,
        cpu.sbc(val).flags.overflow <==> !(-128 <= signed(cpu.a) - signed(val) - bit_value(
            !cpu.flags.carry,
        ) <= 127),
        cpu.sbc(val).flags.overflow <==> signed(cpu.sbc(val).a) != signed(cpu.a) - signed(val)
            - bit_value(!cpu.flags.carry),
{
    reveal(CpuState::sbc);
}

/// Subtracting an operand is adding its complement.
pub proof fn lemma_sbc_is_adc_of_complement(cpu: CpuState, val: u8)
    ensures
        cpu.sbc(val) == cpu.adc((255 - val) as u8),
{
    reveal(CpuState::adc);
    reveal(CpuState::sbc);
}

/// The overflow flag after an addition is bit 7 of
/// `!(a ^ b) & (a ^ result)`: both operands have a sign that the result
/// lacks.
pub proof fn lemma_adc_overflow_formula(cpu: CpuState, val: u8)
    ensures
        cpu.adc(val).flags.overflow <==> ((!(cpu.a ^ val) & (cpu.a ^ cpu.adc(val).a)) >> 7u8) == 1,
{
    reveal(CpuState::adc);
    let a = cpu.a;
    let r = cpu.adc(val).a;
    assert((((!(a ^ val) & (a ^ r)) >> 7u8) == 1) <==> ((a >= 128) == (val >= 128) && (r >= 128) != (
    a >= 128))) by (bit_vector);
}

/// N is bit 7 of the value that the flags were set from, Z tells whether
/// that value is zero, and no other flag moves.
pub proof fn lemma_common_flags(cpu: CpuState, value: u8)
    ensures
        cpu.common_flags(value).flags.negative <==> value & 0x80 != 0,
        cpu.common_flags(value).flags.zero <==> value == 0,
        cpu.common_flags(value) == cpu.with_flags(
            Flags {
                negative: cpu.common_flags(value).flags.negative,
                zero: cpu.common_flags(value).flags.zero,
                ..cpu.flags
            },
        ),
{
    assert((value & 0x80 != 0) <==> value >= 128) by (bit_vector);
}

/// Every operation that produces a value sets N and Z from that value: the
/// loads and transfers from the value moved, the logic operations from the
/// accumulator, the increments and decrements of a register from the
/// register, the compare from the difference, and the shifts and the
/// increments and decrements of memory from the byte written back.
pub proof fn lemma_result_flags(cpu: CpuState, val: u8)
    ensures
        cpu.lda(val).flags == cpu.flags.with_nz(val),
        cpu.ldx(val).flags == cpu.flags.with_nz(val),
        cpu.ldy(val).flags == cpu.flags.with_nz(val),
        cpu.lax(val).flags == cpu.flags.with_nz(val),
        cpu.tax().flags == cpu.flags.with_nz(cpu.a),
        cpu.tay().flags == cpu.flags.with_nz(cpu.a),
        cpu.tsx().flags == cpu.flags.with_nz(cpu.sp),
        cpu.txa().flags == cpu.flags.with_nz(cpu.x),
        cpu.tya().flags == cpu.flags.with_nz(cpu.y),
        cpu.and(val).flags == cpu.flags.with_nz(cpu.and(val).a),
        cpu.ora(val).flags == cpu.flags.with_nz(cpu.ora(val).a),
        cpu.eor(val).flags == cpu.flags.with_nz(cpu.eor(val).a),
        cpu.inx().flags == cpu.flags.with_nz(cpu.inx().x),
        cpu.iny().flags == cpu.flags.with_nz(cpu.iny().y),
        cpu.dex().flags == cpu.flags.with_nz(cpu.dex().x),
        cpu.dey().flags == cpu.flags.with_nz(cpu.dey().y),
        cpu.inc(val).0.flags == cpu.flags.with_nz(cpu.inc(val).1),
        cpu.dec(val).0.flags == cpu.flags.with_nz(cpu.dec(val).1),
        cpu.asl(val).0.flags.negative == (cpu.asl(val).1 >= 128),
        cpu.asl(val).0.flags.zero == (cpu.asl(val).1 == 0),
        cpu.lsr(val).0.flags.negative == (cpu.lsr(val).1 >= 128),
        cpu.lsr(val).0.flags.zero == (cpu.lsr(val).1 == 0),
        cpu.rol(val).0.flags.negative == (cpu.rol(val).1 >= 128),
        cpu.rol(val).0.flags.zero == (cpu.rol(val).1 == 0),
        cpu.ror(val).0.flags.negative == (cpu.ror(val).1 >= 128),
        cpu.ror(val).0.flags.zero == (cpu.ror(val).1 == 0),
        cpu.compare(cpu.a, val).flags.negative == ((cpu.a - val) % 256 >= 128),
        cpu.compare(cpu.a, val).flags.zero == (cpu.a == val),
        cpu.compare(cpu.a, val).flags.carry == (cpu.a >= val),
{
    reveal(CpuState::inx);
    reveal(CpuState::iny);
    reveal(CpuState::dex);
    reveal(CpuState::dey);
    reveal(CpuState::inc);
    reveal(CpuState::dec);
    reveal(CpuState::asl);
    reveal(CpuState::lsr);
    reveal(CpuState::rol);
    reveal(CpuState::ror);
    reveal(CpuState::compare);
}

/// The stack lives in page one: whatever the stack pointer, a push goes to
/// an address from `$0100` to `$01FF`, and the stack pointer after it is one
/// lower modulo 256.
pub proof fn lemma_stack_stays_in_page_one(cpu: CpuState, suppress: bool, data: u8)
    ensures
        0x100 <= cpu.config_push(suppress, data).pins.address <= 0x1FF,
        cpu.config_push(suppress, data).pins.address == stack_address(cpu.sp),
        cpu.config_push(suppress, data).sp as int == (cpu.sp - 1) % 256,
        cpu.config_push(suppress, data).pins.data == data,
        cpu.config_push(suppress, data).pins.read == suppress,
{
}

/// A push followed by a pull: the pull reads the very address that the push
/// wrote to, and the stack pointer is back where it was. On the way there is
/// one more read, of the slot below.
pub proof fn lemma_push_then_pull<B: Bus6502>(m: Machine<B::V>, data: u8)
    ensures
        ({
            let pushed = push::<B>(m, data);
            let dummy = read::<B>(pushed, stack_address(pushed.cpu.sp));
            &&& pushed == cycle::<B>(m.with_cpu(m.cpu.config_push(false, data)))
            &&& pushed.cpu.sp as int == (m.cpu.sp - 1) % 256
            &&& pull_first::<B>(pushed) == read::<B>(
                dummy.with_cpu(CpuState { sp: m.cpu.sp, ..dummy.cpu }),
                stack_address(m.cpu.sp),
            )
            &&& pull_first::<B>(pushed).cpu.sp == m.cpu.sp
        }),
{
    reveal(pull_first);
    reveal(pull_next);
    let pushed = push::<B>(m, data);
    lemma_cycle_keeps_registers::<B>(m.with_cpu(m.cpu.config_push(false, data)), true);
    let dummy = read::<B>(pushed, stack_address(pushed.cpu.sp));
    lemma_cycle_keeps_registers::<B>(
        pushed.with_cpu(pushed.cpu.config_read(stack_address(pushed.cpu.sp))),
        true,
    );
    let pulled = dummy.with_cpu(CpuState { sp: m.cpu.sp, ..dummy.cpu });
    lemma_cycle_keeps_registers::<B>(
        pulled.with_cpu(pulled.cpu.config_read(stack_address(m.cpu.sp))),
        true,
    );
}

/// The bus cycles of a branch. Not taken, it issues none. Taken within the
/// page, it issues one read at the program counter. Taken across a page
/// boundary, it issues a second read, at the address that has the low byte
/// of the target and still the high byte of the old page. In both taken
/// cases the program counter ends at the target.
pub proof fn lemma_branch_cycles<B: Bus6502>(m: Machine<B::V>, val: u8)
    ensures
        branch::<B>(m, false, val) == m,
        ({
            let target = branch_target(m.cpu.pc, val);
            let dummy = read::<B>(m, m.cpu.pc);
            let wrong_page = word(low_byte(target), high_byte(m.cpu.pc));
            let moved = dummy.with_cpu(CpuState { pc: wrong_page, ..dummy.cpu });
            let crossed = read::<B>(moved, wrong_page);
            branch::<B>(m, true, val) == (if high_byte(target) == high_byte(m.cpu.pc) {
                dummy.with_cpu(CpuState { pc: target, ..dummy.cpu })
            } else {
                crossed.with_cpu(CpuState { pc: target, ..crossed.cpu })
            })
        }),
{
    reveal(branch);
    lemma_cycle_keeps_registers::<B>(m.with_cpu(m.cpu.config_read(m.cpu.pc)), true);
    let target = branch_target(m.cpu.pc, val);
    let wrong_page = word(low_byte(target), high_byte(m.cpu.pc));
    assert(wrong_page == target <==> high_byte(target) == high_byte(m.cpu.pc));
}

/// The bus cycles of absolute indexed addressing for an operation that only
/// reads. After the two operand bytes the processor reads at the address
/// whose low byte is already indexed and whose high byte is not yet
/// corrected. If the index did not carry, that was the operand. If it did,
/// that read is dropped and the operand is read one page higher.
pub proof fn lemma_indexed_page_cross<B: Bus6502>(m: Machine<B::V>, index: u8)
    requires
        m.cpu.op.spec_reads_operand(),
        !m.cpu.op.spec_is_rmw(),
    ensures
        ({
            let low = read_pc_byte::<B>(m);
            let high = read_pc_byte::<B>(low);
            let base_low = low.data();
            let base_high = high.data();
            let low_byte = ((base_low + index) % 256) as u8;
            let first = read::<B>(high, word(low_byte, base_high));
            let second = read::<B>(first, word(low_byte, ((base_high + 1) % 256) as u8));
            absolute_index_mode::<B>(m, index) == (if base_low + index > 255 {
                second.resolved(word(low_byte, ((base_high + 1) % 256) as u8), second.data())
            } else {
                first.resolved(word(low_byte, base_high), first.data())
            })
        }),
{
    reveal(absolute_index_mode);
    reveal(indexed_operand);
    let low = read_pc_byte::<B>(m);
    lemma_cycle_keeps_registers::<B>(m.with_cpu(m.cpu.config_read_pc_byte()), true);
    let high = read_pc_byte::<B>(low);
    lemma_cycle_keeps_registers::<B>(low.with_cpu(low.cpu.config_read_pc_byte()), true);
    let low_byte = ((low.data() + index) % 256) as u8;
    lemma_cycle_keeps_registers::<B>(
        high.with_cpu(high.cpu.config_read(word(low_byte, high.data()))),
        true,
    );
}

/// The processor as it goes into a bus cycle: the interrupt lines sampled
/// if the cycle polls them, and the edge latches brought up to date.
pub open spec fn sampled(cpu: CpuState, poll: bool) -> CpuState {
    (if poll {
        cpu.poll_interrupts()
    } else {
        cpu
    }).update_meta_latches()
}

/// The machine after one bus cycle that the bus answered with NOT_READY:
/// the processor keeps its pins as they are and raises HALT.
pub open spec fn hold_step<B: Bus6502>(m: Machine<B::V>, poll: bool) -> Machine<B::V> {
    let cpu = sampled(m.cpu, poll);
    Machine {
        cpu: cpu.with_pins(PinState { halt: true, ..B::reply(m.bus, cpu.pins) }),
        bus: B::next(m.bus, cpu.pins),
    }
}

/// The machine after the bus cycle that completes: HALT is low again.
pub open spec fn release_step<B: Bus6502>(m: Machine<B::V>, poll: bool) -> Machine<B::V> {
    let cpu = sampled(m.cpu, poll);
    Machine {
        cpu: cpu.with_pins(PinState { halt: false, ..B::reply(m.bus, cpu.pins) }),
        bus: B::next(m.bus, cpu.pins),
    }
}

/// The machine after `n` bus cycles that the bus answered with NOT_READY.
pub open spec fn holds<B: Bus6502>(m: Machine<B::V>, poll: bool, n: nat) -> Machine<B::V>
    decreases n,
{
    if n == 0 {
        m
    } else {
        hold_step::<B>(holds::<B>(m, poll, (n - 1) as nat), poll)
    }
}

/// Whether the bus holds the processor in the cycle that the machine is
/// about to make: it answers a read with NOT_READY, and its budget for
/// doing so shrinks.
pub open spec fn is_held<B: Bus6502>(m: Machine<B::V>, poll: bool) -> bool {
    let cpu = sampled(m.cpu, poll);
    let replied = B::reply(m.bus, cpu.pins);
    replied.read && replied.not_ready && B::stall(B::next(m.bus, cpu.pins)) < B::stall(m.bus)
}

/// Holding commutes with itself: `n` holds and one more are one hold and
/// `n` more.
pub proof fn lemma_holds_shift<B: Bus6502>(m: Machine<B::V>, poll: bool, n: nat)
    ensures
        holds::<B>(hold_step::<B>(m, poll), poll, n) == holds::<B>(m, poll, n + 1),
    decreases n,
{
    assert(holds::<B>(m, poll, 0) == m);
    if n > 0 {
        lemma_holds_shift::<B>(m, poll, (n - 1) as nat);
        assert(holds::<B>(m, poll, n + 1) == hold_step::<B>(holds::<B>(m, poll, n), poll));
    } else {
        assert(holds::<B>(m, poll, 1) == hold_step::<B>(holds::<B>(m, poll, 0), poll));
    }
}

/// A bus cycle of the processor is as long as the bus holds it: if the bus
/// answers the first `n` cycles with NOT_READY and the one after them not,
/// the processor makes exactly `n + 1` cycles, the first `n` of them
/// without effect on its registers, and goes on with what the last one
/// brought.
pub proof fn lemma_held_cycles<B: Bus6502>(m: Machine<B::V>, poll: bool, n: nat)
    requires
        forall|i: nat| i < n ==> is_held::<B>(#[trigger] holds::<B>(m, poll, i), poll),
        !is_held::<B>(holds::<B>(m, poll, n), poll),
    ensures
        advance_cycle::<B>(m, poll) == release_step::<B>(holds::<B>(m, poll, n), poll),
    decreases n,
{
    reveal(advance_cycle);
    if n == 0 {
        assert(holds::<B>(m, poll, 0) == m);
    } else {
        assert(holds::<B>(m, poll, 0) == m);
        assert(is_held::<B>(holds::<B>(m, poll, 0), poll));
        let held = hold_step::<B>(m, poll);
        assert forall|i: nat| i < n - 1 implies is_held::<B>(
            #[trigger] holds::<B>(held, poll, i),
            poll,
        ) by {
            lemma_holds_shift::<B>(m, poll, i);
            assert(is_held::<B>(holds::<B>(m, poll, i + 1), poll));
        }
        lemma_holds_shift::<B>(m, poll, (n - 1) as nat);
        lemma_held_cycles::<B>(held, poll, (n - 1) as nat);
    }
}

/// What the fetch stage serves, in the order of rank: a pending reset, then
/// a pending NMI, then a pending IRQ, and only then the next opcode. Serving
/// an NMI takes back its latch; serving a reset takes back everything.
pub proof fn lemma_interrupt_rank(cpu: CpuState)
    ensures
        cpu.pending.reset ==> cpu.next_break_mode() == super::BreakMode::Reset,
        !cpu.pending.reset && cpu.pending.nmi ==> cpu.next_break_mode() == super::BreakMode::Nmi
            && !cpu.acknowledged().nmi && cpu.acknowledged().irq == cpu.pending.irq,
        !cpu.pending.reset && !cpu.pending.nmi && cpu.pending.irq ==> cpu.next_break_mode()
            == super::BreakMode::Irq,
        !cpu.pending.reset && !cpu.pending.nmi && !cpu.pending.irq ==> cpu.next_break_mode()
            == super::BreakMode::Break,
        cpu.pending.reset ==> !cpu.acknowledged().reset && !cpu.acknowledged().nmi
            && !cpu.acknowledged().irq,
{
}

/// How the interrupt lines are sampled. NMI is taken on its rising edge and
/// kept until it is served; IRQ follows its level and counts only while I
/// is clear; reset is kept from the moment the line is seen high.
pub proof fn lemma_interrupt_sampling(cpu: CpuState)
    ensures
        cpu.poll_interrupts().pending.nmi == (cpu.pending.nmi || (cpu.pins.nmi
            && !cpu.meta.last_nmi)),
        cpu.poll_interrupts().pending.irq == (cpu.pins.irq && !cpu.flags.irq_disable),
        cpu.poll_interrupts().pending.reset == (cpu.pending.reset || cpu.pins.rst),
        sampled(cpu, true).meta.last_nmi == cpu.pins.nmi,
        cpu.pins.nmi && !sampled(cpu, true).pending.nmi ==> !sampled(
            sampled(cpu, true),
            true,
        ).pending.nmi,
{
}

} // verus!
