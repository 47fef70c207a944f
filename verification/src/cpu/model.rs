//! What the processor does, stated on plain records: the effect of every
//! operation on the registers and flags, and the bus cycles that fetching,
//! addressing and executing an instruction issue.

use vstd::prelude::*;

use super::instruction::{mode_of, op_of, AddrMode, Op};
use super::{BreakMode, Bus6502, Flags, MetaState, Pending, PinState};

verus! {

/// The complete state of the processor between two bus cycles.
pub struct CpuState {
    pub pins: PinState,
    pub meta: MetaState,
    pub a: u8,
    pub x: u8,
    pub y: u8,
    pub sp: u8,
    pub pc: u16,
    pub flags: Flags,
    pub pending: Pending,
    pub break_mode: BreakMode,
    pub op: Op,
    pub addr_mode: AddrMode,
}

/// The value of a byte read as a two's-complement number.
pub open spec fn signed(byte: u8) -> int {
    if byte >= 128 {
        byte as int - 256
    } else {
        byte as int
    }
}

/// The sixteen-bit word with the given low and high byte.
pub open spec fn word(low: u8, high: u8) -> u16 {
    (low as int + 256 * high as int) as u16
}

/// The low byte of a word.
pub open spec fn low_byte(word: u16) -> u8 {
    (word % 256) as u8
}

/// The high byte of a word.
pub open spec fn high_byte(word: u16) -> u8 {
    (word / 256) as u8
}

/// The address of the stack slot that `sp` points at: always within page one.
pub open spec fn stack_address(sp: u8) -> u16 {
    (0x100 + sp as int) as u16
}

/// One as a number if the condition holds, zero otherwise.
pub open spec fn bit_value(condition: bool) -> int {
    if condition {
        1
    } else {
        0
    }
}

impl Flags {
    /// The flags after a result `value` was produced: N is its bit 7, Z tells
    /// whether it is zero.
    pub open spec fn with_nz(self, value: u8) -> Flags {
        Flags { zero: value == 0, negative: value >= 128, ..self }
    }
}

impl CpuState {
    /// The state with other flags.
    pub open spec fn with_flags(self, flags: Flags) -> CpuState {
        CpuState { flags, ..self }
    }

    /// The state with other pin levels.
    pub open spec fn with_pins(self, pins: PinState) -> CpuState {
        CpuState { pins, ..self }
    }

    /// The state after N and Z were set from `value`.
    pub open spec fn common_flags(self, value: u8) -> CpuState {
        self.with_flags(self.flags.with_nz(value))
    }

    /// Add with carry. The sum of accumulator, operand and carry is taken
    /// modulo 256; C reports the unsigned overflow, V the signed one.
    #[verifier::opaque]
    pub open spec fn adc(self, val: u8) -> CpuState {
        let sum = self.a as int + val as int + bit_value(self.flags.carry);
        let signed_sum = signed(self.a) + signed(val) + bit_value(self.flags.carry);
        let result = (sum % 256) as u8;
        CpuState {
            a: result,
            flags: Flags {
                carry: sum > 255,
                overflow: signed_sum > 127 || signed_sum < -128,
                ..self.flags.with_nz(result)
            },
            ..self
        }
    }

    /// Subtract with borrow, the borrow being the inverted carry. C is set
    /// when no borrow was needed, V reports the signed overflow.
    #[verifier::opaque]
    pub open spec fn sbc(self, val: u8) -> CpuState {
        let difference = self.a as int - val as int - bit_value(!self.flags.carry);
        let signed_difference = signed(self.a) - signed(val) - bit_value(!self.flags.carry);
        let result = (difference % 256) as u8;
        CpuState {
            a: result,
            flags: Flags {
                carry: difference >= 0,
                overflow: signed_difference > 127 || signed_difference < -128,
                ..self.flags.with_nz(result)
            },
            ..self
        }
    }

    /// A register compared with an operand: C tells whether the register is
    /// at least the operand, N and Z describe the difference.
    #[verifier::opaque]
    pub open spec fn compare(self, register: u8, val: u8) -> CpuState {
        let result = ((register as int - val as int) % 256) as u8;
        self.with_flags(Flags { carry: register >= val, ..self.flags.with_nz(result) })
    }

    /// AND the operand into the accumulator.
    pub open spec fn and(self, val: u8) -> CpuState {
        CpuState { a: self.a & val, ..self }.common_flags(self.a & val)
    }

    /// OR the operand into the accumulator.
    pub open spec fn ora(self, val: u8) -> CpuState {
        CpuState { a: self.a | val, ..self }.common_flags(self.a | val)
    }

    /// XOR the operand into the accumulator.
    pub open spec fn eor(self, val: u8) -> CpuState {
        CpuState { a: self.a ^ val, ..self }.common_flags(self.a ^ val)
    }

    /// N and V are copied from bits 7 and 6 of the operand; Z tells whether
    /// accumulator and operand share no bit.
    #[verifier::opaque]
    pub open spec fn bit(self, val: u8) -> CpuState {
        self.with_flags(
            Flags {
                negative: val >= 128,
                overflow: (val / 64) % 2 == 1,
                zero: self.a & val == 0,
                ..self.flags
            },
        )
    }

    /// Load the accumulator.
    pub open spec fn lda(self, val: u8) -> CpuState {
        CpuState { a: val, ..self }.common_flags(val)
    }

    /// Load X.
    pub open spec fn ldx(self, val: u8) -> CpuState {
        CpuState { x: val, ..self }.common_flags(val)
    }

    /// Load Y.
    pub open spec fn ldy(self, val: u8) -> CpuState {
        CpuState { y: val, ..self }.common_flags(val)
    }

    /// Load the accumulator and X with the same byte.
    pub open spec fn lax(self, val: u8) -> CpuState {
        CpuState { a: val, x: val, ..self }.common_flags(val)
    }

    /// Copy the accumulator to X.
    pub open spec fn tax(self) -> CpuState {
        self.ldx(self.a)
    }

    /// Copy the accumulator to Y.
    pub open spec fn tay(self) -> CpuState {
        self.ldy(self.a)
    }

    /// Copy the stack pointer to X.
    pub open spec fn tsx(self) -> CpuState {
        self.ldx(self.sp)
    }

    /// Copy X to the accumulator.
    pub open spec fn txa(self) -> CpuState {
        self.lda(self.x)
    }

    /// Copy Y to the accumulator.
    pub open spec fn tya(self) -> CpuState {
        self.lda(self.y)
    }

    /// Copy X to the stack pointer; the flags stay.
    pub open spec fn txs(self) -> CpuState {
        CpuState { sp: self.x, ..self }
    }

    /// X one higher, modulo 256.
    #[verifier::opaque]
    pub open spec fn inx(self) -> CpuState {
        self.ldx(((self.x + 1) % 256) as u8)
    }

    /// Y one higher, modulo 256.
    #[verifier::opaque]
    pub open spec fn iny(self) -> CpuState {
        self.ldy(((self.y + 1) % 256) as u8)
    }

    /// X one lower, modulo 256.
    #[verifier::opaque]
    pub open spec fn dex(self) -> CpuState {
        self.ldx(((self.x - 1) % 256) as u8)
    }

    /// Y one lower, modulo 256.
    #[verifier::opaque]
    pub open spec fn dey(self) -> CpuState {
        self.ldy(((self.y - 1) % 256) as u8)
    }

    /// The operand one higher, modulo 256, and the flags it leaves.
    #[verifier::opaque]
    pub open spec fn inc(self, val: u8) -> (CpuState, u8) {
        let result = ((val + 1) % 256) as u8;
        (self.common_flags(result), result)
    }

    /// The operand one lower, modulo 256, and the flags it leaves.
    #[verifier::opaque]
    pub open spec fn dec(self, val: u8) -> (CpuState, u8) {
        let result = ((val - 1) % 256) as u8;
        (self.common_flags(result), result)
    }

    /// Shift left: bit 7 leaves into C, a zero enters at bit 0.
    #[verifier::opaque]
    pub open spec fn asl(self, val: u8) -> (CpuState, u8) {
        let result = ((val % 128) * 2) as u8;
        (self.with_flags(Flags { carry: val >= 128, ..self.flags.with_nz(result) }), result)
    }

    /// Shift right: bit 0 leaves into C, a zero enters at bit 7.
    #[verifier::opaque]
    pub open spec fn lsr(self, val: u8) -> (CpuState, u8) {
        let result = (val / 2) as u8;
        (self.with_flags(Flags { carry: val % 2 == 1, ..self.flags.with_nz(result) }), result)
    }

    /// Rotate left through C.
    #[verifier::opaque]
    pub open spec fn rol(self, val: u8) -> (CpuState, u8) {
        let result = ((val % 128) * 2 + bit_value(self.flags.carry)) as u8;
        (self.with_flags(Flags { carry: val >= 128, ..self.flags.with_nz(result) }), result)
    }

    /// Rotate right through C.
    #[verifier::opaque]
    pub open spec fn ror(self, val: u8) -> (CpuState, u8) {
        let result = (val / 2 + 128 * bit_value(self.flags.carry)) as u8;
        (self.with_flags(Flags { carry: val % 2 == 1, ..self.flags.with_nz(result) }), result)
    }

    /// Decrement the operand, then compare the accumulator with it.
    #[verifier::opaque]
    pub open spec fn dcp(self, val: u8) -> (CpuState, u8) {
        let result = ((val - 1) % 256) as u8;
        (self.compare(self.a, result), result)
    }

    /// Increment the operand, then subtract it from the accumulator.
    #[verifier::opaque]
    pub open spec fn isc(self, val: u8) -> (CpuState, u8) {
        let result = ((val + 1) % 256) as u8;
        (self.sbc(result), result)
    }

    /// Rotate the operand left, then AND it into the accumulator.
    #[verifier::opaque]
    pub open spec fn rla(self, val: u8) -> (CpuState, u8) {
        let result = ((val % 128) * 2 + bit_value(self.flags.carry)) as u8;
        (self.with_flags(Flags { carry: val >= 128, ..self.flags }).and(result), result)
    }

    /// Rotate the operand right, then add it to the accumulator.
    #[verifier::opaque]
    pub open spec fn rra(self, val: u8) -> (CpuState, u8) {
        let result = (val / 2 + 128 * bit_value(self.flags.carry)) as u8;
        (self.with_flags(Flags { carry: val % 2 == 1, ..self.flags }).adc(result), result)
    }

    /// Shift the operand left, then OR it into the accumulator.
    #[verifier::opaque]
    pub open spec fn slo(self, val: u8) -> (CpuState, u8) {
        let result = ((val % 128) * 2) as u8;
        (self.with_flags(Flags { carry: val >= 128, ..self.flags }).ora(result), result)
    }

    /// Shift the operand right, then XOR it into the accumulator.
    #[verifier::opaque]
    pub open spec fn sre(self, val: u8) -> (CpuState, u8) {
        let result = (val / 2) as u8;
        (self.with_flags(Flags { carry: val % 2 == 1, ..self.flags }).eor(result), result)
    }

    /// AND the operand into the accumulator, then shift it right.
    #[verifier::opaque]
    pub open spec fn alr(self, val: u8) -> CpuState {
        let masked = self.a & val;
        let result = (masked / 2) as u8;
        CpuState {
            a: result,
            flags: Flags { carry: masked % 2 == 1, ..self.flags.with_nz(result) },
            ..self
        }
    }

    /// AND the operand into the accumulator and copy N into C.
    #[verifier::opaque]
    pub open spec fn anc(self, val: u8) -> CpuState {
        let result = self.a & val;
        CpuState {
            a: result,
            flags: Flags { carry: result >= 128, ..self.flags.with_nz(result) },
            ..self
        }
    }

    /// AND the operand into the accumulator, then rotate it right; C and V
    /// come from bits 6 and 5 of the result.
    #[verifier::opaque]
    pub open spec fn arr(self, val: u8) -> CpuState {
        let masked = self.a & val;
        let result = (masked / 2 + 128 * bit_value(self.flags.carry)) as u8;
        let bit6 = (result / 64) % 2 == 1;
        let bit5 = (result / 32) % 2 == 1;
        CpuState {
            a: result,
            flags: Flags { carry: bit6, overflow: bit6 != bit5, ..self.flags.with_nz(result) },
            ..self
        }
    }

    /// The stable part of the ANE operation: X AND operand into the
    /// accumulator.
    pub open spec fn ane(self, val: u8) -> CpuState {
        self.lda(self.x & val)
    }

    /// The stable part of the LXA operation: the operand into accumulator
    /// and X.
    pub open spec fn lxa(self, val: u8) -> CpuState {
        self.lax(val)
    }

    /// Operand AND stack pointer into accumulator, X and stack pointer.
    #[verifier::opaque]
    pub open spec fn las(self, val: u8) -> CpuState {
        let result = val & self.sp;
        CpuState { a: result, x: result, sp: result, ..self }.common_flags(result)
    }

    /// Accumulator AND X, minus the operand, into X; C as after a compare.
    #[verifier::opaque]
    pub open spec fn sbx(self, val: u8) -> CpuState {
        let masked = self.a & self.x;
        let result = ((masked as int - val as int) % 256) as u8;
        CpuState {
            x: result,
            flags: Flags { carry: masked >= val, ..self.flags.with_nz(result) },
            ..self
        }
    }

    /// The byte that the unstable stores write: `register` AND the high byte
    /// of the target address plus one.
    #[verifier::opaque]
    pub open spec fn high_masked(register: u8, addr: u16) -> u8 {
        register & (((addr / 256 + 1) % 256) as u8)
    }

    /// The interrupt, if any, that the next instruction boundary serves:
    /// reset before NMI before IRQ.
    pub open spec fn next_break_mode(self) -> BreakMode {
        if self.pending.reset {
            BreakMode::Reset
        } else if self.pending.nmi {
            BreakMode::Nmi
        } else if self.pending.irq {
            BreakMode::Irq
        } else {
            BreakMode::Break
        }
    }

    /// The pending interrupts once the boundary has chosen: a reset clears
    /// all of them, an NMI its own latch, an IRQ nothing.
    pub open spec fn acknowledged(self) -> Pending {
        if self.pending.reset {
            Pending { irq: false, nmi: false, reset: false }
        } else if self.pending.nmi {
            Pending { nmi: false, ..self.pending }
        } else {
            self.pending
        }
    }

    /// The interrupt lines sampled: IRQ follows its level unless I masks it,
    /// NMI latches on a rising edge, reset latches while high.
    pub open spec fn poll_interrupts(self) -> CpuState {
        CpuState {
            pending: Pending {
                irq: self.pins.irq && !self.flags.irq_disable,
                nmi: self.pending.nmi || (self.pins.nmi && !self.meta.last_nmi),
                reset: self.pending.reset || self.pins.rst,
            },
            ..self
        }
    }

    /// The levels of NMI and reset remembered for the next edge detection.
    pub open spec fn update_meta_latches(self) -> CpuState {
        CpuState {
            meta: MetaState { last_nmi: self.pins.nmi, last_rst: self.pins.rst, ..self.meta },
            ..self
        }
    }

    /// The pins set up for a read of `address`.
    pub open spec fn config_read(self, address: u16) -> CpuState {
        self.with_pins(PinState { address, read: true, ..self.pins })
    }

    /// The pins set up for a write of `data` to `address`.
    pub open spec fn config_write(self, address: u16, data: u8) -> CpuState {
        self.with_pins(PinState { address, data, read: false, ..self.pins })
    }

    /// The pins set up for a push of `data`, and the stack pointer one lower.
    /// A suppressed push goes out as a read.
    pub open spec fn config_push(self, suppress: bool, data: u8) -> CpuState {
        CpuState {
            pins: PinState { address: stack_address(self.sp), data, read: suppress, ..self.pins },
            sp: ((self.sp - 1) % 256) as u8,
            ..self
        }
    }

    /// The pins set up for a read at the program counter, which moves on.
    pub open spec fn config_read_pc_byte(self) -> CpuState {
        CpuState { pc: ((self.pc + 1) % 0x10000) as u16, ..self.config_read(self.pc) }
    }
}

/// A processor together with the bus it drives.
pub struct Machine<V> {
    pub cpu: CpuState,
    pub bus: V,
}

/// A machine after the addressing stage, with the operand's address and
/// value.
pub struct Resolved<V> {
    pub cpu: CpuState,
    pub bus: V,
    pub addr: u16,
    pub val: u8,
}

impl<V> Machine<V> {
    /// The machine with another processor state.
    pub open spec fn with_cpu(self, cpu: CpuState) -> Machine<V> {
        Machine { cpu, bus: self.bus }
    }

    /// The machine together with an operand.
    pub open spec fn resolved(self, addr: u16, val: u8) -> Resolved<V> {
        Resolved { cpu: self.cpu, bus: self.bus, addr, val }
    }

    /// The byte that the last bus cycle left on the data pins.
    pub open spec fn data(self) -> u8 {
        self.cpu.pins.data
    }
}

impl<V> Resolved<V> {
    /// The machine without the operand.
    pub open spec fn machine(self) -> Machine<V> {
        Machine { cpu: self.cpu, bus: self.bus }
    }
}

/// One bus cycle with the pins as they stand, repeated with HALT high for as
/// long as the bus answers a read with NOT_READY. A write is never held up.
/// With `poll` the interrupt lines are sampled before each repetition.
#[verifier::opaque]
pub open spec fn advance_cycle<B: Bus6502>(m: Machine<B::V>, poll: bool) -> Machine<B::V>
    decreases B::stall(m.bus),
{
    let sampled = (if poll {
        m.cpu.poll_interrupts()
    } else {
        m.cpu
    }).update_meta_latches();
    let replied = B::reply(m.bus, sampled.pins);
    let next = B::next(m.bus, sampled.pins);
    if replied.read && replied.not_ready && B::stall(next) < B::stall(m.bus) {
        advance_cycle::<B>(
            Machine { cpu: sampled.with_pins(PinState { halt: true, ..replied }), bus: next },
            poll,
        )
    } else {
        Machine { cpu: sampled.with_pins(PinState { halt: false, ..replied }), bus: next }
    }
}

/// One completed bus cycle with interrupt sampling.
pub open spec fn cycle<B: Bus6502>(m: Machine<B::V>) -> Machine<B::V> {
    advance_cycle::<B>(m, true)
}

/// A read of `address`; the byte is on the data pins afterwards.
pub open spec fn read<B: Bus6502>(m: Machine<B::V>, address: u16) -> Machine<B::V> {
    cycle::<B>(m.with_cpu(m.cpu.config_read(address)))
}

/// A write of `val` to `addr`.
pub open spec fn write<B: Bus6502>(m: Machine<B::V>, addr: u16, val: u8) -> Machine<B::V> {
    cycle::<B>(m.with_cpu(m.cpu.config_write(addr, val)))
}

/// A read at the program counter, which moves on by one.
pub open spec fn read_pc_byte<B: Bus6502>(m: Machine<B::V>) -> Machine<B::V> {
    cycle::<B>(m.with_cpu(m.cpu.config_read_pc_byte()))
}

/// A push of `data`; with `suppress` the cycle goes out as a read and memory
/// keeps its content.
pub open spec fn push_in_brk<B: Bus6502>(m: Machine<B::V>, suppress: bool, data: u8) -> Machine<
    B::V,
> {
    cycle::<B>(m.with_cpu(m.cpu.config_push(suppress, data)))
}

/// A push of `data`.
pub open spec fn push<B: Bus6502>(m: Machine<B::V>, data: u8) -> Machine<B::V> {
    push_in_brk::<B>(m, false, data)
}

/// A dummy read of the current stack slot, then the stack pointer one higher
/// and a read of the slot it now points at: one pull.
#[verifier::opaque]
pub open spec fn pull_first<B: Bus6502>(m: Machine<B::V>) -> Machine<B::V> {
    let dummy = read::<B>(m, stack_address(m.cpu.sp));
    pull_next::<B>(dummy)
}

/// The stack pointer one higher and a read of the slot it now points at.
#[verifier::opaque]
pub open spec fn pull_next<B: Bus6502>(m: Machine<B::V>) -> Machine<B::V> {
    let sp = ((m.cpu.sp + 1) % 256) as u8;
    read::<B>(m.with_cpu(CpuState { sp, ..m.cpu }), stack_address(sp))
}

/// The tail that the non-indexed memory modes share: a read of the operand
/// if the operation takes one, and the write-back of the unmodified byte if
/// the operation is a read-modify-write.
#[verifier::opaque]
pub open spec fn operand<B: Bus6502>(m: Machine<B::V>, addr: u16) -> Resolved<B::V> {
    let fetched = if m.cpu.op.spec_reads_operand() {
        read::<B>(m, addr)
    } else {
        m
    };
    let val = if m.cpu.op.spec_reads_operand() {
        fetched.data()
    } else {
        0
    };
    let settled = if fetched.cpu.op.spec_is_rmw() {
        write::<B>(fetched, addr, val)
    } else {
        fetched
    };
    settled.resolved(addr, val)
}

/// The tail that the indexed modes share. `m` is the machine after the read
/// at the address whose high byte was not yet corrected, `wrong_value` what
/// that read returned, `carry` whether the index crossed a page. A
/// read-modify-write reads again and writes back; a plain read repeats the
/// read only after a page crossing; a store takes the address as it is.
#[verifier::opaque]
pub open spec fn indexed_operand<B: Bus6502>(
    m: Machine<B::V>,
    addr: u16,
    carry: bool,
    wrong_value: u8,
) -> Resolved<B::V> {
    if m.cpu.op.spec_is_rmw() {
        let fetched = read::<B>(m, addr);
        write::<B>(fetched, addr, fetched.data()).resolved(addr, fetched.data())
    } else if m.cpu.op.spec_reads_operand() && carry {
        let fetched = read::<B>(m, addr);
        fetched.resolved(addr, fetched.data())
    } else {
        m.resolved(addr, wrong_value)
    }
}

/// Implied: no operand; the byte after the opcode is read and dropped.
#[verifier::opaque]
pub open spec fn implied_mode<B: Bus6502>(m: Machine<B::V>) -> Resolved<B::V> {
    read::<B>(m, m.cpu.pc).resolved(0, 0)
}

/// Accumulator: the operand is the accumulator; the byte after the opcode is
/// read and dropped.
#[verifier::opaque]
pub open spec fn accumulator_mode<B: Bus6502>(m: Machine<B::V>) -> Resolved<B::V> {
    let dummy = read::<B>(m, m.cpu.pc);
    dummy.resolved(0, dummy.cpu.a)
}

/// Immediate and relative: the operand is the byte after the opcode.
#[verifier::opaque]
pub open spec fn immediate_mode<B: Bus6502>(m: Machine<B::V>) -> Resolved<B::V> {
    let fetched = read_pc_byte::<B>(m);
    fetched.resolved(0, fetched.data())
}

/// Zero page: the byte after the opcode is the operand's address.
#[verifier::opaque]
pub open spec fn zero_mode<B: Bus6502>(m: Machine<B::V>) -> Resolved<B::V> {
    let fetched = read_pc_byte::<B>(m);
    operand::<B>(fetched, fetched.data() as u16)
}

/// Zero page indexed: the unindexed address is read and dropped, the index
/// wraps within page zero.
#[verifier::opaque]
pub open spec fn zero_index_mode<B: Bus6502>(m: Machine<B::V>, index: u8) -> Resolved<B::V> {
    let fetched = read_pc_byte::<B>(m);
    let base = fetched.data();
    let dummy = read::<B>(fetched, base as u16);
    operand::<B>(dummy, ((base + index) % 256) as u16)
}

/// Absolute: the two bytes after the opcode are the operand's address, low
/// byte first.
#[verifier::opaque]
pub open spec fn absolute_mode<B: Bus6502>(m: Machine<B::V>) -> Resolved<B::V> {
    let low = read_pc_byte::<B>(m);
    let high = read_pc_byte::<B>(low);
    operand::<B>(high, word(low.data(), high.data()))
}

/// Absolute indexed: the first access goes to the address formed from the
/// wrapped low byte and the uncorrected high byte.
#[verifier::opaque]
pub open spec fn absolute_index_mode<B: Bus6502>(m: Machine<B::V>, index: u8) -> Resolved<B::V> {
    let low = read_pc_byte::<B>(m);
    let high = read_pc_byte::<B>(low);
    let carry = low.data() + index > 255;
    let low_byte = ((low.data() + index) % 256) as u8;
    let fixed_high = ((high.data() + bit_value(carry)) % 256) as u8;
    let wrong = read::<B>(high, word(low_byte, high.data()));
    indexed_operand::<B>(wrong, word(low_byte, fixed_high), carry, wrong.data())
}

/// Indirect, for JMP: the pointer's high byte is taken from the same page
/// even when the pointer sits at a page's last byte.
#[verifier::opaque]
pub open spec fn indirect_mode<B: Bus6502>(m: Machine<B::V>) -> Resolved<B::V> {
    let low = read_pc_byte::<B>(m);
    let high = read_pc_byte::<B>(low);
    let target_low = read::<B>(high, word(low.data(), high.data()));
    let target_high = read::<B>(
        target_low,
        word(((low.data() + 1) % 256) as u8, high.data()),
    );
    target_high.resolved(word(target_low.data(), target_high.data()), 0)
}

/// Indexed indirect: the byte after the opcode, plus X within page zero,
/// points at the operand's address. The unindexed byte is read and dropped.
#[verifier::opaque]
pub open spec fn xindirect_mode<B: Bus6502>(m: Machine<B::V>) -> Resolved<B::V> {
    let offset = read_pc_byte::<B>(m);
    let dummy = read::<B>(offset, offset.data() as u16);
    let pointer = ((offset.data() + dummy.cpu.x) % 256) as u8;
    let low = read::<B>(dummy, pointer as u16);
    let high = read::<B>(low, ((pointer + 1) % 256) as u16);
    operand::<B>(high, word(low.data(), high.data()))
}

/// Indirect indexed: the byte after the opcode points at an address in page
/// zero, to which Y is added. The first access goes to the address whose high
/// byte is not yet corrected.
#[verifier::opaque]
pub open spec fn indirect_y_mode<B: Bus6502>(m: Machine<B::V>) -> Resolved<B::V> {
    let pointer = read_pc_byte::<B>(m);
    let low = read::<B>(pointer, pointer.data() as u16);
    let high = read::<B>(low, ((pointer.data() + 1) % 256) as u16);
    let carry = low.data() + high.cpu.y > 255;
    let low_byte = ((low.data() + high.cpu.y) % 256) as u8;
    let fixed_high = ((high.data() + bit_value(carry)) % 256) as u8;
    let wrong = read::<B>(high, word(low_byte, high.data()));
    indexed_operand::<B>(wrong, word(low_byte, fixed_high), carry, wrong.data())
}

/// The addressing stage of the instruction that was fetched.
#[verifier::opaque]
pub open spec fn eval_addr_mode<B: Bus6502>(m: Machine<B::V>) -> Resolved<B::V> {
    match m.cpu.addr_mode {
        AddrMode::Implied => implied_mode::<B>(m),
        AddrMode::Accumulator => accumulator_mode::<B>(m),
        AddrMode::Immediate => immediate_mode::<B>(m),
        AddrMode::Relative => immediate_mode::<B>(m),
        AddrMode::Zero => zero_mode::<B>(m),
        AddrMode::ZeroX => zero_index_mode::<B>(m, m.cpu.x),
        AddrMode::ZeroY => zero_index_mode::<B>(m, m.cpu.y),
        AddrMode::Absolute => absolute_mode::<B>(m),
        AddrMode::AbsoluteX => absolute_index_mode::<B>(m, m.cpu.x),
        AddrMode::AbsoluteY => absolute_index_mode::<B>(m, m.cpu.y),
        AddrMode::Indirect => indirect_mode::<B>(m),
        AddrMode::XIndirect => xindirect_mode::<B>(m),
        AddrMode::IndirectY => indirect_y_mode::<B>(m),
    }
}

/// Where the result of a read-modify-write goes: into the accumulator in
/// accumulator mode, to memory otherwise.
pub open spec fn write_rmw_result<B: Bus6502>(m: Machine<B::V>, addr: u16, val: u8) -> Machine<
    B::V,
> {
    if m.cpu.addr_mode == AddrMode::Accumulator {
        m.with_cpu(CpuState { a: val, ..m.cpu })
    } else {
        write::<B>(m, addr, val)
    }
}

/// A read-modify-write whose effect on the registers and whose result are
/// given as a pair.
pub open spec fn modify<B: Bus6502>(m: Machine<B::V>, addr: u16, effect: (CpuState, u8)) -> Machine<
    B::V,
> {
    write_rmw_result::<B>(m.with_cpu(effect.0), addr, effect.1)
}

/// The address a branch lands on: the program counter plus the displacement
/// read as a signed byte, modulo 65536.
pub open spec fn branch_target(pc: u16, displacement: u8) -> u16 {
    ((pc + signed(displacement)) % 0x10000) as u16
}

/// A branch. Not taken, it issues no cycle. Taken, it reads at the program
/// counter and adds the displacement to the low byte; if the target lies in
/// another page it reads once more, at the address with the old high byte,
/// before the high byte is corrected.
#[verifier::opaque]
pub open spec fn branch<B: Bus6502>(m: Machine<B::V>, taken: bool, val: u8) -> Machine<B::V> {
    if !taken {
        m
    } else {
        let dummy = read::<B>(m, m.cpu.pc);
        let target = branch_target(dummy.cpu.pc, val);
        let same_page = word(low_byte(target), high_byte(dummy.cpu.pc));
        let moved = dummy.with_cpu(CpuState { pc: same_page, ..dummy.cpu });
        if same_page == target {
            moved
        } else {
            let crossed = read::<B>(moved, same_page);
            crossed.with_cpu(CpuState { pc: target, ..crossed.cpu })
        }
    }
}

/// The interrupt sequence, shared by BRK, IRQ, NMI and reset: three pushes
/// (program counter high, low, status), I set, and the program counter
/// loaded from the vector. Only BRK skips a byte and pushes B set; reset
/// pushes with reads.
#[verifier::opaque]
pub open spec fn brk<B: Bus6502>(m: Machine<B::V>) -> Machine<B::V> {
    let mode = m.cpu.break_mode;
    let pc = if mode.spec_increment_pc() {
        ((m.cpu.pc + 1) % 0x10000) as u16
    } else {
        m.cpu.pc
    };
    let suppress = mode.spec_suppress_writes();
    let start = m.with_cpu(CpuState { pc, ..m.cpu });
    let first = push_in_brk::<B>(start, suppress, high_byte(pc));
    let second = push_in_brk::<B>(first, suppress, low_byte(first.cpu.pc));
    let third = push_in_brk::<B>(
        second,
        suppress,
        second.cpu.flags.pushed(second.cpu.break_mode.spec_set_brk_flag()) as u8,
    );
    let masked = third.with_cpu(
        third.cpu.with_flags(Flags { irq_disable: true, ..third.cpu.flags }),
    );
    let vector = masked.cpu.break_mode.spec_vector();
    let low = read::<B>(masked, vector);
    let high = read::<B>(low, (vector + 1) as u16);
    high.with_cpu(CpuState { pc: word(low.data(), high.data()), ..high.cpu })
}

/// Jump to subroutine: a dummy read of the stack, then the address of the
/// instruction's last byte pushed high byte first.
#[verifier::opaque]
pub open spec fn jsr<B: Bus6502>(m: Machine<B::V>, addr: u16) -> Machine<B::V> {
    let dummy = read::<B>(m, stack_address(m.cpu.sp));
    let back = ((dummy.cpu.pc - 1) % 0x10000) as u16;
    let first = push::<B>(dummy, high_byte(back));
    let second = push::<B>(first, low_byte(back));
    second.with_cpu(CpuState { pc: addr, ..second.cpu })
}

/// Push the accumulator.
#[verifier::opaque]
pub open spec fn pha<B: Bus6502>(m: Machine<B::V>) -> Machine<B::V> {
    push::<B>(m, m.cpu.a)
}

/// Push the status with B set.
#[verifier::opaque]
pub open spec fn php<B: Bus6502>(m: Machine<B::V>) -> Machine<B::V> {
    push::<B>(m, m.cpu.flags.pushed(true) as u8)
}

/// Pull the accumulator; N and Z follow it.
#[verifier::opaque]
pub open spec fn pla<B: Bus6502>(m: Machine<B::V>) -> Machine<B::V> {
    let pulled = pull_first::<B>(m);
    pulled.with_cpu(pulled.cpu.lda(pulled.data()))
}

/// Pull the status; bits 4 and 5 of the byte are dropped.
#[verifier::opaque]
pub open spec fn plp<B: Bus6502>(m: Machine<B::V>) -> Machine<B::V> {
    let pulled = pull_first::<B>(m);
    pulled.with_cpu(pulled.cpu.with_flags(Flags::pulled(pulled.data())))
}

/// Return from interrupt: status, then program counter low and high.
#[verifier::opaque]
pub open spec fn rti<B: Bus6502>(m: Machine<B::V>) -> Machine<B::V> {
    let status = pull_first::<B>(m);
    let flagged = status.with_cpu(status.cpu.with_flags(Flags::pulled(status.data())));
    let low = pull_next::<B>(flagged);
    let high = pull_next::<B>(low);
    high.with_cpu(CpuState { pc: word(low.data(), high.data()), ..high.cpu })
}

/// Return from subroutine: program counter low and high, a read at the
/// pulled address, and the program counter one further.
#[verifier::opaque]
pub open spec fn rts<B: Bus6502>(m: Machine<B::V>) -> Machine<B::V> {
    let low = pull_first::<B>(m);
    let high = pull_next::<B>(low);
    let back = word(low.data(), high.data());
    let dummy = read::<B>(high.with_cpu(CpuState { pc: back, ..high.cpu }), back);
    dummy.with_cpu(CpuState { pc: ((dummy.cpu.pc + 1) % 0x10000) as u16, ..dummy.cpu })
}

/// Store accumulator AND X into the stack pointer, then the stack pointer
/// masked with the address's high byte plus one to memory.
#[verifier::opaque]
pub open spec fn tas<B: Bus6502>(m: Machine<B::V>, addr: u16) -> Machine<B::V> {
    let sp = m.cpu.a & m.cpu.x;
    write::<B>(m.with_cpu(CpuState { sp, ..m.cpu }), addr, CpuState::high_masked(sp, addr))
}

/// The processor jams: it stops fetching and keeps the bus reading at the
/// program counter.
pub open spec fn jam(cpu: CpuState) -> CpuState {
    CpuState { meta: MetaState { jammed: true, ..cpu.meta }, ..cpu }.config_read(cpu.pc)
}

/// The operations that combine a register with the operand.
#[verifier::opaque]
pub open spec fn alu_op<B: Bus6502>(m: Machine<B::V>, addr: u16, val: u8) -> Machine<B::V> {
    let cpu = m.cpu;
    let flags = cpu.flags;
    match cpu.op {
        Op::ADC => m.with_cpu(cpu.adc(val)),
        Op::AND => m.with_cpu(cpu.and(val)),
        Op::BIT => m.with_cpu(cpu.bit(val)),
        Op::CMP => m.with_cpu(cpu.compare(cpu.a, val)),
        Op::CPX => m.with_cpu(cpu.compare(cpu.x, val)),
        Op::CPY => m.with_cpu(cpu.compare(cpu.y, val)),
        Op::EOR => m.with_cpu(cpu.eor(val)),
        Op::ORA => m.with_cpu(cpu.ora(val)),
        Op::SBC => m.with_cpu(cpu.sbc(val)),
        Op::LDA => m.with_cpu(cpu.lda(val)),
        Op::LDX => m.with_cpu(cpu.ldx(val)),
        Op::LDY => m.with_cpu(cpu.ldy(val)),
        _ => m,
    }
}

/// The conditional branches, each taken on one flag's level.
#[verifier::opaque]
pub open spec fn branch_op<B: Bus6502>(m: Machine<B::V>, addr: u16, val: u8) -> Machine<B::V> {
    let cpu = m.cpu;
    let flags = cpu.flags;
    match cpu.op {
        Op::BCC => branch::<B>(m, !flags.carry, val),
        Op::BCS => branch::<B>(m, flags.carry, val),
        Op::BEQ => branch::<B>(m, flags.zero, val),
        Op::BMI => branch::<B>(m, flags.negative, val),
        Op::BNE => branch::<B>(m, !flags.zero, val),
        Op::BPL => branch::<B>(m, !flags.negative, val),
        Op::BVC => branch::<B>(m, !flags.overflow, val),
        Op::BVS => branch::<B>(m, flags.overflow, val),
        _ => m,
    }
}

/// The operations that set or clear one flag, and NOP.
#[verifier::opaque]
pub open spec fn flag_op<B: Bus6502>(m: Machine<B::V>, addr: u16, val: u8) -> Machine<B::V> {
    let cpu = m.cpu;
    let flags = cpu.flags;
    match cpu.op {
        Op::CLC => m.with_cpu(cpu.with_flags(Flags { carry: false, ..flags })),
        Op::CLD => m.with_cpu(cpu.with_flags(Flags { decimal: false, ..flags })),
        Op::CLI => m.with_cpu(cpu.with_flags(Flags { irq_disable: false, ..flags })),
        Op::CLV => m.with_cpu(cpu.with_flags(Flags { overflow: false, ..flags })),
        Op::SEC => m.with_cpu(cpu.with_flags(Flags { carry: true, ..flags })),
        Op::SED => m.with_cpu(cpu.with_flags(Flags { decimal: true, ..flags })),
        Op::SEI => m.with_cpu(cpu.with_flags(Flags { irq_disable: true, ..flags })),
        Op::NOP => m,
        _ => m,
    }
}

/// The operations that work on registers alone.
#[verifier::opaque]
pub open spec fn register_op<B: Bus6502>(m: Machine<B::V>, addr: u16, val: u8) -> Machine<B::V> {
    let cpu = m.cpu;
    let flags = cpu.flags;
    match cpu.op {
        Op::DEX => m.with_cpu(cpu.dex()),
        Op::DEY => m.with_cpu(cpu.dey()),
        Op::INX => m.with_cpu(cpu.inx()),
        Op::INY => m.with_cpu(cpu.iny()),
        Op::TAX => m.with_cpu(cpu.tax()),
        Op::TAY => m.with_cpu(cpu.tay()),
        Op::TSX => m.with_cpu(cpu.tsx()),
        Op::TXA => m.with_cpu(cpu.txa()),
        Op::TXS => m.with_cpu(cpu.txs()),
        Op::TYA => m.with_cpu(cpu.tya()),
        _ => m,
    }
}

/// The shifts, increments, decrements and stores.
#[verifier::opaque]
pub open spec fn memory_op<B: Bus6502>(m: Machine<B::V>, addr: u16, val: u8) -> Machine<B::V> {
    let cpu = m.cpu;
    let flags = cpu.flags;
    match cpu.op {
        Op::ASL => modify::<B>(m, addr, cpu.asl(val)),
        Op::DEC => modify::<B>(m, addr, cpu.dec(val)),
        Op::INC => modify::<B>(m, addr, cpu.inc(val)),
        Op::LSR => modify::<B>(m, addr, cpu.lsr(val)),
        Op::ROL => modify::<B>(m, addr, cpu.rol(val)),
        Op::ROR => modify::<B>(m, addr, cpu.ror(val)),
        Op::STA => write::<B>(m, addr, cpu.a),
        Op::STX => write::<B>(m, addr, cpu.x),
        Op::STY => write::<B>(m, addr, cpu.y),
        _ => m,
    }
}

/// The jumps, the stack operations and the interrupt sequence.
#[verifier::opaque]
pub open spec fn control_op<B: Bus6502>(m: Machine<B::V>, addr: u16, val: u8) -> Machine<B::V> {
    let cpu = m.cpu;
    let flags = cpu.flags;
    match cpu.op {
        Op::BRK => brk::<B>(m),
        Op::JMP => m.with_cpu(CpuState { pc: addr, ..cpu }),
        Op::JSR => jsr::<B>(m, addr),
        Op::PHA => pha::<B>(m),
        Op::PHP => php::<B>(m),
        Op::PLA => pla::<B>(m),
        Op::PLP => plp::<B>(m),
        Op::RTI => rti::<B>(m),
        Op::RTS => rts::<B>(m),
        _ => m,
    }
}

/// The undocumented operations that work on registers alone, and JAM.
#[verifier::opaque]
pub open spec fn undocumented_register_op<B: Bus6502>(m: Machine<B::V>, addr: u16, val: u8) -> Machine<B::V> {
    let cpu = m.cpu;
    let flags = cpu.flags;
    match cpu.op {
        Op::ALR => m.with_cpu(cpu.alr(val)),
        Op::ANC => m.with_cpu(cpu.anc(val)),
        Op::ANE => m.with_cpu(cpu.ane(val)),
        Op::ARR => m.with_cpu(cpu.arr(val)),
        Op::LAS => m.with_cpu(cpu.las(val)),
        Op::LAX => m.with_cpu(cpu.lax(val)),
        Op::LXA => m.with_cpu(cpu.lxa(val)),
        Op::SBX => m.with_cpu(cpu.sbx(val)),
        Op::JAM => m.with_cpu(jam(cpu)),
        _ => m,
    }
}

/// The undocumented operations that write memory.
#[verifier::opaque]
pub open spec fn undocumented_memory_op<B: Bus6502>(m: Machine<B::V>, addr: u16, val: u8) -> Machine<B::V> {
    let cpu = m.cpu;
    let flags = cpu.flags;
    match cpu.op {
        Op::DCP => modify::<B>(m, addr, cpu.dcp(val)),
        Op::ISC => modify::<B>(m, addr, cpu.isc(val)),
        Op::RLA => modify::<B>(m, addr, cpu.rla(val)),
        Op::RRA => modify::<B>(m, addr, cpu.rra(val)),
        Op::SAX => write::<B>(m, addr, cpu.a & cpu.x),
        Op::SHA => write::<B>(m, addr, CpuState::high_masked(cpu.a & cpu.x, addr)),
        Op::SHX => write::<B>(m, addr, CpuState::high_masked(cpu.x, addr)),
        Op::SHY => write::<B>(m, addr, CpuState::high_masked(cpu.y, addr)),
        Op::SLO => modify::<B>(m, addr, cpu.slo(val)),
        Op::SRE => modify::<B>(m, addr, cpu.sre(val)),
        Op::TAS => tas::<B>(m, addr),
        _ => m,
    }
}

/// The operation stage of the instruction that was fetched, on the operand
/// that the addressing stage found.
#[verifier::opaque]
pub open spec fn execute_op<B: Bus6502>(m: Machine<B::V>, addr: u16, val: u8) -> Machine<B::V> {
    match m.cpu.op {
        Op::ADC | Op::AND | Op::BIT | Op::CMP | Op::CPX | Op::CPY | Op::EOR | Op::ORA
        | Op::SBC | Op::LDA | Op::LDX | Op::LDY => alu_op::<B>(m, addr, val),
        Op::BCC | Op::BCS | Op::BEQ | Op::BMI | Op::BNE | Op::BPL | Op::BVC | Op::BVS => branch_op::<B>(m, addr, val),
        Op::CLC | Op::CLD | Op::CLI | Op::CLV | Op::SEC | Op::SED | Op::SEI | Op::NOP => flag_op::<B>(m, addr, val),
        Op::DEX | Op::DEY | Op::INX | Op::INY | Op::TAX | Op::TAY | Op::TSX | Op::TXA
        | Op::TXS | Op::TYA => register_op::<B>(m, addr, val),
        Op::ASL | Op::DEC | Op::INC | Op::LSR | Op::ROL | Op::ROR | Op::STA | Op::STX
        | Op::STY => memory_op::<B>(m, addr, val),
        Op::BRK | Op::JMP | Op::JSR | Op::PHA | Op::PHP | Op::PLA | Op::PLP | Op::RTI
        | Op::RTS => control_op::<B>(m, addr, val),
        Op::ALR | Op::ANC | Op::ANE | Op::ARR | Op::LAS | Op::LAX | Op::LXA | Op::SBX
        | Op::JAM => undocumented_register_op::<B>(m, addr, val),
        Op::DCP | Op::ISC | Op::RLA | Op::RRA | Op::SAX | Op::SHA | Op::SHX | Op::SHY
        | Op::SLO | Op::SRE | Op::TAS => undocumented_memory_op::<B>(m, addr, val),
    }
}

/// The fetch stage. The boundary first decides what is served: a pending
/// reset, NMI or IRQ, in that order, or the next opcode. The opcode read
/// goes out with SYNC high. An interrupt drops the byte read, leaves the
/// program counter alone and runs the interrupt sequence in place of it.
#[verifier::opaque]
pub open spec fn fetch<B: Bus6502>(m: Machine<B::V>) -> Machine<B::V> {
    let mode = m.cpu.next_break_mode();
    let chosen = CpuState { break_mode: mode, pending: m.cpu.acknowledged(), ..m.cpu }.config_read(
        m.cpu.pc,
    );
    let synced = chosen.with_pins(PinState { sync: true, ..chosen.pins });
    let cycled = cycle::<B>(m.with_cpu(synced));
    let done = cycled.cpu.with_pins(PinState { sync: false, ..cycled.cpu.pins });
    if done.break_mode != BreakMode::Break {
        cycled.with_cpu(CpuState { op: Op::BRK, addr_mode: AddrMode::Implied, ..done })
    } else {
        cycled.with_cpu(
            CpuState {
                pc: ((done.pc + 1) % 0x10000) as u16,
                op: op_of(done.pins.data),
                addr_mode: mode_of(done.pins.data),
                ..done
            },
        )
    }
}

/// One cycle of a jammed processor: nothing is fetched. A high reset line
/// ends the jam and leaves a reset pending.
#[verifier::opaque]
pub open spec fn be_jammed<B: Bus6502>(m: Machine<B::V>) -> Machine<B::V> {
    let cpu = if m.cpu.pins.rst {
        CpuState {
            pending: Pending { irq: false, nmi: false, reset: true },
            meta: MetaState { jammed: false, ..m.cpu.meta },
            ..m.cpu
        }
    } else {
        m.cpu
    };
    advance_cycle::<B>(m.with_cpu(cpu), false)
}

/// One instruction: fetch, addressing, operation; or one idle cycle if the
/// processor is jammed.
#[verifier::opaque]
pub open spec fn exec<B: Bus6502>(m: Machine<B::V>) -> Machine<B::V> {
    if m.cpu.meta.jammed {
        be_jammed::<B>(m)
    } else {
        let resolved = eval_addr_mode::<B>(fetch::<B>(m));
        execute_op::<B>(resolved.machine(), resolved.addr, resolved.val)
    }
}

} // verus!
