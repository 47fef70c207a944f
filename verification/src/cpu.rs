//! The 6502 processor core: registers, status flags, pins, and the
//! instruction-level execution engine that drives a [`Bus6502`] one cycle at a
//! time.

use vstd::pervasive::unreached;
use vstd::prelude::*;

use self::instruction::{decode, AddrMode, Op};
use self::model::{
    branch_target, high_byte, low_byte, stack_address, word, CpuState, Machine,
};
use crate::util::{
    bit_u8, get_flag_u8, lemma_bit_with_bit_u8, lemma_no_bit_in_zero, set_flag_u8, with_bit_u8,
};

pub mod instruction;
pub mod model;
pub mod laws;

verus! {

broadcast use lemma_bit_with_bit_u8;

/// The levels on the processor's pins: the address and data lines and the
/// seven control lines.
pub struct PinState {
    pub address: u16,
    pub data: u8,
    pub read: bool,
    pub not_ready: bool,
    pub halt: bool,
    pub irq: bool,
    pub nmi: bool,
    pub rst: bool,
    pub sync: bool,
}

/// The latches the processor keeps between cycles besides its registers.
pub struct MetaState {
    pub jammed: bool,
    pub last_nmi: bool,
    pub last_rst: bool,
}

/// The interrupts that wait for the next instruction boundary.
pub struct Pending {
    pub irq: bool,
    pub nmi: bool,
    pub reset: bool,
}

/// The six processor status flags.
pub struct Flags {
    pub carry: bool,
    pub zero: bool,
    pub irq_disable: bool,
    pub decimal: bool,
    pub overflow: bool,
    pub negative: bool,
}

impl Flags {
    /// The flags as the status byte holds them: C, Z, I, D in bits 0 to 3,
    /// V in bit 6 and N in bit 7.
    pub open spec fn bits(self) -> int {
        (if self.carry { 1int } else { 0 }) + (if self.zero { 2int } else { 0 }) + (if self.irq_disable { 4int } else { 0 })
            + (if self.decimal { 8int } else { 0 }) + (if self.overflow { 64int } else { 0 }) + (if self.negative { 128int } else { 0 })
    }

    /// The byte that a push of the status register writes: the flags, bit 5
    /// always set, and the break bit as given.
    pub open spec fn pushed(self, brk: bool) -> int {
        self.bits() + 32 + (if brk { 16int } else { 0 })
    }

    /// The flags that a pull of the status register takes from `byte`: bits 4
    /// and 5 are ignored.
    pub open spec fn pulled(byte: u8) -> Flags {
        Flags {
            carry: byte as int % 2 == 1,
            zero: (byte as int / 2) % 2 == 1,
            irq_disable: (byte as int / 4) % 2 == 1,
            decimal: (byte as int / 8) % 2 == 1,
            overflow: (byte as int / 64) % 2 == 1,
            negative: byte as int / 128 == 1,
        }
    }
}

const META_JAMMED: u8 = 0;
const META_LAST_NMI: u8 = 1;
const META_LAST_RST: u8 = 2;

const PENDING_IRQ: u8 = 0;
const PENDING_NMI: u8 = 1;
const PENDING_RESET: u8 = 2;

const FLAG_CARRY: u8 = 0;
const FLAG_ZERO: u8 = 1;
const FLAG_IRQ_DISABLE: u8 = 2;
const FLAG_DECIMAL: u8 = 3;
const FLAG_BREAK: u8 = 4;
const FLAG_SET: u8 = 5;
const FLAG_OVERFLOW: u8 = 6;
const FLAG_NEGATIVE: u8 = 7;

const PIN_READ: u8 = 0;
const PIN_NOT_READY: u8 = 1;
const PIN_HALT: u8 = 2;
const PIN_IRQ: u8 = 3;
const PIN_NMI: u8 = 4;
const PIN_RST: u8 = 5;
const PIN_SYNC: u8 = 6;

/// The processor's bookkeeping latches, packed into one byte.
#[derive(Clone, Copy, Debug, PartialEq, Eq, Hash)]
pub struct Meta(u8);

/// The latches that the byte of a [`Meta`] stands for.
#[verifier::opaque]
spec fn meta_state(meta: Meta) -> MetaState {
    MetaState {
        jammed: bit_u8(meta.0, META_JAMMED),
        last_nmi: bit_u8(meta.0, META_LAST_NMI),
        last_rst: bit_u8(meta.0, META_LAST_RST),
    }
}

impl View for Meta {
    type V = MetaState;

    closed spec fn view(&self) -> MetaState {
        meta_state(*self)
    }
}

impl Meta {
    /// All latches clear.
    pub fn init() -> (meta: Self)
        ensures
            meta@ == (MetaState { jammed: false, last_nmi: false, last_rst: false }),
    {
        proof {
            reveal(meta_state);
        }
        proof {
            lemma_no_bit_in_zero();
        }
        Self(0)
    }

    /// Whether the processor is jammed.
    pub fn jammed(self) -> (level: bool)
        ensures
            level == self@.jammed,
    {
        proof {
            reveal(meta_state);
        }
        get_flag_u8(self.0, META_JAMMED)
    }

    /// Whether the NMI line was high at the last sample.
    pub fn last_nmi(self) -> (level: bool)
        ensures
            level == self@.last_nmi,
    {
        proof {
            reveal(meta_state);
        }
        get_flag_u8(self.0, META_LAST_NMI)
    }

    /// Whether the reset line was high at the last sample.
    pub fn last_rst(self) -> (level: bool)
        ensures
            level == self@.last_rst,
    {
        proof {
            reveal(meta_state);
        }
        get_flag_u8(self.0, META_LAST_RST)
    }

    /// Records whether the processor is jammed.
    pub fn set_jammed(&mut self, jammed: bool)
        ensures
            final(self)@ == (MetaState { jammed, ..old(self)@ }),
    {
        proof {
            reveal(meta_state);
        }
        set_flag_u8(&mut self.0, META_JAMMED, jammed)
    }

    /// Records whether the NMI line was high at the last sample.
    pub fn set_last_nmi(&mut self, last_nmi: bool)
        ensures
            final(self)@ == (MetaState { last_nmi, ..old(self)@ }),
    {
        proof {
            reveal(meta_state);
        }
        set_flag_u8(&mut self.0, META_LAST_NMI, last_nmi)
    }

    /// Records whether the reset line was high at the last sample.
    pub fn set_last_rst(&mut self, last_rst: bool)
        ensures
            final(self)@ == (MetaState { last_rst, ..old(self)@ }),
    {
        proof {
            reveal(meta_state);
        }
        set_flag_u8(&mut self.0, META_LAST_RST, last_rst)
    }
}

/// The pending interrupts, packed into one byte.
#[derive(Clone, Copy, Debug, PartialEq, Eq, Hash)]
pub struct Interrupts(u8);

/// The interrupts that the byte of an [`Interrupts`] stands for.
#[verifier::opaque]
spec fn pending_state(interrupts: Interrupts) -> Pending {
    Pending {
        irq: bit_u8(interrupts.0, PENDING_IRQ),
        nmi: bit_u8(interrupts.0, PENDING_NMI),
        reset: bit_u8(interrupts.0, PENDING_RESET),
    }
}

impl View for Interrupts {
    type V = Pending;

    closed spec fn view(&self) -> Pending {
        pending_state(*self)
    }
}

impl Interrupts {
    /// The state at power-on: a reset is pending, nothing else.
    pub fn init() -> (pending: Self)
        ensures
            pending@ == (Pending { irq: false, nmi: false, reset: true }),
    {
        proof {
            reveal(pending_state);
        }
        proof {
            lemma_no_bit_in_zero();
        }
        let mut bits: u8 = 0;
        set_flag_u8(&mut bits, PENDING_RESET, true);
        Self(bits)
    }

    /// Whether an interrupt request is pending.
    pub fn irq(self) -> (level: bool)
        ensures
            level == self@.irq,
    {
        proof {
            reveal(pending_state);
        }
        get_flag_u8(self.0, PENDING_IRQ)
    }

    /// Whether a non-maskable interrupt is pending.
    pub fn nmi(self) -> (level: bool)
        ensures
            level == self@.nmi,
    {
        proof {
            reveal(pending_state);
        }
        get_flag_u8(self.0, PENDING_NMI)
    }

    /// Whether a reset is pending.
    pub fn reset(self) -> (level: bool)
        ensures
            level == self@.reset,
    {
        proof {
            reveal(pending_state);
        }
        get_flag_u8(self.0, PENDING_RESET)
    }

    /// Takes over the level of the interrupt request line.
    pub fn set_irq(&mut self, irq: bool)
        ensures
            final(self)@ == (Pending { irq, ..old(self)@ }),
    {
        proof {
            reveal(pending_state);
        }
        set_flag_u8(&mut self.0, PENDING_IRQ, irq)
    }

    /// Latches a non-maskable interrupt if `nmi` holds; never clears one.
    pub fn or_nmi(&mut self, nmi: bool)
        ensures
            final(self)@ == (Pending { nmi: old(self)@.nmi || nmi, ..old(self)@ }),
    {
        proof {
            reveal(pending_state);
        }
        if nmi {
            set_flag_u8(&mut self.0, PENDING_NMI, true)
        }
    }

    /// Latches a reset if `reset` holds; never clears one.
    pub fn or_reset(&mut self, reset: bool)
        ensures
            final(self)@ == (Pending { reset: old(self)@.reset || reset, ..old(self)@ }),
    {
        proof {
            reveal(pending_state);
        }
        if reset {
            set_flag_u8(&mut self.0, PENDING_RESET, true)
        }
    }

    /// Acknowledges the pending non-maskable interrupt.
    pub fn clear_nmi(&mut self)
        ensures
            final(self)@ == (Pending { nmi: false, ..old(self)@ }),
    {
        proof {
            reveal(pending_state);
        }
        set_flag_u8(&mut self.0, PENDING_NMI, false)
    }

    /// Drops every pending interrupt.
    pub fn clear(&mut self)
        ensures
            final(self)@ == (Pending { irq: false, nmi: false, reset: false }),
    {
        proof {
            reveal(pending_state);
        }
        proof {
            lemma_no_bit_in_zero();
        }
        self.0 = 0;
    }
}

/// The bits of a status byte that hold no flag stay clear when a flag bit is
/// forced.
proof fn lemma_spare_bits_kept(byte: u8, flag: u8, value: bool)
    requires
        byte & 0x30 == 0,
        flag < 4 || flag == 6 || flag == 7,
    ensures
        with_bit_u8(byte, flag, value) & 0x30 == 0,
{
    assert((byte | (1u8 << flag)) & 0x30 == 0 && (byte & !(1u8 << flag)) & 0x30 == 0)
        by (bit_vector)
        requires
            byte & 0x30 == 0,
            flag < 4 || flag == 6 || flag == 7,
    ;
}

/// A status byte with clear spare bits is the weighted sum of its flags, and
/// masking a pulled byte keeps exactly the six flag bits.
proof fn lemma_status_bits(byte: u8)
    ensures
        byte & 0x30 == 0 ==> byte as int == (if byte & (1u8 << 0u8) != 0 { 1int } else { 0 })
            + (if byte & (1u8 << 1u8) != 0 { 2int } else { 0 })
            + (if byte & (1u8 << 2u8) != 0 { 4int } else { 0 })
            + (if byte & (1u8 << 3u8) != 0 { 8int } else { 0 })
            + (if byte & (1u8 << 6u8) != 0 { 64int } else { 0 })
            + (if byte & (1u8 << 7u8) != 0 { 128int } else { 0 }),
        (byte & 0xCF) & 0x30 == 0,
        ((byte & 0xCF) & (1u8 << 0u8) != 0) == (byte as int % 2 == 1),
        ((byte & 0xCF) & (1u8 << 1u8) != 0) == ((byte as int / 2) % 2 == 1),
        ((byte & 0xCF) & (1u8 << 2u8) != 0) == ((byte as int / 4) % 2 == 1),
        ((byte & 0xCF) & (1u8 << 3u8) != 0) == ((byte as int / 8) % 2 == 1),
        ((byte & 0xCF) & (1u8 << 6u8) != 0) == ((byte as int / 64) % 2 == 1),
        ((byte & 0xCF) & (1u8 << 7u8) != 0) == (byte as int / 128 == 1),
        byte & 0x30 == 0 ==> (byte | 0x20) as int == byte + 32 && (byte | 0x30) as int == byte + 48,
{
    assert(byte & 0x30 == 0 ==> byte == (if byte & (1u8 << 0u8) != 0 { 1u8 } else { 0 })
        + (if byte & (1u8 << 1u8) != 0 { 2u8 } else { 0 })
        + (if byte & (1u8 << 2u8) != 0 { 4u8 } else { 0 })
        + (if byte & (1u8 << 3u8) != 0 { 8u8 } else { 0 })
        + (if byte & (1u8 << 6u8) != 0 { 64u8 } else { 0 })
        + (if byte & (1u8 << 7u8) != 0 { 128u8 } else { 0 })) by (bit_vector);
    assert((byte & 0xCF) & 0x30 == 0
        && ((byte & 0xCF) & (1u8 << 0u8) != 0) == (byte % 2 == 1)
        && ((byte & 0xCF) & (1u8 << 1u8) != 0) == ((byte / 2) % 2 == 1)
        && ((byte & 0xCF) & (1u8 << 2u8) != 0) == ((byte / 4) % 2 == 1)
        && ((byte & 0xCF) & (1u8 << 3u8) != 0) == ((byte / 8) % 2 == 1)
        && ((byte & 0xCF) & (1u8 << 6u8) != 0) == ((byte / 64) % 2 == 1)
        && ((byte & 0xCF) & (1u8 << 7u8) != 0) == (byte / 128 == 1)) by (bit_vector);
    assert(byte & 0x30 == 0 ==> (byte | 0x20) == byte + 32 && (byte | 0x30) == byte + 48)
        by (bit_vector);
}

/// The processor status register. Bits 4 and 5 of the byte hold no flag and
/// stay clear.
#[derive(Clone, Copy, Debug, PartialEq, Eq, Hash)]
pub struct Status(u8);

/// The flags that the byte of a [`Status`] stands for.
#[verifier::opaque]
spec fn status_flags(status: Status) -> Flags {
    Flags {
        carry: bit_u8(status.0, FLAG_CARRY),
        zero: bit_u8(status.0, FLAG_ZERO),
        irq_disable: bit_u8(status.0, FLAG_IRQ_DISABLE),
        decimal: bit_u8(status.0, FLAG_DECIMAL),
        overflow: bit_u8(status.0, FLAG_OVERFLOW),
        negative: bit_u8(status.0, FLAG_NEGATIVE),
    }
}

impl View for Status {
    type V = Flags;

    closed spec fn view(&self) -> Flags {
        status_flags(*self)
    }
}

impl Status {
    #[verifier::type_invariant]
    spec fn spare_bits_clear(self) -> bool {
        self.0 & 0x30 == 0
    }

    /// The flags at power-on: interrupts disabled, everything else clear.
    pub fn init() -> (status: Self)
        ensures
            status@ == (Flags {
                carry: false,
                zero: false,
                irq_disable: true,
                decimal: false,
                overflow: false,
                negative: false,
            }),
    {
        proof {
            reveal(status_flags);
        }
        proof {
            lemma_no_bit_in_zero();
            assert(0u8 & 0x30 == 0) by (bit_vector);
            lemma_spare_bits_kept(0, FLAG_IRQ_DISABLE, true);
        }
        let mut bits: u8 = 0;
        set_flag_u8(&mut bits, FLAG_IRQ_DISABLE, true);
        Self(bits)
    }

    /// The carry flag.
    pub fn carry(self) -> (level: bool)
        ensures
            level == self@.carry,
    {
        proof {
            reveal(status_flags);
        }
        get_flag_u8(self.0, FLAG_CARRY)
    }

    /// The zero flag.
    pub fn zero(self) -> (level: bool)
        ensures
            level == self@.zero,
    {
        proof {
            reveal(status_flags);
        }
        get_flag_u8(self.0, FLAG_ZERO)
    }

    /// The interrupt-disable flag.
    pub fn irq_disable(self) -> (level: bool)
        ensures
            level == self@.irq_disable,
    {
        proof {
            reveal(status_flags);
        }
        get_flag_u8(self.0, FLAG_IRQ_DISABLE)
    }

    /// The decimal flag.
    pub fn decimal(self) -> (level: bool)
        ensures
            level == self@.decimal,
    {
        proof {
            reveal(status_flags);
        }
        get_flag_u8(self.0, FLAG_DECIMAL)
    }

    /// The overflow flag.
    pub fn overflow(self) -> (level: bool)
        ensures
            level == self@.overflow,
    {
        proof {
            reveal(status_flags);
        }
        get_flag_u8(self.0, FLAG_OVERFLOW)
    }

    /// The negative flag.
    pub fn negative(self) -> (level: bool)
        ensures
            level == self@.negative,
    {
        proof {
            reveal(status_flags);
        }
        get_flag_u8(self.0, FLAG_NEGATIVE)
    }

    /// Sets or clears the carry flag; the other flags are kept.
    pub fn set_carry(&mut self, carry: bool)
        ensures
            final(self)@ == (Flags { carry, ..old(self)@ }),
    {
        proof {
            reveal(status_flags);
            use_type_invariant(&*self);
        }
        let mut bits: u8 = self.0;
        set_flag_u8(&mut bits, FLAG_CARRY, carry);
        proof {
            lemma_spare_bits_kept(self.0, FLAG_CARRY, carry);
        }
        self.0 = bits;
    }

    /// Sets or clears the zero flag; the other flags are kept.
    pub fn set_zero(&mut self, zero: bool)
        ensures
            final(self)@ == (Flags { zero, ..old(self)@ }),
    {
        proof {
            reveal(status_flags);
            use_type_invariant(&*self);
        }
        let mut bits: u8 = self.0;
        set_flag_u8(&mut bits, FLAG_ZERO, zero);
        proof {
            lemma_spare_bits_kept(self.0, FLAG_ZERO, zero);
        }
        self.0 = bits;
    }

    /// Sets or clears the interrupt-disable flag; the other flags are kept.
    pub fn set_irq_disable(&mut self, irq_disable: bool)
        ensures
            final(self)@ == (Flags { irq_disable, ..old(self)@ }),
    {
        proof {
            reveal(status_flags);
            use_type_invariant(&*self);
        }
        let mut bits: u8 = self.0;
        set_flag_u8(&mut bits, FLAG_IRQ_DISABLE, irq_disable);
        proof {
            lemma_spare_bits_kept(self.0, FLAG_IRQ_DISABLE, irq_disable);
        }
        self.0 = bits;
    }

    /// Sets or clears the decimal flag; the other flags are kept.
    pub fn set_decimal(&mut self, decimal: bool)
        ensures
            final(self)@ == (Flags { decimal, ..old(self)@ }),
    {
        proof {
            reveal(status_flags);
            use_type_invariant(&*self);
        }
        let mut bits: u8 = self.0;
        set_flag_u8(&mut bits, FLAG_DECIMAL, decimal);
        proof {
            lemma_spare_bits_kept(self.0, FLAG_DECIMAL, decimal);
        }
        self.0 = bits;
    }

    /// Sets or clears the overflow flag; the other flags are kept.
    pub fn set_overflow(&mut self, overflow: bool)
        ensures
            final(self)@ == (Flags { overflow, ..old(self)@ }),
    {
        proof {
            reveal(status_flags);
            use_type_invariant(&*self);
        }
        let mut bits: u8 = self.0;
        set_flag_u8(&mut bits, FLAG_OVERFLOW, overflow);
        proof {
            lemma_spare_bits_kept(self.0, FLAG_OVERFLOW, overflow);
        }
        self.0 = bits;
    }

    /// Sets or clears the negative flag; the other flags are kept.
    pub fn set_negative(&mut self, negative: bool)
        ensures
            final(self)@ == (Flags { negative, ..old(self)@ }),
    {
        proof {
            reveal(status_flags);
            use_type_invariant(&*self);
        }
        let mut bits: u8 = self.0;
        set_flag_u8(&mut bits, FLAG_NEGATIVE, negative);
        proof {
            lemma_spare_bits_kept(self.0, FLAG_NEGATIVE, negative);
        }
        self.0 = bits;
    }

    /// The six flags as one byte, bits 4 and 5 clear.
    pub fn bits(&self) -> (byte: u8)
        ensures
            byte == self@.bits(),
    {
        proof {
            reveal(status_flags);
        }
        proof {
            use_type_invariant(self);
            lemma_status_bits(self.0);
        }
        self.0
    }

    /// The byte a push writes: the flags, bit 5 set, and bit 4 as `brk` says.
    pub fn to_pushable_bits(self, brk: bool) -> (byte: u8)
        ensures
            byte == self@.pushed(brk),
    {
        proof {
            reveal(status_flags);
        }
        proof {
            use_type_invariant(self);
            lemma_status_bits(self.0);
        }
        if brk {
            self.0 | 0x30
        } else {
            self.0 | 0x20
        }
    }

    /// The flags a pull takes from `bits`; bits 4 and 5 are dropped.
    pub fn from_pushable_bits(bits: u8) -> (status: Self)
        ensures
            status@ == Flags::pulled(bits),
    {
        proof {
            reveal(status_flags);
        }
        proof {
            lemma_status_bits(bits);
        }
        Self(bits & 0xCF)
    }
}

/// The processor's pins as the bus sees them.
#[derive(Clone, Copy, Debug, PartialEq, Eq, Hash)]
pub struct CpuPins {
    address: u16,
    data: u8,
    flags: u8,
}

/// The levels that the fields of a [`CpuPins`] stand for.
#[verifier::opaque]
spec fn pin_state(pins: CpuPins) -> PinState {
    PinState {
        address: pins.address,
        data: pins.data,
        read: bit_u8(pins.flags, PIN_READ),
        not_ready: bit_u8(pins.flags, PIN_NOT_READY),
        halt: bit_u8(pins.flags, PIN_HALT),
        irq: bit_u8(pins.flags, PIN_IRQ),
        nmi: bit_u8(pins.flags, PIN_NMI),
        rst: bit_u8(pins.flags, PIN_RST),
        sync: bit_u8(pins.flags, PIN_SYNC),
    }
}

impl View for CpuPins {
    type V = PinState;

    closed spec fn view(&self) -> PinState {
        pin_state(*self)
    }
}

impl PinState {
    /// Every line low, address and data zero.
    pub open spec fn idle() -> PinState {
        PinState {
            address: 0,
            data: 0,
            read: false,
            not_ready: false,
            halt: false,
            irq: false,
            nmi: false,
            rst: false,
            sync: false,
        }
    }
}

impl CpuPins {
    /// Every line low, address and data zero.
    pub fn init() -> (pins: Self)
        ensures
            pins@ == PinState::idle(),
    {
        proof {
            reveal(pin_state);
        }
        proof {
            lemma_no_bit_in_zero();
        }
        Self { address: 0, data: 0, flags: 0 }
    }

    /// The address lines.
    pub fn address(self) -> (address: u16)
        ensures
            address == self@.address,
    {
        proof {
            reveal(pin_state);
        }
        self.address
    }

    /// The data lines.
    pub fn data(self) -> (data: u8)
        ensures
            data == self@.data,
    {
        proof {
            reveal(pin_state);
        }
        self.data
    }

    /// Drives the address lines.
    pub fn set_address(&mut self, address: u16)
        ensures
            final(self)@ == (PinState { address, ..old(self)@ }),
    {
        proof {
            reveal(pin_state);
        }
        self.address = address;
    }

    /// Drives the data lines.
    pub fn set_data(&mut self, data: u8)
        ensures
            final(self)@ == (PinState { data, ..old(self)@ }),
    {
        proof {
            reveal(pin_state);
        }
        self.data = data;
    }

    /// Level of the read (high) or write (low) pin.
    pub fn read(self) -> (level: bool)
        ensures
            level == self@.read,
    {
        proof {
            reveal(pin_state);
        }
        get_flag_u8(self.flags, PIN_READ)
    }

    /// Level of the not-ready pin.
    pub fn not_ready(self) -> (level: bool)
        ensures
            level == self@.not_ready,
    {
        proof {
            reveal(pin_state);
        }
        get_flag_u8(self.flags, PIN_NOT_READY)
    }

    /// Level of the halt pin.
    pub fn halt(self) -> (level: bool)
        ensures
            level == self@.halt,
    {
        proof {
            reveal(pin_state);
        }
        get_flag_u8(self.flags, PIN_HALT)
    }

    /// Level of the interrupt request pin.
    pub fn irq(self) -> (level: bool)
        ensures
            level == self@.irq,
    {
        proof {
            reveal(pin_state);
        }
        get_flag_u8(self.flags, PIN_IRQ)
    }

    /// Level of the non-maskable interrupt pin.
    pub fn nmi(self) -> (level: bool)
        ensures
            level == self@.nmi,
    {
        proof {
            reveal(pin_state);
        }
        get_flag_u8(self.flags, PIN_NMI)
    }

    /// Level of the reset pin.
    pub fn rst(self) -> (level: bool)
        ensures
            level == self@.rst,
    {
        proof {
            reveal(pin_state);
        }
        get_flag_u8(self.flags, PIN_RST)
    }

    /// Level of the opcode fetch pin.
    pub fn sync(self) -> (level: bool)
        ensures
            level == self@.sync,
    {
        proof {
            reveal(pin_state);
        }
        get_flag_u8(self.flags, PIN_SYNC)
    }

    /// Drives the read (high) or write (low) pin.
    pub fn set_read(&mut self, read: bool)
        ensures
            final(self)@ == (PinState { read, ..old(self)@ }),
    {
        proof {
            reveal(pin_state);
        }
        set_flag_u8(&mut self.flags, PIN_READ, read)
    }

    /// Drives the not-ready pin.
    pub fn set_not_ready(&mut self, not_ready: bool)
        ensures
            final(self)@ == (PinState { not_ready, ..old(self)@ }),
    {
        proof {
            reveal(pin_state);
        }
        set_flag_u8(&mut self.flags, PIN_NOT_READY, not_ready)
    }

    /// Drives the halt pin.
    pub fn set_halt(&mut self, halt: bool)
        ensures
            final(self)@ == (PinState { halt, ..old(self)@ }),
    {
        proof {
            reveal(pin_state);
        }
        set_flag_u8(&mut self.flags, PIN_HALT, halt)
    }

    /// Drives the interrupt request pin.
    pub fn set_irq(&mut self, irq: bool)
        ensures
            final(self)@ == (PinState { irq, ..old(self)@ }),
    {
        proof {
            reveal(pin_state);
        }
        set_flag_u8(&mut self.flags, PIN_IRQ, irq)
    }

    /// Drives the non-maskable interrupt pin.
    pub fn set_nmi(&mut self, nmi: bool)
        ensures
            final(self)@ == (PinState { nmi, ..old(self)@ }),
    {
        proof {
            reveal(pin_state);
        }
        set_flag_u8(&mut self.flags, PIN_NMI, nmi)
    }

    /// Drives the reset pin.
    pub fn set_rst(&mut self, rst: bool)
        ensures
            final(self)@ == (PinState { rst, ..old(self)@ }),
    {
        proof {
            reveal(pin_state);
        }
        set_flag_u8(&mut self.flags, PIN_RST, rst)
    }

    /// Drives the opcode fetch pin.
    pub fn set_sync(&mut self, sync: bool)
        ensures
            final(self)@ == (PinState { sync, ..old(self)@ }),
    {
        proof {
            reveal(pin_state);
        }
        set_flag_u8(&mut self.flags, PIN_SYNC, sync)
    }
}

/// What the interrupt sequence is serving.
#[derive(Clone, Copy, Debug, PartialEq, Eq, Hash, Structural)]
pub enum BreakMode {
    /// A BRK instruction.
    Break,
    /// An interrupt request.
    Irq,
    /// A non-maskable interrupt.
    Nmi,
    /// A reset.
    Reset,
}

impl BreakMode {
    /// Only a BRK instruction skips the byte after its opcode.
    pub open spec fn spec_increment_pc(self) -> bool {
        self == BreakMode::Break
    }

    /// Only a reset turns the three pushes into reads.
    pub open spec fn spec_suppress_writes(self) -> bool {
        self == BreakMode::Reset
    }

    /// Only a BRK instruction pushes the status with B set.
    pub open spec fn spec_set_brk_flag(self) -> bool {
        self == BreakMode::Break
    }

    /// The address of the vector: NMI at `$FFFA`, reset at `$FFFC`, BRK and
    /// IRQ at `$FFFE`.
    pub open spec fn spec_vector(self) -> u16 {
        match self {
            BreakMode::Nmi => 0xFFFA,
            BreakMode::Reset => 0xFFFC,
            BreakMode::Break | BreakMode::Irq => 0xFFFE,
        }
    }

    #[verifier::when_used_as_spec(spec_increment_pc)]
    fn increment_pc(self) -> (skip: bool)
        ensures
            skip == self.spec_increment_pc(),
    {
        match self {
            Self::Break => true,
            _ => false,
        }
    }

    #[verifier::when_used_as_spec(spec_suppress_writes)]
    fn suppress_writes(self) -> (suppress: bool)
        ensures
            suppress == self.spec_suppress_writes(),
    {
        match self {
            Self::Break => false,
            Self::Irq => false,
            Self::Nmi => false,
            Self::Reset => true,
        }
    }

    #[verifier::when_used_as_spec(spec_set_brk_flag)]
    fn set_brk_flag(self) -> (brk: bool)
        ensures
            brk == self.spec_set_brk_flag(),
    {
        matches!(self, BreakMode::Break)
    }

    #[verifier::when_used_as_spec(spec_vector)]
    fn vector(self) -> (address: u16)
        ensures
            address == self.spec_vector(),
    {
        match self {
            Self::Nmi => 0xFFFA,
            Self::Reset => 0xFFFC,
            Self::Break | Self::Irq => 0xFFFE,
        }
    }
}

/// What a 6502 is wired to. The processor calls [`Bus6502::cycle`] once per
/// clock cycle with its pins set up; the bus performs the transfer and
/// drives the lines that are its own.
///
/// The bus is described by its view: `next` gives the bus after a cycle,
/// `reply` the pins it hands back. A bus may answer a read with NOT_READY to
/// hold the processor, but only for a bounded run of cycles: `stall` must
/// drop with every such answer.
pub trait Bus6502: View + Sized {
    /// What the bus needs to hold between cycles.
    spec fn inv(&self) -> bool;

    /// The bus after a cycle in which the processor showed `pins`.
    spec fn next(bus: Self::V, pins: PinState) -> Self::V;

    /// The pins after that cycle.
    spec fn reply(bus: Self::V, pins: PinState) -> PinState;

    /// A bound on how many more reads in a row the bus may hold up.
    spec fn stall(bus: Self::V) -> nat;

    /// Called by the processor whenever it completes a cycle so that the
    /// devices on the bus can act.
    fn cycle(&mut self, cpu: &mut Cpu6502)
        requires
            old(self).inv(),
        ensures
            final(self).inv(),
            final(self)@ == Self::next(old(self)@, old(cpu)@.pins),
            final(cpu)@ == old(cpu)@.with_pins(Self::reply(old(self)@, old(cpu)@.pins)),
            final(cpu)@.pins.read && final(cpu)@.pins.not_ready ==> Self::stall(final(self)@)
                < Self::stall(old(self)@),
    ;
}

/// The processor and the bus as one value.
pub open spec fn machine<B: Bus6502>(cpu: Cpu6502, bus: B) -> Machine<B::V> {
    Machine { cpu: cpu@, bus: bus@ }
}

/// A 6502 core. It executes whole instructions, one bus cycle after the
/// other.
#[derive(Clone, Copy, Debug, PartialEq, Eq, Hash)]
pub struct Cpu6502 {
    pins: CpuPins,
    meta: Meta,
    a: u8,
    x: u8,
    y: u8,
    sp: u8,
    pc: u16,
    status: Status,
    interrupts: Interrupts,
    break_mode: BreakMode,
    op: Op,
    addr_mode: AddrMode,
}

impl View for Cpu6502 {
    type V = CpuState;

    closed spec fn view(&self) -> CpuState {
        CpuState {
            pins: self.pins@,
            meta: self.meta@,
            a: self.a,
            x: self.x,
            y: self.y,
            sp: self.sp,
            pc: self.pc,
            flags: self.status@,
            pending: self.interrupts@,
            break_mode: self.break_mode,
            op: self.op,
            addr_mode: self.addr_mode,
        }
    }
}

impl CpuState {
    /// The processor at power-on: registers zero, I set, a reset pending.
    pub open spec fn power_on() -> CpuState {
        CpuState {
            pins: PinState::idle(),
            meta: MetaState { jammed: false, last_nmi: false, last_rst: false },
            a: 0,
            x: 0,
            y: 0,
            sp: 0,
            pc: 0,
            flags: Flags {
                carry: false,
                zero: false,
                irq_disable: true,
                decimal: false,
                overflow: false,
                negative: false,
            },
            pending: Pending { irq: false, nmi: false, reset: true },
            break_mode: BreakMode::Reset,
            op: Op::BRK,
            addr_mode: AddrMode::Implied,
        }
    }
}

impl Cpu6502 {
    /// A processor at power-on. Its first instruction is the reset sequence.
    pub fn init() -> (cpu: Self)
        ensures
            cpu@ == CpuState::power_on(),
    {
        Self {
            pins: CpuPins::init(),
            meta: Meta::init(),
            a: 0,
            x: 0,
            y: 0,
            sp: 0,
            pc: 0,
            status: Status::init(),
            interrupts: Interrupts::init(),
            break_mode: BreakMode::Reset,
            op: Op::BRK,
            addr_mode: AddrMode::Implied,
        }
    }

    /// Executes one instruction, or one idle cycle if the processor is
    /// jammed.
    pub fn exec<B: Bus6502>(&mut self, bus: &mut B)
        requires
            old(bus).inv(),
        ensures
            final(bus).inv(),
            machine(*final(self), *final(bus)) == model::exec::<B>(machine(*old(self), *old(bus))),
    {
        proof {
            reveal(model::exec);
        }
        if self.meta.jammed() {
            self.be_jammed(bus);
            return ;
        }
        self.fetch(bus);
        let (addr, val) = self.eval_addr_mode(bus);
        self.execute_op(addr, val, bus);
    }

    fn be_jammed<B: Bus6502>(&mut self, bus: &mut B)
        requires
            old(bus).inv(),
        ensures
            final(bus).inv(),
            machine(*final(self), *final(bus)) == model::be_jammed::<B>(
                machine(*old(self), *old(bus)),
            ),
    {
        proof {
            reveal(model::be_jammed);
        }
        if self.pins.rst() {
            self.interrupts = Interrupts::init();
            self.meta.set_jammed(false);
        }
        self.advance_cycle(false, bus);
    }

    fn fetch<B: Bus6502>(&mut self, bus: &mut B)
        requires
            old(bus).inv(),
        ensures
            final(bus).inv(),
            machine(*final(self), *final(bus)) == model::fetch::<B>(machine(*old(self), *old(bus))),
    {
        proof {
            reveal(model::fetch);
        }
        self.choose_break_mode();
        self.config_read(self.pc);
        self.pins.set_sync(true);
        self.cycle(bus);
        self.pins.set_sync(false);

        if self.break_mode != BreakMode::Break {
            self.op = Op::BRK;
            self.addr_mode = AddrMode::Implied;
        } else {
            self.pc = self.pc.wrapping_add(1);
            let (op, addr_mode) = decode(self.pins.data());
            self.op = op;
            self.addr_mode = addr_mode;
        }
    }

    /// Decides what the instruction boundary serves and acknowledges it.
    fn choose_break_mode(&mut self)
        ensures
            final(self)@ == (CpuState {
                break_mode: old(self)@.next_break_mode(),
                pending: old(self)@.acknowledged(),
                ..old(self)@
            }),
    {
        if self.interrupts.reset() {
            self.break_mode = BreakMode::Reset;
            self.interrupts.clear();
        } else if self.interrupts.nmi() {
            self.break_mode = BreakMode::Nmi;
            self.interrupts.clear_nmi();
        } else if self.interrupts.irq() {
            self.break_mode = BreakMode::Irq;
        } else {
            self.break_mode = BreakMode::Break;
        }
    }

    fn eval_addr_mode<B: Bus6502>(&mut self, bus: &mut B) -> (operand: (u16, u8))
        requires
            old(bus).inv(),
        ensures
            final(bus).inv(),
            machine(*final(self), *final(bus)).resolved(operand.0, operand.1)
                == model::eval_addr_mode::<B>(machine(*old(self), *old(bus))),
    {
        proof {
            reveal(model::eval_addr_mode);
        }
        match self.addr_mode {
            AddrMode::Implied => self.exec_implied_mode(bus),
            AddrMode::Accumulator => self.exec_accumulator_mode(bus),
            AddrMode::Immediate => self.exec_immediate_mode(bus),
            AddrMode::Relative => self.exec_relative_mode(bus),
            AddrMode::Zero => self.exec_zero_mode(bus),
            AddrMode::ZeroX => self.exec_zero_index_mode(self.x, bus),
            AddrMode::ZeroY => self.exec_zero_index_mode(self.y, bus),
            AddrMode::Absolute => self.exec_absolute_mode(bus),
            AddrMode::AbsoluteX => self.exec_absolute_index_mode(self.x, bus),
            AddrMode::AbsoluteY => self.exec_absolute_index_mode(self.y, bus),
            AddrMode::Indirect => self.exec_indirect_mode(bus),
            AddrMode::XIndirect => self.exec_xindirect_mode(bus),
            AddrMode::IndirectY => self.exec_indirect_y_mode(bus),
        }
    }

    fn exec_implied_mode<B: Bus6502>(&mut self, bus: &mut B) -> (operand: (u16, u8))
        requires
            old(bus).inv(),
        ensures
            final(bus).inv(),
            machine(*final(self), *final(bus)).resolved(operand.0, operand.1)
                == model::implied_mode::<B>(machine(*old(self), *old(bus))),
    {
        proof {
            reveal(model::implied_mode);
        }
        self.read(self.pc, bus);
        (0, 0)
    }

    fn exec_accumulator_mode<B: Bus6502>(&mut self, bus: &mut B) -> (operand: (u16, u8))
        requires
            old(bus).inv(),
        ensures
            final(bus).inv(),
            machine(*final(self), *final(bus)).resolved(operand.0, operand.1)
                == model::accumulator_mode::<B>(machine(*old(self), *old(bus))),
    {
        proof {
            reveal(model::accumulator_mode);
        }
        self.read(self.pc, bus);
        (0, self.a)
    }

    fn exec_immediate_mode<B: Bus6502>(&mut self, bus: &mut B) -> (operand: (u16, u8))
        requires
            old(bus).inv(),
        ensures
            final(bus).inv(),
            machine(*final(self), *final(bus)).resolved(operand.0, operand.1)
                == model::immediate_mode::<B>(machine(*old(self), *old(bus))),
    {
        proof {
            reveal(model::immediate_mode);
        }
        let val = self.read_pc_byte(bus);
        (0, val)
    }

    fn exec_relative_mode<B: Bus6502>(&mut self, bus: &mut B) -> (operand: (u16, u8))
        requires
            old(bus).inv(),
        ensures
            final(bus).inv(),
            machine(*final(self), *final(bus)).resolved(operand.0, operand.1)
                == model::immediate_mode::<B>(machine(*old(self), *old(bus))),
    {
        proof {
            reveal(model::immediate_mode);
        }
        let val = self.read_pc_byte(bus);
        (0, val)
    }

    /// The tail of the non-indexed memory modes.
    fn fetch_operand<B: Bus6502>(&mut self, addr: u16, bus: &mut B) -> (operand: (u16, u8))
        requires
            old(bus).inv(),
        ensures
            final(bus).inv(),
            machine(*final(self), *final(bus)).resolved(operand.0, operand.1) == model::operand::<
                B,
            >(machine(*old(self), *old(bus)), addr),
    {
        proof {
            reveal(model::operand);
        }
        let val = if self.op.reads_operand() {
            self.read(addr, bus)
        } else {
            0
        };
        if self.op.is_rmw() {
            self.write(addr, val, bus);
        }
        (addr, val)
    }

    /// The tail of the indexed memory modes.
    fn fetch_indexed_operand<B: Bus6502>(
        &mut self,
        addr: u16,
        carry: bool,
        wrong_value: u8,
        bus: &mut B,
    ) -> (operand: (u16, u8))
        requires
            old(bus).inv(),
        ensures
            final(bus).inv(),
            machine(*final(self), *final(bus)).resolved(operand.0, operand.1)
                == model::indexed_operand::<B>(
                machine(*old(self), *old(bus)),
                addr,
                carry,
                wrong_value,
            ),
    {
        proof {
            reveal(model::indexed_operand);
        }
        if self.op.is_rmw() {
            let val = self.read(addr, bus);
            self.write(addr, val, bus);
            (addr, val)
        } else if self.op.reads_operand() && carry {
            let val = self.read(addr, bus);
            (addr, val)
        } else {
            (addr, wrong_value)
        }
    }

    fn exec_zero_mode<B: Bus6502>(&mut self, bus: &mut B) -> (operand: (u16, u8))
        requires
            old(bus).inv(),
        ensures
            final(bus).inv(),
            machine(*final(self), *final(bus)).resolved(operand.0, operand.1)
                == model::zero_mode::<B>(machine(*old(self), *old(bus))),
    {
        proof {
            reveal(model::zero_mode);
        }
        let addr = self.read_pc_byte(bus) as u16;
        self.fetch_operand(addr, bus)
    }

    fn exec_zero_index_mode<B: Bus6502>(&mut self, index: u8, bus: &mut B) -> (operand: (u16, u8))
        requires
            old(bus).inv(),
        ensures
            final(bus).inv(),
            machine(*final(self), *final(bus)).resolved(operand.0, operand.1)
                == model::zero_index_mode::<B>(machine(*old(self), *old(bus)), index),
    {
        proof {
            reveal(model::zero_index_mode);
        }
        let base = self.read_pc_byte(bus);
        let _ = self.read(base as u16, bus);
        let addr = base.wrapping_add(index) as u16;
        self.fetch_operand(addr, bus)
    }

    fn exec_absolute_mode<B: Bus6502>(&mut self, bus: &mut B) -> (operand: (u16, u8))
        requires
            old(bus).inv(),
        ensures
            final(bus).inv(),
            machine(*final(self), *final(bus)).resolved(operand.0, operand.1)
                == model::absolute_mode::<B>(machine(*old(self), *old(bus))),
    {
        proof {
            reveal(model::absolute_mode);
        }
        let low = self.read_pc_byte(bus);
        let high = self.read_pc_byte(bus);
        let addr = make_word(low, high);
        self.fetch_operand(addr, bus)
    }

    fn exec_absolute_index_mode<B: Bus6502>(&mut self, index: u8, bus: &mut B) -> (operand: (
        u16,
        u8,
    ))
        requires
            old(bus).inv(),
        ensures
            final(bus).inv(),
            machine(*final(self), *final(bus)).resolved(operand.0, operand.1)
                == model::absolute_index_mode::<B>(machine(*old(self), *old(bus)), index),
    {
        proof {
            reveal(model::absolute_index_mode);
        }
        let low = self.read_pc_byte(bus);
        let high = self.read_pc_byte(bus);
        let carry = low as u16 + index as u16 > 255;
        let low = low.wrapping_add(index);
        let wrong_address = make_word(low, high);
        let high = if carry {
            high.wrapping_add(1)
        } else {
            high
        };
        let wrong_value = self.read(wrong_address, bus);
        let addr = make_word(low, high);
        self.fetch_indexed_operand(addr, carry, wrong_value, bus)
    }

    fn exec_indirect_mode<B: Bus6502>(&mut self, bus: &mut B) -> (operand: (u16, u8))
        requires
            old(bus).inv(),
        ensures
            final(bus).inv(),
            machine(*final(self), *final(bus)).resolved(operand.0, operand.1)
                == model::indirect_mode::<B>(machine(*old(self), *old(bus))),
    {
        proof {
            reveal(model::indirect_mode);
        }
        let low = self.read_pc_byte(bus);
        let high = self.read_pc_byte(bus);
        let low_inc = low.wrapping_add(1);

        let addr_low = self.read(make_word(low, high), bus);
        let addr_high = self.read(make_word(low_inc, high), bus);

        (make_word(addr_low, addr_high), 0)
    }

    fn exec_xindirect_mode<B: Bus6502>(&mut self, bus: &mut B) -> (operand: (u16, u8))
        requires
            old(bus).inv(),
        ensures
            final(bus).inv(),
            machine(*final(self), *final(bus)).resolved(operand.0, operand.1)
                == model::xindirect_mode::<B>(machine(*old(self), *old(bus))),
    {
        proof {
            reveal(model::xindirect_mode);
        }
        let offset = self.read_pc_byte(bus);
        self.read(offset as u16, bus);

        let ptr = offset.wrapping_add(self.x);
        let low = self.read(ptr as u16, bus);
        let high = self.read(ptr.wrapping_add(1) as u16, bus);
        let addr = make_word(low, high);
        self.fetch_operand(addr, bus)
    }

    fn exec_indirect_y_mode<B: Bus6502>(&mut self, bus: &mut B) -> (operand: (u16, u8))
        requires
            old(bus).inv(),
        ensures
            final(bus).inv(),
            machine(*final(self), *final(bus)).resolved(operand.0, operand.1)
                == model::indirect_y_mode::<B>(machine(*old(self), *old(bus))),
    {
        proof {
            reveal(model::indirect_y_mode);
        }
        let zero_ptr = self.read_pc_byte(bus);
        let low = self.read(zero_ptr as u16, bus);
        let high = self.read(zero_ptr.wrapping_add(1) as u16, bus);
        let carry = low as u16 + self.y as u16 > 255;
        let low = low.wrapping_add(self.y);
        let wrong_addr = make_word(low, high);
        let high = if carry {
            high.wrapping_add(1)
        } else {
            high
        };
        let addr = make_word(low, high);
        let wrong_val = self.read(wrong_addr, bus);
        self.fetch_indexed_operand(addr, carry, wrong_val, bus)
    }

    fn execute_op<B: Bus6502>(&mut self, addr: u16, val: u8, bus: &mut B)
        requires
            old(bus).inv(),
        ensures
            final(bus).inv(),
            machine(*final(self), *final(bus)) == model::execute_op::<B>(
                machine(*old(self), *old(bus)),
                addr,
                val,
            ),
    {
        proof {
            reveal(model::execute_op);
        }
        match self.op {
            Op::ADC | Op::AND | Op::BIT | Op::CMP | Op::CPX | Op::CPY | Op::EOR
            | Op::ORA | Op::SBC | Op::LDA | Op::LDX | Op::LDY => self.execute_alu_op(addr, val, bus),
            Op::BCC | Op::BCS | Op::BEQ | Op::BMI | Op::BNE | Op::BPL | Op::BVC
            | Op::BVS => self.execute_branch_op(addr, val, bus),
            Op::CLC | Op::CLD | Op::CLI | Op::CLV | Op::SEC | Op::SED | Op::SEI
            | Op::NOP => self.execute_flag_op(addr, val, bus),
            Op::DEX | Op::DEY | Op::INX | Op::INY | Op::TAX | Op::TAY | Op::TSX
            | Op::TXA | Op::TXS | Op::TYA => self.execute_register_op(addr, val, bus),
            Op::ASL | Op::DEC | Op::INC | Op::LSR | Op::ROL | Op::ROR | Op::STA
            | Op::STX | Op::STY => self.execute_memory_op(addr, val, bus),
            Op::BRK | Op::JMP | Op::JSR | Op::PHA | Op::PHP | Op::PLA | Op::PLP
            | Op::RTI | Op::RTS => self.execute_control_op(addr, val, bus),
            Op::ALR | Op::ANC | Op::ANE | Op::ARR | Op::LAS | Op::LAX | Op::LXA
            | Op::SBX | Op::JAM => self.execute_undocumented_register_op(addr, val, bus),
            Op::DCP | Op::ISC | Op::RLA | Op::RRA | Op::SAX | Op::SHA | Op::SHX
            | Op::SHY | Op::SLO | Op::SRE | Op::TAS => self.execute_undocumented_memory_op(addr, val, bus),
        }
    }

    /// The operation stage for the operations that combine a register with the operand.
    fn execute_alu_op<B: Bus6502>(&mut self, addr: u16, val: u8, bus: &mut B)
        requires
            old(bus).inv(),
            old(self)@.op == Op::ADC || old(self)@.op == Op::AND || old(self)@.op == Op::BIT
                || old(self)@.op == Op::CMP || old(self)@.op == Op::CPX
                || old(self)@.op == Op::CPY || old(self)@.op == Op::EOR
                || old(self)@.op == Op::ORA || old(self)@.op == Op::SBC
                || old(self)@.op == Op::LDA || old(self)@.op == Op::LDX
                || old(self)@.op == Op::LDY,
        ensures
            final(bus).inv(),
            machine(*final(self), *final(bus)) == model::alu_op::<B>(
                machine(*old(self), *old(bus)),
                addr,
                val,
            ),
    {
        proof {
            reveal(model::alu_op);
        }
        match self.op {
            Op::ADC => self.exec_adc(val),
            Op::AND => self.exec_and(val),
            Op::BIT => self.exec_bit(val),
            Op::CMP => self.exec_cmp(self.a, val),
            Op::CPX => self.exec_cmp(self.x, val),
            Op::CPY => self.exec_cmp(self.y, val),
            Op::EOR => self.exec_eor(val),
            Op::ORA => self.exec_ora(val),
            Op::SBC => self.exec_sbc(val),
            Op::LDA => self.exec_lda(val),
            Op::LDX => self.exec_ldx(val),
            Op::LDY => self.exec_ldy(val),
            _ => unreached(),
        }
    }

    /// The operation stage for the conditional branches.
    fn execute_branch_op<B: Bus6502>(&mut self, addr: u16, val: u8, bus: &mut B)
        requires
            old(bus).inv(),
            old(self)@.op == Op::BCC || old(self)@.op == Op::BCS || old(self)@.op == Op::BEQ
                || old(self)@.op == Op::BMI || old(self)@.op == Op::BNE
                || old(self)@.op == Op::BPL || old(self)@.op == Op::BVC
                || old(self)@.op == Op::BVS,
        ensures
            final(bus).inv(),
            machine(*final(self), *final(bus)) == model::branch_op::<B>(
                machine(*old(self), *old(bus)),
                addr,
                val,
            ),
    {
        proof {
            reveal(model::branch_op);
        }
        match self.op {
            Op::BCC => self.exec_branch(!self.status.carry(), val, bus),
            Op::BCS => self.exec_branch(self.status.carry(), val, bus),
            Op::BEQ => self.exec_branch(self.status.zero(), val, bus),
            Op::BMI => self.exec_branch(self.status.negative(), val, bus),
            Op::BNE => self.exec_branch(!self.status.zero(), val, bus),
            Op::BPL => self.exec_branch(!self.status.negative(), val, bus),
            Op::BVC => self.exec_branch(!self.status.overflow(), val, bus),
            Op::BVS => self.exec_branch(self.status.overflow(), val, bus),
            _ => unreached(),
        }
    }

    /// The operation stage for the operations that set or clear one flag, and NOP.
    fn execute_flag_op<B: Bus6502>(&mut self, addr: u16, val: u8, bus: &mut B)
        requires
            old(bus).inv(),
            old(self)@.op == Op::CLC || old(self)@.op == Op::CLD || old(self)@.op == Op::CLI
                || old(self)@.op == Op::CLV || old(self)@.op == Op::SEC
                || old(self)@.op == Op::SED || old(self)@.op == Op::SEI
                || old(self)@.op == Op::NOP,
        ensures
            final(bus).inv(),
            machine(*final(self), *final(bus)) == model::flag_op::<B>(
                machine(*old(self), *old(bus)),
                addr,
                val,
            ),
    {
        proof {
            reveal(model::flag_op);
        }
        match self.op {
            Op::CLC => self.status.set_carry(false),
            Op::CLD => self.status.set_decimal(false),
            Op::CLI => self.status.set_irq_disable(false),
            Op::CLV => self.status.set_overflow(false),
            Op::SEC => self.status.set_carry(true),
            Op::SED => self.status.set_decimal(true),
            Op::SEI => self.status.set_irq_disable(true),
            Op::NOP => (),
            _ => unreached(),
        }
    }

    /// The operation stage for the operations that work on registers alone.
    fn execute_register_op<B: Bus6502>(&mut self, addr: u16, val: u8, bus: &mut B)
        requires
            old(bus).inv(),
            old(self)@.op == Op::DEX || old(self)@.op == Op::DEY || old(self)@.op == Op::INX
                || old(self)@.op == Op::INY || old(self)@.op == Op::TAX
                || old(self)@.op == Op::TAY || old(self)@.op == Op::TSX
                || old(self)@.op == Op::TXA || old(self)@.op == Op::TXS
                || old(self)@.op == Op::TYA,
        ensures
            final(bus).inv(),
            machine(*final(self), *final(bus)) == model::register_op::<B>(
                machine(*old(self), *old(bus)),
                addr,
                val,
            ),
    {
        proof {
            reveal(model::register_op);
        }
        match self.op {
            Op::DEX => self.exec_dex(),
            Op::DEY => self.exec_dey(),
            Op::INX => self.exec_inx(),
            Op::INY => self.exec_iny(),
            Op::TAX => self.exec_tax(),
            Op::TAY => self.exec_tay(),
            Op::TSX => self.exec_tsx(),
            Op::TXA => self.exec_txa(),
            Op::TXS => self.sp = self.x,
            Op::TYA => self.exec_tya(),
            _ => unreached(),
        }
    }

    /// The operation stage for the shifts, increments, decrements and stores.
    fn execute_memory_op<B: Bus6502>(&mut self, addr: u16, val: u8, bus: &mut B)
        requires
            old(bus).inv(),
            old(self)@.op == Op::ASL || old(self)@.op == Op::DEC || old(self)@.op == Op::INC
                || old(self)@.op == Op::LSR || old(self)@.op == Op::ROL
                || old(self)@.op == Op::ROR || old(self)@.op == Op::STA
                || old(self)@.op == Op::STX || old(self)@.op == Op::STY,
        ensures
            final(bus).inv(),
            machine(*final(self), *final(bus)) == model::memory_op::<B>(
                machine(*old(self), *old(bus)),
                addr,
                val,
            ),
    {
        proof {
            reveal(model::memory_op);
        }
        match self.op {
            Op::ASL => self.exec_asl(addr, val, bus),
            Op::DEC => self.exec_dec(addr, val, bus),
            Op::INC => self.exec_inc(addr, val, bus),
            Op::LSR => self.exec_lsr(addr, val, bus),
            Op::ROL => self.exec_rol(addr, val, bus),
            Op::ROR => self.exec_ror(addr, val, bus),
            Op::STA => self.exec_sta(addr, bus),
            Op::STX => self.exec_stx(addr, bus),
            Op::STY => self.exec_sty(addr, bus),
            _ => unreached(),
        }
    }

    /// The operation stage for the jumps, the stack operations and the interrupt sequence.
    fn execute_control_op<B: Bus6502>(&mut self, addr: u16, val: u8, bus: &mut B)
        requires
            old(bus).inv(),
            old(self)@.op == Op::BRK || old(self)@.op == Op::JMP || old(self)@.op == Op::JSR
                || old(self)@.op == Op::PHA || old(self)@.op == Op::PHP
                || old(self)@.op == Op::PLA || old(self)@.op == Op::PLP
                || old(self)@.op == Op::RTI || old(self)@.op == Op::RTS,
        ensures
            final(bus).inv(),
            machine(*final(self), *final(bus)) == model::control_op::<B>(
                machine(*old(self), *old(bus)),
                addr,
                val,
            ),
    {
        proof {
            reveal(model::control_op);
        }
        match self.op {
            Op::BRK => self.exec_brk(bus),
            Op::JMP => self.pc = addr,
            Op::JSR => self.exec_jsr(addr, bus),
            Op::PHA => self.exec_pha(bus),
            Op::PHP => self.exec_php(bus),
            Op::PLA => self.exec_pla(bus),
            Op::PLP => self.exec_plp(bus),
            Op::RTI => self.exec_rti(bus),
            Op::RTS => self.exec_rts(bus),
            _ => unreached(),
        }
    }

    /// The operation stage for the undocumented operations that work on registers alone, and JAM.
    fn execute_undocumented_register_op<B: Bus6502>(&mut self, addr: u16, val: u8, bus: &mut B)
        requires
            old(bus).inv(),
            old(self)@.op == Op::ALR || old(self)@.op == Op::ANC || old(self)@.op == Op::ANE
                || old(self)@.op == Op::ARR || old(self)@.op == Op::LAS
                || old(self)@.op == Op::LAX || old(self)@.op == Op::LXA
                || old(self)@.op == Op::SBX || old(self)@.op == Op::JAM,
        ensures
            final(bus).inv(),
            machine(*final(self), *final(bus)) == model::undocumented_register_op::<B>(
                machine(*old(self), *old(bus)),
                addr,
                val,
            ),
    {
        proof {
            reveal(model::undocumented_register_op);
        }
        match self.op {
            Op::ALR => self.exec_alr(val),
            Op::ANC => self.exec_anc(val),
            Op::ANE => self.exec_ane(val),
            Op::ARR => self.exec_arr(val),
            Op::LAS => self.exec_las(val),
            Op::LAX => self.exec_lax(val),
            Op::LXA => self.exec_lxa(val),
            Op::SBX => self.exec_sbx(val),
            Op::JAM => self.exec_jam(),
            _ => unreached(),
        }
    }

    /// The operation stage for the undocumented operations that write memory.
    fn execute_undocumented_memory_op<B: Bus6502>(&mut self, addr: u16, val: u8, bus: &mut B)
        requires
            old(bus).inv(),
            old(self)@.op == Op::DCP || old(self)@.op == Op::ISC || old(self)@.op == Op::RLA
                || old(self)@.op == Op::RRA || old(self)@.op == Op::SAX
                || old(self)@.op == Op::SHA || old(self)@.op == Op::SHX
                || old(self)@.op == Op::SHY || old(self)@.op == Op::SLO
                || old(self)@.op == Op::SRE || old(self)@.op == Op::TAS,
        ensures
            final(bus).inv(),
            machine(*final(self), *final(bus)) == model::undocumented_memory_op::<B>(
                machine(*old(self), *old(bus)),
                addr,
                val,
            ),
    {
        proof {
            reveal(model::undocumented_memory_op);
        }
        match self.op {
            Op::DCP => self.exec_dcp(addr, val, bus),
            Op::ISC => self.exec_isc(addr, val, bus),
            Op::RLA => self.exec_rla(addr, val, bus),
            Op::RRA => self.exec_rra(addr, val, bus),
            Op::SAX => self.exec_sax(addr, bus),
            Op::SHA => self.exec_sha(addr, bus),
            Op::SHX => self.exec_shx(addr, bus),
            Op::SHY => self.exec_shy(addr, bus),
            Op::SLO => self.exec_slo(addr, val, bus),
            Op::SRE => self.exec_sre(addr, val, bus),
            Op::TAS => self.exec_tas(addr, bus),
            _ => unreached(),
        }
    }

    fn exec_adc(&mut self, val: u8)
        ensures
            final(self)@ == old(self)@.adc(val),
    {
        self.do_adc(val);
    }

    fn exec_and(&mut self, val: u8)
        ensures
            final(self)@ == old(self)@.and(val),
    {
        self.a = self.a & val;
        self.set_common_flags(self.a);
    }

    fn exec_asl<B: Bus6502>(&mut self, addr: u16, val: u8, bus: &mut B)
        requires
            old(bus).inv(),
        ensures
            final(bus).inv(),
            machine(*final(self), *final(bus)) == model::modify::<B>(
                machine(*old(self), *old(bus)),
                addr,
                old(self)@.asl(val),
            ),
    {
        proof {
            reveal(CpuState::asl);
        }
        self.status.set_carry(val >= 128);
        let res: u8 = (val % 128) * 2;
        self.set_common_flags(res);
        self.write_rmw_result(addr, res, bus);
    }

    fn exec_bit(&mut self, val: u8)
        ensures
            final(self)@ == old(self)@.bit(val),
    {
        proof {
            reveal(CpuState::bit);
        }
        self.status.set_negative(val >= 128);
        self.status.set_overflow((val / 64) % 2 == 1);
        self.status.set_zero(self.a & val == 0);
    }

    fn exec_branch<B: Bus6502>(&mut self, c: bool, val: u8, bus: &mut B)
        requires
            old(bus).inv(),
        ensures
            final(bus).inv(),
            machine(*final(self), *final(bus)) == model::branch::<B>(
                machine(*old(self), *old(bus)),
                c,
                val,
            ),
    {
        proof {
            reveal(model::branch);
        }
        if c {
            self.read(self.pc, bus);
            let ghost dummy = machine(*self, *bus);
            let target = branch_destination(self.pc, val);
            let same_page = make_word(low_of(target), self.pch());
            self.pc = same_page;
            assert(machine(*self, *bus) == dummy.with_cpu(
                CpuState { pc: same_page, ..dummy.cpu },
            ));
            if same_page != target {
                self.read(self.pc, bus);
                self.pc = target;
            }
        }
    }

    fn exec_brk<B: Bus6502>(&mut self, bus: &mut B)
        requires
            old(bus).inv(),
        ensures
            final(bus).inv(),
            machine(*final(self), *final(bus)) == model::brk::<B>(
                machine(*old(self), *old(bus)),
            ),
    {
        proof {
            reveal(model::brk);
        }
        if self.break_mode.increment_pc() {
            self.pc = self.pc.wrapping_add(1);
        }
        let suppress_writes = self.break_mode.suppress_writes();
        let ghost start = machine(*self, *bus);
        self.push_in_brk(suppress_writes, self.pch(), bus);
        let ghost first = machine(*self, *bus);
        assert(first == model::push_in_brk::<B>(start, suppress_writes, high_byte(start.cpu.pc)));
        self.push_in_brk(suppress_writes, self.pcl(), bus);
        let ghost second = machine(*self, *bus);
        assert(second == model::push_in_brk::<B>(first, suppress_writes, low_byte(first.cpu.pc)));
        let b_flag = self.break_mode.set_brk_flag();
        self.push_in_brk(suppress_writes, self.status.to_pushable_bits(b_flag), bus);
        let ghost third = machine(*self, *bus);
        self.status.set_irq_disable(true);
        let ghost masked = machine(*self, *bus);
        assert(masked == third.with_cpu(
            third.cpu.with_flags(Flags { irq_disable: true, ..third.cpu.flags }),
        ));

        let vector = self.break_mode.vector();
        let low = self.read(vector, bus);
        assert(machine(*self, *bus) == model::read::<B>(masked, vector));
        let high = self.read(vector + 1, bus);
        self.pc = make_word(low, high);
    }

    fn exec_cmp(&mut self, a: u8, b: u8)
        ensures
            final(self)@ == old(self)@.compare(a, b),
    {
        proof {
            reveal(CpuState::compare);
        }
        let res = a.wrapping_sub(b);
        self.status.set_carry(a >= b);
        self.set_common_flags(res);
    }

    fn exec_dec<B: Bus6502>(&mut self, addr: u16, val: u8, bus: &mut B)
        requires
            old(bus).inv(),
        ensures
            final(bus).inv(),
            machine(*final(self), *final(bus)) == model::modify::<B>(
                machine(*old(self), *old(bus)),
                addr,
                old(self)@.dec(val),
            ),
    {
        proof {
            reveal(CpuState::dec);
        }
        let val = val.wrapping_sub(1);
        self.set_common_flags(val);
        self.write_rmw_result(addr, val, bus);
    }

    fn exec_dex(&mut self)
        ensures
            final(self)@ == old(self)@.dex(),
    {
        proof {
            reveal(CpuState::dex);
        }
        self.x = self.x.wrapping_sub(1);
        self.set_common_flags(self.x);
    }

    fn exec_dey(&mut self)
        ensures
            final(self)@ == old(self)@.dey(),
    {
        proof {
            reveal(CpuState::dey);
        }
        self.y = self.y.wrapping_sub(1);
        self.set_common_flags(self.y);
    }

    fn exec_eor(&mut self, val: u8)
        ensures
            final(self)@ == old(self)@.eor(val),
    {
        self.a = self.a ^ val;
        self.set_common_flags(self.a);
    }

    fn exec_inc<B: Bus6502>(&mut self, addr: u16, val: u8, bus: &mut B)
        requires
            old(bus).inv(),
        ensures
            final(bus).inv(),
            machine(*final(self), *final(bus)) == model::modify::<B>(
                machine(*old(self), *old(bus)),
                addr,
                old(self)@.inc(val),
            ),
    {
        proof {
            reveal(CpuState::inc);
        }
        let val = val.wrapping_add(1);
        self.set_common_flags(val);
        self.write_rmw_result(addr, val, bus);
    }

    fn exec_inx(&mut self)
        ensures
            final(self)@ == old(self)@.inx(),
    {
        proof {
            reveal(CpuState::inx);
        }
        self.x = self.x.wrapping_add(1);
        self.set_common_flags(self.x);
    }

    fn exec_iny(&mut self)
        ensures
            final(self)@ == old(self)@.iny(),
    {
        proof {
            reveal(CpuState::iny);
        }
        self.y = self.y.wrapping_add(1);
        self.set_common_flags(self.y);
    }

    fn exec_jam(&mut self)
        ensures
            final(self)@ == model::jam(old(self)@),
    {
        self.meta.set_jammed(true);
        self.config_read(self.pc);
    }

    fn exec_jsr<B: Bus6502>(&mut self, addr: u16, bus: &mut B)
        requires
            old(bus).inv(),
        ensures
            final(bus).inv(),
            machine(*final(self), *final(bus)) == model::jsr::<B>(
                machine(*old(self), *old(bus)), addr,
            ),
    {
        proof {
            reveal(model::jsr);
        }
        self.read(stack_slot(self.sp), bus);
        assert(machine(*self, *bus) == model::read::<B>(
            machine(*old(self), *old(bus)),
            stack_address(old(self)@.sp),
        ));
        let ghost dummy = machine(*self, *bus);
        let pc = self.pc.wrapping_sub(1);
        assert(pc == ((dummy.cpu.pc - 1) % 0x10000) as u16);
        let pcl = (pc % 256) as u8;
        let pch = (pc / 256) as u8;
        self.push(pch, bus);
        assert(machine(*self, *bus) == model::push::<B>(dummy, high_byte(pc)));
        self.push(pcl, bus);
        self.pc = addr;
    }

    fn exec_lda(&mut self, val: u8)
        ensures
            final(self)@ == old(self)@.lda(val),
    {
        self.a = val;
        self.set_common_flags(val);
    }

    fn exec_ldx(&mut self, val: u8)
        ensures
            final(self)@ == old(self)@.ldx(val),
    {
        self.x = val;
        self.set_common_flags(val);
    }

    fn exec_ldy(&mut self, val: u8)
        ensures
            final(self)@ == old(self)@.ldy(val),
    {
        self.y = val;
        self.set_common_flags(val);
    }

    fn exec_lsr<B: Bus6502>(&mut self, addr: u16, val: u8, bus: &mut B)
        requires
            old(bus).inv(),
        ensures
            final(bus).inv(),
            machine(*final(self), *final(bus)) == model::modify::<B>(
                machine(*old(self), *old(bus)),
                addr,
                old(self)@.lsr(val),
            ),
    {
        proof {
            reveal(CpuState::lsr);
        }
        self.status.set_carry(val % 2 == 1);
        let res: u8 = val / 2;
        self.set_common_flags(res);
        self.write_rmw_result(addr, res, bus);
    }

    fn exec_ora(&mut self, val: u8)
        ensures
            final(self)@ == old(self)@.ora(val),
    {
        self.a = self.a | val;
        self.set_common_flags(self.a);
    }

    fn exec_pha<B: Bus6502>(&mut self, bus: &mut B)
        requires
            old(bus).inv(),
        ensures
            final(bus).inv(),
            machine(*final(self), *final(bus)) == model::pha::<B>(
                machine(*old(self), *old(bus)),
            ),
    {
        proof {
            reveal(model::pha);
        }
        self.push(self.a, bus);
    }

    fn exec_php<B: Bus6502>(&mut self, bus: &mut B)
        requires
            old(bus).inv(),
        ensures
            final(bus).inv(),
            machine(*final(self), *final(bus)) == model::php::<B>(
                machine(*old(self), *old(bus)),
            ),
    {
        proof {
            reveal(model::php);
        }
        let bits = self.status.to_pushable_bits(true);
        self.push(bits, bus);
    }

    fn exec_pla<B: Bus6502>(&mut self, bus: &mut B)
        requires
            old(bus).inv(),
        ensures
            final(bus).inv(),
            machine(*final(self), *final(bus)) == model::pla::<B>(
                machine(*old(self), *old(bus)),
            ),
    {
        proof {
            reveal(model::pla);
        }
        self.a = self.pull_first(bus);
        self.set_common_flags(self.a);
    }

    fn exec_plp<B: Bus6502>(&mut self, bus: &mut B)
        requires
            old(bus).inv(),
        ensures
            final(bus).inv(),
            machine(*final(self), *final(bus)) == model::plp::<B>(
                machine(*old(self), *old(bus)),
            ),
    {
        proof {
            reveal(model::plp);
        }
        let bits = self.pull_first(bus);
        self.status = Status::from_pushable_bits(bits);
    }

    fn exec_rol<B: Bus6502>(&mut self, addr: u16, val: u8, bus: &mut B)
        requires
            old(bus).inv(),
        ensures
            final(bus).inv(),
            machine(*final(self), *final(bus)) == model::modify::<B>(
                machine(*old(self), *old(bus)),
                addr,
                old(self)@.rol(val),
            ),
    {
        proof {
            reveal(CpuState::rol);
        }
        let new_carry = val >= 128;
        let old_carry: u8 = if self.status.carry() {
            1
        } else {
            0
        };
        let res: u8 = (val % 128) * 2 + old_carry;

        self.status.set_carry(new_carry);
        self.set_common_flags(res);
        self.write_rmw_result(addr, res, bus);
    }

    fn exec_ror<B: Bus6502>(&mut self, addr: u16, val: u8, bus: &mut B)
        requires
            old(bus).inv(),
        ensures
            final(bus).inv(),
            machine(*final(self), *final(bus)) == model::modify::<B>(
                machine(*old(self), *old(bus)),
                addr,
                old(self)@.ror(val),
            ),
    {
        proof {
            reveal(CpuState::ror);
        }
        let new_carry = val % 2 == 1;
        let old_carry: u8 = if self.status.carry() {
            128
        } else {
            0
        };
        let res: u8 = val / 2 + old_carry;

        self.status.set_carry(new_carry);
        self.set_common_flags(res);
        self.write_rmw_result(addr, res, bus);
    }

    fn exec_rti<B: Bus6502>(&mut self, bus: &mut B)
        requires
            old(bus).inv(),
        ensures
            final(bus).inv(),
            machine(*final(self), *final(bus)) == model::rti::<B>(
                machine(*old(self), *old(bus)),
            ),
    {
        proof {
            reveal(model::rti);
        }
        let bits = self.pull_first(bus);
        self.status = Status::from_pushable_bits(bits);
        let pcl = self.pull_next(bus);
        let pch = self.pull_next(bus);

        self.pc = make_word(pcl, pch);
    }

    fn exec_rts<B: Bus6502>(&mut self, bus: &mut B)
        requires
            old(bus).inv(),
        ensures
            final(bus).inv(),
            machine(*final(self), *final(bus)) == model::rts::<B>(
                machine(*old(self), *old(bus)),
            ),
    {
        proof {
            reveal(model::rts);
        }
        let pcl = self.pull_first(bus);
        let pch = self.pull_next(bus);

        self.pc = make_word(pcl, pch);
        self.read(self.pc, bus);
        self.pc = self.pc.wrapping_add(1);
    }

    fn exec_sbc(&mut self, val: u8)
        ensures
            final(self)@ == old(self)@.sbc(val),
    {
        self.do_sbc(val)
    }

    fn exec_sta<B: Bus6502>(&mut self, addr: u16, bus: &mut B)
        requires
            old(bus).inv(),
        ensures
            final(bus).inv(),
            machine(*final(self), *final(bus)) == model::write::<B>(
                machine(*old(self), *old(bus)),
                addr,
                old(self)@.a,
            ),
    {
        self.write(addr, self.a, bus);
    }

    fn exec_stx<B: Bus6502>(&mut self, addr: u16, bus: &mut B)
        requires
            old(bus).inv(),
        ensures
            final(bus).inv(),
            machine(*final(self), *final(bus)) == model::write::<B>(
                machine(*old(self), *old(bus)),
                addr,
                old(self)@.x,
            ),
    {
        self.write(addr, self.x, bus);
    }

    fn exec_sty<B: Bus6502>(&mut self, addr: u16, bus: &mut B)
        requires
            old(bus).inv(),
        ensures
            final(bus).inv(),
            machine(*final(self), *final(bus)) == model::write::<B>(
                machine(*old(self), *old(bus)),
                addr,
                old(self)@.y,
            ),
    {
        self.write(addr, self.y, bus);
    }

    fn exec_tax(&mut self)
        ensures
            final(self)@ == old(self)@.tax(),
    {
        self.x = self.a;
        self.set_common_flags(self.x);
    }

    fn exec_tay(&mut self)
        ensures
            final(self)@ == old(self)@.tay(),
    {
        self.y = self.a;
        self.set_common_flags(self.y);
    }

    fn exec_tsx(&mut self)
        ensures
            final(self)@ == old(self)@.tsx(),
    {
        self.x = self.sp;
        self.set_common_flags(self.x);
    }

    fn exec_txa(&mut self)
        ensures
            final(self)@ == old(self)@.txa(),
    {
        self.a = self.x;
        self.set_common_flags(self.a);
    }

    fn exec_tya(&mut self)
        ensures
            final(self)@ == old(self)@.tya(),
    {
        self.a = self.y;
        self.set_common_flags(self.a);
    }


    fn exec_dcp<B: Bus6502>(&mut self, addr: u16, val: u8, bus: &mut B)
        requires
            old(bus).inv(),
        ensures
            final(bus).inv(),
            machine(*final(self), *final(bus)) == model::modify::<B>(
                machine(*old(self), *old(bus)),
                addr,
                old(self)@.dcp(val),
            ),
    {
        proof {
            reveal(CpuState::dcp);
            reveal(CpuState::compare);
        }
        let r = val.wrapping_sub(1);

        let cmp_r = self.a.wrapping_sub(r);
        self.status.set_carry(self.a >= r);
        self.set_common_flags(cmp_r);
        self.write_rmw_result(addr, r, bus);
    }

    fn exec_isc<B: Bus6502>(&mut self, addr: u16, val: u8, bus: &mut B)
        requires
            old(bus).inv(),
        ensures
            final(bus).inv(),
            machine(*final(self), *final(bus)) == model::modify::<B>(
                machine(*old(self), *old(bus)),
                addr,
                old(self)@.isc(val),
            ),
    {
        proof {
            reveal(CpuState::isc);
        }
        let val = val.wrapping_add(1);
        self.do_sbc(val);
        self.write_rmw_result(addr, val, bus);
    }

    fn exec_lax(&mut self, val: u8)
        ensures
            final(self)@ == old(self)@.lax(val),
    {
        self.a = val;
        self.x = val;
        self.set_common_flags(val);
    }

    fn exec_sax<B: Bus6502>(&mut self, addr: u16, bus: &mut B)
        requires
            old(bus).inv(),
        ensures
            final(bus).inv(),
            machine(*final(self), *final(bus)) == model::write::<B>(
                machine(*old(self), *old(bus)),
                addr,
                old(self)@.a & old(self)@.x,
            ),
    {
        self.write(addr, self.a & self.x, bus);
    }

    fn exec_rla<B: Bus6502>(&mut self, addr: u16, val: u8, bus: &mut B)
        requires
            old(bus).inv(),
        ensures
            final(bus).inv(),
            machine(*final(self), *final(bus)) == model::modify::<B>(
                machine(*old(self), *old(bus)),
                addr,
                old(self)@.rla(val),
            ),
    {
        proof {
            reveal(CpuState::rla);
        }
        let val_low: u8 = if self.status.carry() {
            1
        } else {
            0
        };
        self.status.set_carry(val >= 128);
        let val: u8 = (val % 128) * 2 + val_low;

        self.a = self.a & val;
        self.set_common_flags(self.a);
        self.write_rmw_result(addr, val, bus);
    }

    fn exec_rra<B: Bus6502>(&mut self, addr: u16, val: u8, bus: &mut B)
        requires
            old(bus).inv(),
        ensures
            final(bus).inv(),
            machine(*final(self), *final(bus)) == model::modify::<B>(
                machine(*old(self), *old(bus)),
                addr,
                old(self)@.rra(val),
            ),
    {
        proof {
            reveal(CpuState::rra);
        }
        let val_low: u8 = if self.status.carry() {
            128
        } else {
            0
        };
        self.status.set_carry(val % 2 == 1);
        let val: u8 = val / 2 + val_low;

        self.do_adc(val);
        self.write_rmw_result(addr, val, bus);
    }

    fn exec_slo<B: Bus6502>(&mut self, addr: u16, val: u8, bus: &mut B)
        requires
            old(bus).inv(),
        ensures
            final(bus).inv(),
            machine(*final(self), *final(bus)) == model::modify::<B>(
                machine(*old(self), *old(bus)),
                addr,
                old(self)@.slo(val),
            ),
    {
        proof {
            reveal(CpuState::slo);
        }
        self.status.set_carry(val >= 128);
        let val: u8 = (val % 128) * 2;
        self.a = self.a | val;
        self.set_common_flags(self.a);
        self.write_rmw_result(addr, val, bus);
    }

    fn exec_sre<B: Bus6502>(&mut self, addr: u16, val: u8, bus: &mut B)
        requires
            old(bus).inv(),
        ensures
            final(bus).inv(),
            machine(*final(self), *final(bus)) == model::modify::<B>(
                machine(*old(self), *old(bus)),
                addr,
                old(self)@.sre(val),
            ),
    {
        proof {
            reveal(CpuState::sre);
        }
        self.status.set_carry(val % 2 == 1);
        let val: u8 = val / 2;

        self.a = self.a ^ val;
        self.set_common_flags(self.a);
        self.write_rmw_result(addr, val, bus);
    }

    fn exec_alr(&mut self, val: u8)
        ensures
            final(self)@ == old(self)@.alr(val),
    {
        proof {
            reveal(CpuState::alr);
        }
        let masked = self.a & val;
        self.status.set_carry(masked % 2 == 1);
        self.a = masked / 2;
        self.set_common_flags(self.a);
    }

    fn exec_anc(&mut self, val: u8)
        ensures
            final(self)@ == old(self)@.anc(val),
    {
        proof {
            reveal(CpuState::anc);
        }
        self.a = self.a & val;
        self.set_common_flags(self.a);
        self.status.set_carry(self.a >= 128);
    }

    fn exec_ane(&mut self, val: u8)
        ensures
            final(self)@ == old(self)@.ane(val),
    {
        self.a = self.x & val;
        self.set_common_flags(self.a);
    }

    fn exec_arr(&mut self, val: u8)
        ensures
            final(self)@ == old(self)@.arr(val),
    {
        proof {
            reveal(CpuState::arr);
        }
        let masked = self.a & val;
        let carry_in: u8 = if self.status.carry() {
            128
        } else {
            0
        };
        let res: u8 = masked / 2 + carry_in;
        let bit6 = (res / 64) % 2 == 1;
        let bit5 = (res / 32) % 2 == 1;
        self.a = res;
        self.set_common_flags(res);
        self.status.set_carry(bit6);
        self.status.set_overflow(bit6 != bit5);
    }

    fn exec_las(&mut self, val: u8)
        ensures
            final(self)@ == old(self)@.las(val),
    {
        proof {
            reveal(CpuState::las);
        }
        let res = val & self.sp;
        self.a = res;
        self.x = res;
        self.sp = res;
        self.set_common_flags(res);
    }

    fn exec_lxa(&mut self, val: u8)
        ensures
            final(self)@ == old(self)@.lxa(val),
    {
        self.a = val;
        self.x = val;
        self.set_common_flags(val);
    }

    fn exec_sbx(&mut self, val: u8)
        ensures
            final(self)@ == old(self)@.sbx(val),
    {
        proof {
            reveal(CpuState::sbx);
        }
        let masked = self.a & self.x;
        self.status.set_carry(masked >= val);
        self.x = masked.wrapping_sub(val);
        self.set_common_flags(self.x);
    }

    fn exec_sha<B: Bus6502>(&mut self, addr: u16, bus: &mut B)
        requires
            old(bus).inv(),
        ensures
            final(bus).inv(),
            machine(*final(self), *final(bus)) == model::write::<B>(
                machine(*old(self), *old(bus)),
                addr,
                CpuState::high_masked(old(self)@.a & old(self)@.x, addr),
            ),
    {
        self.write(addr, high_mask(self.a & self.x, addr), bus);
    }

    fn exec_shx<B: Bus6502>(&mut self, addr: u16, bus: &mut B)
        requires
            old(bus).inv(),
        ensures
            final(bus).inv(),
            machine(*final(self), *final(bus)) == model::write::<B>(
                machine(*old(self), *old(bus)),
                addr,
                CpuState::high_masked(old(self)@.x, addr),
            ),
    {
        self.write(addr, high_mask(self.x, addr), bus);
    }

    fn exec_shy<B: Bus6502>(&mut self, addr: u16, bus: &mut B)
        requires
            old(bus).inv(),
        ensures
            final(bus).inv(),
            machine(*final(self), *final(bus)) == model::write::<B>(
                machine(*old(self), *old(bus)),
                addr,
                CpuState::high_masked(old(self)@.y, addr),
            ),
    {
        self.write(addr, high_mask(self.y, addr), bus);
    }

    fn exec_tas<B: Bus6502>(&mut self, addr: u16, bus: &mut B)
        requires
            old(bus).inv(),
        ensures
            final(bus).inv(),
            machine(*final(self), *final(bus)) == model::tas::<B>(
                machine(*old(self), *old(bus)), addr,
            ),
    {
        proof {
            reveal(model::tas);
        }
        self.sp = self.a & self.x;
        self.write(addr, high_mask(self.sp, addr), bus);
    }


    /// One pull: a dummy read of the current stack slot, then the read of
    /// the slot above it.
    fn pull_first<B: Bus6502>(&mut self, bus: &mut B) -> (data: u8)
        requires
            old(bus).inv(),
        ensures
            final(bus).inv(),
            machine(*final(self), *final(bus)) == model::pull_first::<B>(
                machine(*old(self), *old(bus)),
            ),
            data == final(self)@.pins.data,
    {
        proof {
            reveal(model::pull_first);
        }
        self.read(stack_slot(self.sp), bus);
        self.pull_next(bus)
    }

    /// A further pull: the read of the slot above the current one.
    fn pull_next<B: Bus6502>(&mut self, bus: &mut B) -> (data: u8)
        requires
            old(bus).inv(),
        ensures
            final(bus).inv(),
            machine(*final(self), *final(bus)) == model::pull_next::<B>(
                machine(*old(self), *old(bus)),
            ),
            data == final(self)@.pins.data,
    {
        proof {
            reveal(model::pull_next);
        }
        self.sp = self.sp.wrapping_add(1);
        self.read(stack_slot(self.sp), bus)
    }

    fn do_adc(&mut self, val: u8)
        ensures
            final(self)@ == old(self)@.adc(val),
    {
        proof {
            reveal(CpuState::adc);
        }
        let carry_in: u16 = if self.status.carry() {
            1
        } else {
            0
        };
        let sum: u16 = self.a as u16 + val as u16 + carry_in;
        let res: u8 = (sum % 256) as u8;
        // Signed overflow: both inputs share a sign that the result lacks.
        let overflow = (self.a >= 128) == (val >= 128) && (res >= 128) != (self.a >= 128);

        self.a = res;
        self.set_common_flags(self.a);
        self.status.set_carry(sum > 255);
        self.status.set_overflow(overflow);
    }

    fn do_sbc(&mut self, val: u8)
        ensures
            final(self)@ == old(self)@.sbc(val),
    {
        proof {
            reveal(CpuState::sbc);
        }
        let borrow_in: i16 = if self.status.carry() {
            0
        } else {
            1
        };
        let difference: i16 = self.a as i16 - val as i16 - borrow_in;
        let res: u8 = if difference < 0 {
            (difference + 256) as u8
        } else {
            difference as u8
        };
        // Signed overflow: the inputs differ in sign and the result left the
        // accumulator's side.
        let overflow = (self.a >= 128) != (val >= 128) && (res >= 128) != (self.a >= 128);

        self.status.set_overflow(overflow);
        self.status.set_carry(difference >= 0);
        self.set_common_flags(res);
        self.a = res;
    }

    fn write_rmw_result<B: Bus6502>(&mut self, addr: u16, val: u8, bus: &mut B)
        requires
            old(bus).inv(),
        ensures
            final(bus).inv(),
            machine(*final(self), *final(bus)) == model::write_rmw_result::<B>(
                machine(*old(self), *old(bus)),
                addr,
                val,
            ),
    {
        match self.addr_mode {
            AddrMode::Accumulator => self.a = val,
            _ => self.write(addr, val, bus),
        }
    }

    fn config_read_pc_byte(&mut self)
        ensures
            final(self)@ == old(self)@.config_read_pc_byte(),
    {
        self.config_read(self.pc);
        self.pc = self.pc.wrapping_add(1);
    }

    fn read_pc_byte<B: Bus6502>(&mut self, bus: &mut B) -> (data: u8)
        requires
            old(bus).inv(),
        ensures
            final(bus).inv(),
            machine(*final(self), *final(bus)) == model::read_pc_byte::<B>(
                machine(*old(self), *old(bus)),
            ),
            data == final(self)@.pins.data,
    {
        self.config_read_pc_byte();
        self.cycle(bus);
        self.pins.data()
    }

    fn config_read(&mut self, address: u16)
        ensures
            final(self)@ == old(self)@.config_read(address),
    {
        self.pins.set_address(address);
        self.pins.set_read(true);
    }

    fn config_write(&mut self, address: u16, data: u8)
        ensures
            final(self)@ == old(self)@.config_write(address, data),
    {
        self.pins.set_address(address);
        self.pins.set_data(data);
        self.pins.set_read(false);
    }

    fn config_push(&mut self, suppress: bool, data: u8)
        ensures
            final(self)@ == old(self)@.config_push(suppress, data),
    {
        self.pins.set_address(stack_slot(self.sp));
        self.pins.set_data(data);
        self.sp = self.sp.wrapping_sub(1);
        self.pins.set_read(suppress);
    }

    fn push_in_brk<B: Bus6502>(&mut self, suppress: bool, data: u8, bus: &mut B)
        requires
            old(bus).inv(),
        ensures
            final(bus).inv(),
            machine(*final(self), *final(bus)) == model::push_in_brk::<B>(
                machine(*old(self), *old(bus)),
                suppress,
                data,
            ),
    {
        self.config_push(suppress, data);
        self.cycle(bus);
    }

    fn push<B: Bus6502>(&mut self, data: u8, bus: &mut B)
        requires
            old(bus).inv(),
        ensures
            final(bus).inv(),
            machine(*final(self), *final(bus)) == model::push::<B>(
                machine(*old(self), *old(bus)),
                data,
            ),
    {
        self.push_in_brk(false, data, bus);
    }

    fn read<B: Bus6502>(&mut self, address: u16, bus: &mut B) -> (data: u8)
        requires
            old(bus).inv(),
        ensures
            final(bus).inv(),
            machine(*final(self), *final(bus)) == model::read::<B>(
                machine(*old(self), *old(bus)),
                address,
            ),
            data == final(self)@.pins.data,
    {
        self.config_read(address);
        self.cycle(bus);
        self.pins.data()
    }

    fn write<B: Bus6502>(&mut self, addr: u16, val: u8, bus: &mut B)
        requires
            old(bus).inv(),
        ensures
            final(bus).inv(),
            machine(*final(self), *final(bus)) == model::write::<B>(
                machine(*old(self), *old(bus)),
                addr,
                val,
            ),
    {
        self.config_write(addr, val);
        self.cycle(bus);
    }

    fn set_common_flags(&mut self, val: u8)
        ensures
            final(self)@ == old(self)@.common_flags(val),
    {
        self.status.set_zero(val == 0);
        self.status.set_negative(val >= 128);
    }

    fn pch(&self) -> (high: u8)
        ensures
            high == high_byte(self@.pc),
    {
        (self.pc / 256) as u8
    }

    fn pcl(&self) -> (low: u8)
        ensures
            low == low_byte(self@.pc),
    {
        (self.pc % 256) as u8
    }

    fn cycle<B: Bus6502>(&mut self, bus: &mut B)
        requires
            old(bus).inv(),
        ensures
            final(bus).inv(),
            machine(*final(self), *final(bus)) == model::cycle::<B>(machine(*old(self), *old(bus))),
    {
        self.advance_cycle(true, bus);
    }

    fn advance_cycle<B: Bus6502>(&mut self, poll: bool, bus: &mut B)
        requires
            old(bus).inv(),
        ensures
            final(bus).inv(),
            machine(*final(self), *final(bus)) == model::advance_cycle::<B>(
                machine(*old(self), *old(bus)),
                poll,
            ),
    {
        reveal(model::advance_cycle);
        loop
            invariant_except_break
                model::advance_cycle::<B>(machine(*self, *bus), poll) == model::advance_cycle::<B>(
                    machine(*old(self), *old(bus)),
                    poll,
                ),
            invariant
                bus.inv(),
            ensures
                bus.inv(),
                machine(*self, *bus).with_cpu(
                    self@.with_pins(PinState { halt: false, ..self@.pins }),
                ) == model::advance_cycle::<B>(machine(*old(self), *old(bus)), poll),
            decreases B::stall(bus@),
        {
            reveal(model::advance_cycle);
            if poll {
                self.poll_interrupts();
            }
            self.update_meta_latches();
            bus.cycle(self);

            let write = !self.pins.read();
            let ready = !self.pins.not_ready();
            // The 6502 cannot halt on a write cycle
            if write || ready {
                break ;
            }
            self.pins.set_halt(true);
        }

        self.pins.set_halt(false);
    }

    fn poll_interrupts(&mut self)
        ensures
            final(self)@ == old(self)@.poll_interrupts(),
    {
        self.interrupts.set_irq(self.pins.irq() && !self.status.irq_disable());
        self.interrupts.or_nmi(self.pins.nmi() && !self.meta.last_nmi());
        self.interrupts.or_reset(self.pins.rst());
    }

    fn update_meta_latches(&mut self)
        ensures
            final(self)@ == old(self)@.update_meta_latches(),
    {
        self.meta.set_last_nmi(self.pins.nmi());
        self.meta.set_last_rst(self.pins.rst());
    }

    /// The accumulator.
    pub fn a(&self) -> (a: u8)
        ensures
            a == self@.a,
    {
        self.a
    }

    /// The X index register.
    pub fn x(&self) -> (x: u8)
        ensures
            x == self@.x,
    {
        self.x
    }

    /// The Y index register.
    pub fn y(&self) -> (y: u8)
        ensures
            y == self@.y,
    {
        self.y
    }

    /// The stack pointer.
    pub fn sp(&self) -> (sp: u8)
        ensures
            sp == self@.sp,
    {
        self.sp
    }

    /// The program counter.
    pub fn pc(&self) -> (pc: u16)
        ensures
            pc == self@.pc,
    {
        self.pc
    }

    /// The status register.
    pub fn status(&self) -> (status: Status)
        ensures
            status@ == self@.flags,
    {
        self.status
    }

    /// Whether a JAM opcode has stopped the processor.
    pub fn jammed(&self) -> (jammed: bool)
        ensures
            jammed == self@.meta.jammed,
    {
        self.meta.jammed()
    }

    /// Forces the program counter and drops every pending interrupt.
    pub fn poke_pc(&mut self, pc: u16)
        ensures
            final(self)@ == (CpuState {
                pc,
                pending: Pending { irq: false, nmi: false, reset: false },
                ..old(self)@
            }),
    {
        self.interrupts.clear();
        self.pc = pc;
    }

    /// The pins, for the bus to drive.
    pub fn pins_mut(&mut self) -> (pins: &mut CpuPins)
        ensures
            pins@ == old(self)@.pins,
            final(self)@ == old(self)@.with_pins(final(pins)@),
    {
        &mut self.pins
    }

    /// The pins as they stand.
    pub fn pins(&self) -> (pins: CpuPins)
        ensures
            pins@ == self@.pins,
    {
        self.pins
    }

    /// The instruction that was fetched last.
    pub fn instruction(&self) -> (instruction: (Op, AddrMode))
        ensures
            instruction == (self@.op, self@.addr_mode),
    {
        (self.op, self.addr_mode)
    }

    /// Whether the instruction in progress is an interrupt sequence.
    pub fn is_doing_interrupt(&self) -> (serving: bool)
        ensures
            serving == (self@.break_mode != BreakMode::Break),
    {
        self.break_mode != BreakMode::Break
    }
}

/// The word with the given low and high byte.
fn make_word(low: u8, high: u8) -> (w: u16)
    ensures
        w == word(low, high),
{
    low as u16 + (high as u16) * 256
}

/// The low byte of `word`.
fn low_of(word: u16) -> (low: u8)
    ensures
        low == low_byte(word),
{
    (word % 256) as u8
}

/// Where a branch at `pc` with the given displacement lands.
fn branch_destination(pc: u16, displacement: u8) -> (target: u16)
    ensures
        target == branch_target(pc, displacement),
{
    if displacement < 128 {
        pc.wrapping_add(displacement as u16)
    } else {
        pc.wrapping_sub(256 - displacement as u16)
    }
}

/// The address of the stack slot that `sp` points at.
fn stack_slot(sp: u8) -> (address: u16)
    ensures
        address == stack_address(sp),
{
    0x100 + sp as u16
}

/// `register` masked with the high byte of `addr` plus one.
fn high_mask(register: u8, addr: u16) -> (byte: u8)
    ensures
        byte == CpuState::high_masked(register, addr),
{
    proof {
        reveal(CpuState::high_masked);
    }
    let high: u8 = (addr / 256) as u8;
    register & high.wrapping_add(1)
}

} // verus!
