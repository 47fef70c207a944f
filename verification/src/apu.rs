//! The part of the processor package around the 6502 core: the sprite DMA
//! unit, the frame counter with its interrupt, and the two controller
//! ports.

use vstd::array::spec_array_update;
use vstd::prelude::*;

use crate::cpu::PinState;
use crate::nesbus::CpuBus;
use crate::util::{
    bit_u8, get_flag_u8, lemma_bit_with_bit_u8, lemma_no_bit_in_zero, set_flag_u8, with_bit_u8,
};

pub mod laws;

verus! {

broadcast use lemma_bit_with_bit_u8;

const IRQ: u8 = 0;
const NMI: u8 = 1;
const RW: u8 = 2;
const SYNC: u8 = 3;

/// The levels on the outward pins of the processor package.
pub struct BusLines {
    pub addr: u16,
    pub data: u8,
    pub irq: bool,
    pub nmi: bool,
    pub rw: bool,
    pub sync: bool,
}

/// The outward pins of the processor package: address, data, the two
/// interrupt inputs, read/write and the opcode fetch indicator.
#[derive(Copy, Clone, Debug, PartialEq, Eq)]
pub struct Bus {
    pub addr: u16,
    pub data: u8,
    flags: u8,
}

/// The levels that the fields of a [`Bus`] stand for.
#[verifier::opaque]
spec fn bus_lines(bus: Bus) -> BusLines {
    BusLines {
        addr: bus.addr,
        data: bus.data,
        irq: bit_u8(bus.flags, IRQ),
        nmi: bit_u8(bus.flags, NMI),
        rw: bit_u8(bus.flags, RW),
        sync: bit_u8(bus.flags, SYNC),
    }
}

impl View for Bus {
    type V = BusLines;

    closed spec fn view(&self) -> BusLines {
        bus_lines(*self)
    }
}

impl Bus {
    /// Every line low.
    pub fn new() -> (bus: Self)
        ensures
            bus@ == (BusLines { addr: 0, data: 0, irq: false, nmi: false, rw: false, sync: false }),
    {
        proof {
            reveal(bus_lines);
            lemma_no_bit_in_zero();
        }
        Self { addr: 0, data: 0, flags: 0 }
    }

    /// The pins as a processor bus would carry them: reset, not-ready and
    /// halt do not leave the package and read as low.
    pub fn from_cpu_bus(bus: CpuBus) -> (pins: Self)
        ensures
            pins@ == (BusLines {
                addr: bus@.address,
                data: bus@.data,
                irq: bus@.irq,
                nmi: bus@.nmi,
                rw: bus@.read,
                sync: bus@.sync,
            }),
    {
        let mut pins = Self::new();
        proof {
            reveal(bus_lines);
        }
        pins.addr = bus.address();
        pins.data = bus.data();
        pins.set_irq(bus.irq());
        pins.set_nmi(bus.nmi());
        pins.set_rw(bus.read());
        pins.set_sync(bus.sync());
        pins
    }

    /// Level of the interrupt request line.
    pub fn irq(self) -> (level: bool)
        ensures
            level == self@.irq,
    {
        proof {
            reveal(bus_lines);
        }
        get_flag_u8(self.flags, IRQ)
    }

    /// Level of the non-maskable interrupt line.
    pub fn nmi(self) -> (level: bool)
        ensures
            level == self@.nmi,
    {
        proof {
            reveal(bus_lines);
        }
        get_flag_u8(self.flags, NMI)
    }

    /// Level of the read/write line, high for a read.
    pub fn rw(self) -> (level: bool)
        ensures
            level == self@.rw,
    {
        proof {
            reveal(bus_lines);
        }
        get_flag_u8(self.flags, RW)
    }

    /// Level of the opcode fetch line.
    pub fn sync(self) -> (level: bool)
        ensures
            level == self@.sync,
    {
        proof {
            reveal(bus_lines);
        }
        get_flag_u8(self.flags, SYNC)
    }

    /// Drives the interrupt request line.
    pub fn set_irq(&mut self, to: bool)
        ensures
            final(self)@ == (BusLines { irq: to, ..old(self)@ }),
    {
        proof {
            reveal(bus_lines);
        }
        set_flag_u8(&mut self.flags, IRQ, to)
    }

    /// Drives the non-maskable interrupt line.
    pub fn set_nmi(&mut self, to: bool)
        ensures
            final(self)@ == (BusLines { nmi: to, ..old(self)@ }),
    {
        proof {
            reveal(bus_lines);
        }
        set_flag_u8(&mut self.flags, NMI, to)
    }

    /// Drives the read/write line, high for a read.
    pub fn set_rw(&mut self, to: bool)
        ensures
            final(self)@ == (BusLines { rw: to, ..old(self)@ }),
    {
        proof {
            reveal(bus_lines);
        }
        set_flag_u8(&mut self.flags, RW, to)
    }

    /// Drives the opcode fetch line.
    pub fn set_sync(&mut self, to: bool)
        ensures
            final(self)@ == (BusLines { sync: to, ..old(self)@ }),
    {
        proof {
            reveal(bus_lines);
        }
        set_flag_u8(&mut self.flags, SYNC, to)
    }
}

/// Frame counter cycles in one pass of the four-step sequence.
pub const APU_CYCLES_PER_FRAME: u32 = 14915;

/// The frame counter cycles at which the sequence steps: the first mark.
pub const APU_FRAME_COUNTER_TICK_ZERO: u32 = 3728;

/// The second mark.
pub const APU_FRAME_COUNTER_TICK_ONE: u32 = 7456;

/// The third mark.
pub const APU_FRAME_COUNTER_TICK_TWO: u32 = 11185;

/// The fourth mark.
pub const APU_FRAME_COUNTER_TICK_THREE: u32 = 14914;

/// Where the sprite DMA unit stands.
#[derive(Copy, Clone, Debug, PartialEq, Eq, Structural)]
pub enum Dma {
    /// No transfer.
    Idle,
    /// A transfer was asked for; the unit waits for the processor to halt,
    /// which it does on its next read.
    Halt,
    /// The processor has halted on a get cycle; one cycle passes so that the
    /// first read falls on a get cycle.
    Align,
    /// The next cycle reads a byte of the page.
    Get,
    /// The next cycle writes that byte to `$2004`.
    Put,
    /// The transfer is over; the next cycle is the processor's again.
    End,
}

/// Where a sample fetch of the DMC channel stands.
#[derive(Copy, Clone, Debug, PartialEq, Eq, Structural)]
pub enum DmcDma {
    /// No fetch.
    Idle,
    /// A fetch came due while the processor was writing; the unit waits for
    /// the processor to stop, which it does on its next read.
    Started,
    /// The processor has stopped; one cycle passes.
    Dummy,
    /// The next get cycle reads the sample byte.
    ToRead,
    /// The sample byte is on the data lines; the next cycle takes it in.
    ToReceive,
}

/// The sample channel as far as it moves the bus: its registers, the place
/// of the fetch in the sample, the sample buffer, and the count of cycles
/// until the output unit empties the buffer.
#[derive(Copy, Clone, Debug, PartialEq, Eq, Structural)]
pub struct Dmc {
    pub irq_enable: bool,
    pub loop_enable: bool,
    pub rate: u8,
    pub level: u8,
    pub sample_address: u8,
    pub sample_length: u8,
    pub current_address: u16,
    pub bytes_remaining: u16,
    pub buffer: Option<u8>,
    pub countdown: u16,
}

/// The two interrupt flags that `$4015` reports.
#[derive(Copy, Clone, Debug, PartialEq, Eq, Structural)]
pub struct Status {
    pub dmc_irq: bool,
    pub frame_irq: bool,
}

/// The frame counter: its mode, whether its interrupt is inhibited, and the
/// step of its sequence.
#[derive(Copy, Clone, Debug, PartialEq, Eq, Structural)]
pub struct FrameCounter {
    pub mode: bool,
    pub irq_inhibit: bool,
    pub step: u8,
}

/// One controller port: the buttons as the driver last set them, and the
/// shift register that the processor reads them from. Bit 0 is A, then B,
/// Select, Start, Up, Down, Left and Right.
#[derive(Copy, Clone, Debug, PartialEq, Eq, Structural)]
pub struct Controller {
    pub latch: u8,
    pub shift: u8,
}

/// The complete state of the unit between two cycles.
#[derive(Copy, Clone, Debug, PartialEq, Eq)]
pub struct ApuState {
    pub put_cycle: bool,
    pub oam_dma: Dma,
    pub oam_bank: u8,
    pub oam_cycle: u8,
    pub dmc: Dmc,
    pub dmc_dma: DmcDma,
    pub dmc_credit: u8,
    pub status: Status,
    pub apu_cycle: u32,
    pub frame_counter: FrameCounter,
    pub controllers: [Controller; 2],
    pub controller_strobe: bool,
}

/// The sample fetches that may begin while the processor is held without a
/// break. The output unit empties the buffer at most once in 432 cycles, so
/// that no hold of the processor sees more than two fetches come due.
pub const DMC_CREDIT: u8 = 2;

/// The number of processor cycles in which the output unit plays one bit,
/// for each of the sixteen rates.
pub open spec fn dmc_period(rate: u8) -> u16 {
    match rate % 16 {
        0 => 428,
        1 => 380,
        2 => 340,
        3 => 320,
        4 => 286,
        5 => 254,
        6 => 226,
        7 => 214,
        8 => 190,
        9 => 160,
        10 => 142,
        11 => 128,
        12 => 106,
        13 => 84,
        14 => 72,
        _ => 54,
    }
}

fn dmc_period_of(rate: u8) -> (period: u16)
    ensures
        period == dmc_period(rate),
        54 <= period <= 428,
{
    match rate % 16 {
        0 => 428,
        1 => 380,
        2 => 340,
        3 => 320,
        4 => 286,
        5 => 254,
        6 => 226,
        7 => 214,
        8 => 190,
        9 => 160,
        10 => 142,
        11 => 128,
        12 => 106,
        13 => 84,
        14 => 72,
        _ => 54,
    }
}

impl Dmc {
    /// The channel at power-on: silent, nothing to fetch.
    pub open spec fn power_on() -> Dmc {
        Dmc {
            irq_enable: false,
            loop_enable: false,
            rate: 0,
            level: 0,
            sample_address: 0,
            sample_length: 0,
            current_address: 0xC000,
            bytes_remaining: 0,
            buffer: None,
            countdown: 3424,
        }
    }

    /// Where the sample starts: at `$C000` plus 64 times the address
    /// register.
    pub open spec fn start_address(self) -> u16 {
        (0xC000 + 64 * self.sample_address) as u16
    }

    /// How long the sample is: 16 times the length register, plus one.
    pub open spec fn length(self) -> u16 {
        (16 * self.sample_length + 1) as u16
    }

    /// The channel with the fetch set back to the start of the sample.
    pub open spec fn restarted(self) -> Dmc {
        Dmc { current_address: self.start_address(), bytes_remaining: self.length(), ..self }
    }

    /// The channel after a write to `$4015`: bit 4 clear stops the fetch;
    /// bit 4 set starts the sample over if nothing is left to fetch.
    pub open spec fn enabled(self, enable: bool) -> Dmc {
        if !enable {
            Dmc { bytes_remaining: 0, ..self }
        } else if self.bytes_remaining == 0 {
            self.restarted()
        } else {
            self
        }
    }

    /// The channel after a fetched byte came in: the byte fills the buffer
    /// and the fetch moves on, from `$FFFF` to `$8000`. After the last byte a
    /// looping sample starts over.
    pub open spec fn received(self, byte: u8) -> Dmc {
        let moved = Dmc {
            buffer: Some(byte),
            current_address: if self.current_address == 0xFFFF {
                0x8000
            } else {
                (self.current_address + 1) as u16
            },
            bytes_remaining: if self.bytes_remaining == 0 {
                0
            } else {
                (self.bytes_remaining - 1) as u16
            },
            ..self
        };
        if moved.bytes_remaining == 0 && self.loop_enable {
            moved.restarted()
        } else {
            moved
        }
    }

    /// Whether the byte that comes in is the last of a sample that raises an
    /// interrupt at its end.
    pub open spec fn ends_with_irq(self) -> bool {
        self.bytes_remaining <= 1 && !self.loop_enable && self.irq_enable
    }

    /// The channel one cycle on: the output unit counts down, and at zero it
    /// empties the buffer and starts on the eight bits of the next byte.
    pub open spec fn ticked(self) -> Dmc {
        if self.countdown <= 1 {
            Dmc { buffer: None, countdown: (8 * dmc_period(self.rate)) as u16, ..self }
        } else {
            Dmc { countdown: (self.countdown - 1) as u16, ..self }
        }
    }

    /// Whether a fetch is due: the buffer is empty and the sample has bytes
    /// left.
    pub open spec fn wants_byte(self) -> bool {
        self.buffer is None && self.bytes_remaining > 0
    }

    fn new() -> (dmc: Self)
        ensures
            dmc == Dmc::power_on(),
    {
        Self {
            irq_enable: false,
            loop_enable: false,
            rate: 0,
            level: 0,
            sample_address: 0,
            sample_length: 0,
            current_address: 0xC000,
            bytes_remaining: 0,
            buffer: None,
            countdown: 3424,
        }
    }

    fn restart(&mut self)
        ensures
            *final(self) == old(self).restarted(),
    {
        self.current_address = 0xC000 + 64 * self.sample_address as u16;
        self.bytes_remaining = 16 * self.sample_length as u16 + 1;
    }

    fn enable(&mut self, enable: bool)
        ensures
            *final(self) == old(self).enabled(enable),
    {
        if !enable {
            self.bytes_remaining = 0;
        } else if self.bytes_remaining == 0 {
            self.restart();
        }
    }

    fn receive(&mut self, byte: u8)
        ensures
            *final(self) == old(self).received(byte),
    {
        self.buffer = Some(byte);
        self.current_address = if self.current_address == 0xFFFF {
            0x8000
        } else {
            self.current_address + 1
        };
        if self.bytes_remaining > 0 {
            self.bytes_remaining -= 1;
        }
        if self.bytes_remaining == 0 && self.loop_enable {
            self.restart();
        }
    }

    fn tick(&mut self)
        ensures
            *final(self) == old(self).ticked(),
    {
        if self.countdown <= 1 {
            self.buffer = None;
            self.countdown = 8 * dmc_period_of(self.rate);
        } else {
            self.countdown -= 1;
        }
    }
}

impl Status {
    /// Whether either interrupt flag is up.
    pub open spec fn irq_active(self) -> bool {
        self.dmc_irq || self.frame_irq
    }

    fn new() -> (status: Self)
        ensures
            status == (Status { dmc_irq: false, frame_irq: false }),
    {
        Self { dmc_irq: false, frame_irq: false }
    }

    fn is_irq_active(&self) -> (active: bool)
        ensures
            active == self.irq_active(),
    {
        self.dmc_irq || self.frame_irq
    }
}

impl FrameCounter {
    /// The counter at power-on: four-step mode, interrupt inhibited.
    pub open spec fn power_on() -> FrameCounter {
        FrameCounter { mode: false, irq_inhibit: true, step: 0 }
    }

    /// Whether this step clocks the length counters and sweep units.
    pub open spec fn ticks_length_and_sweep(self) -> bool {
        if self.mode {
            self.step == 1 || self.step == 4
        } else {
            self.step == 1 || self.step == 3
        }
    }

    /// Whether this step clocks the envelopes and the linear counter.
    pub open spec fn ticks_envelope_and_linear(self) -> bool {
        if self.mode {
            self.step != 3
        } else {
            true
        }
    }

    /// Whether this step raises the frame interrupt: the last step of the
    /// four-step sequence, unless the interrupt is inhibited.
    pub open spec fn raises_irq(self) -> bool {
        !self.mode && self.step == 3 && !self.irq_inhibit
    }

    /// The counter one step on: the four-step sequence has the steps 0 to
    /// 3, the five-step sequence 0 to 4.
    pub open spec fn ticked(self) -> FrameCounter {
        FrameCounter {
            step: if (self.mode && self.step >= 4) || (!self.mode && self.step >= 3) {
                0
            } else {
                (self.step + 1) as u8
            },
            ..self
        }
    }

    fn new() -> (counter: Self)
        ensures
            counter == FrameCounter::power_on(),
    {
        Self { mode: false, irq_inhibit: true, step: 0 }
    }

    fn should_tick_length_and_sweep(&self) -> (ticks: bool)
        ensures
            ticks == self.ticks_length_and_sweep(),
    {
        if self.mode {
            self.step == 1 || self.step == 4
        } else {
            self.step == 1 || self.step == 3
        }
    }

    fn should_tick_envelope_and_linear(&self) -> (ticks: bool)
        ensures
            ticks == self.ticks_envelope_and_linear(),
    {
        if self.mode {
            self.step != 3
        } else {
            true
        }
    }

    fn should_raise_irq(&self) -> (raises: bool)
        ensures
            raises == self.raises_irq(),
    {
        !self.mode && self.step == 3 && !self.irq_inhibit
    }

    fn tick(&mut self)
        ensures
            *final(self) == old(self).ticked(),
    {
        if (self.mode && self.step >= 4) || (!self.mode && self.step >= 3) {
            self.step = 0
        } else {
            self.step += 1;
        }
    }
}

/// The bit of A in a controller's latch.
pub const BUTTON_A: u8 = 0;

/// The bit of B.
pub const BUTTON_B: u8 = 1;

/// The bit of Select.
pub const BUTTON_SELECT: u8 = 2;

/// The bit of Start.
pub const BUTTON_START: u8 = 3;

/// The bit of Up.
pub const BUTTON_UP: u8 = 4;

/// The bit of Down.
pub const BUTTON_DOWN: u8 = 5;

/// The bit of Left.
pub const BUTTON_LEFT: u8 = 6;

/// The bit of Right.
pub const BUTTON_RIGHT: u8 = 7;

impl Controller {
    /// A port with no button held and a drained shift register.
    pub open spec fn released() -> Controller {
        Controller { latch: 0, shift: 0xFF }
    }

    /// The port after a strobe: the shift register holds the buttons.
    pub open spec fn strobed(self) -> Controller {
        Controller { shift: self.latch, ..self }
    }

    /// The byte a read of the port returns: bit 0 of the shift register in
    /// bit 0, zeros in bits 1 and 2, and above them whatever the data lines
    /// held.
    pub open spec fn read_byte(self, bus_data: u8) -> u8 {
        (bus_data - bus_data % 8 + self.shift % 2) as u8
    }

    /// The port after a read: the shift register moves on by one button and
    /// takes in a one.
    pub open spec fn shifted(self) -> Controller {
        Controller { shift: (self.shift / 2 + 128) as u8, ..self }
    }

    /// The port with one button set or released.
    pub open spec fn with_button(self, button: u8, to: bool) -> Controller {
        Controller { latch: with_bit_u8(self.latch, button, to), ..self }
    }

    /// A port with no button held.
    pub fn new() -> (port: Self)
        ensures
            port == Controller::released(),
    {
        Self { latch: 0, shift: 0xFF }
    }

    fn strobe(&mut self)
        ensures
            *final(self) == old(self).strobed(),
    {
        self.shift = self.latch;
    }

    fn read(&self, bus: &mut CpuBus)
        ensures
            final(bus)@ == (PinState { data: self.read_byte(old(bus)@.data), ..old(bus)@ }),
    {
        let data = bus.data();
        bus.set_data(data - data % 8 + self.shift % 2);
    }

    fn shift(&mut self)
        ensures
            *final(self) == old(self).shifted(),
    {
        self.shift = self.shift / 2 + 128;
    }

    /// Holds or releases A.
    pub fn set_a(&mut self, to: bool)
        ensures
            *final(self) == old(self).with_button(BUTTON_A, to),
    {
        set_flag_u8(&mut self.latch, BUTTON_A, to)
    }

    /// Holds or releases B.
    pub fn set_b(&mut self, to: bool)
        ensures
            *final(self) == old(self).with_button(BUTTON_B, to),
    {
        set_flag_u8(&mut self.latch, BUTTON_B, to)
    }

    /// Holds or releases Select.
    pub fn set_select(&mut self, to: bool)
        ensures
            *final(self) == old(self).with_button(BUTTON_SELECT, to),
    {
        set_flag_u8(&mut self.latch, BUTTON_SELECT, to)
    }

    /// Holds or releases Start.
    pub fn set_start(&mut self, to: bool)
        ensures
            *final(self) == old(self).with_button(BUTTON_START, to),
    {
        set_flag_u8(&mut self.latch, BUTTON_START, to)
    }

    /// Holds or releases Up.
    pub fn set_up(&mut self, to: bool)
        ensures
            *final(self) == old(self).with_button(BUTTON_UP, to),
    {
        set_flag_u8(&mut self.latch, BUTTON_UP, to)
    }

    /// Holds or releases Down.
    pub fn set_down(&mut self, to: bool)
        ensures
            *final(self) == old(self).with_button(BUTTON_DOWN, to),
    {
        set_flag_u8(&mut self.latch, BUTTON_DOWN, to)
    }

    /// Holds or releases Left.
    pub fn set_left(&mut self, to: bool)
        ensures
            *final(self) == old(self).with_button(BUTTON_LEFT, to),
    {
        set_flag_u8(&mut self.latch, BUTTON_LEFT, to)
    }

    /// Holds or releases Right.
    pub fn set_right(&mut self, to: bool)
        ensures
            *final(self) == old(self).with_button(BUTTON_RIGHT, to),
    {
        set_flag_u8(&mut self.latch, BUTTON_RIGHT, to)
    }
}

impl ApuState {
    /// The unit at power-on.
    pub open spec fn power_on() -> ApuState {
        ApuState {
            put_cycle: false,
            oam_dma: Dma::Idle,
            oam_bank: 0,
            oam_cycle: 0,
            dmc: Dmc::power_on(),
            dmc_dma: DmcDma::Idle,
            dmc_credit: DMC_CREDIT,
            status: Status { dmc_irq: false, frame_irq: false },
            apu_cycle: 0,
            frame_counter: FrameCounter::power_on(),
            controllers: vstd::array::spec_array_fill_for_copy_type::<Controller, 2>(
                Controller::released(),
            ),
            controller_strobe: false,
        }
    }

    /// While the strobe is high, both shift registers follow the buttons.
    #[verifier::opaque]
    pub open spec fn strobe_controllers(self) -> ApuState {
        if self.controller_strobe {
            ApuState {
                controllers: spec_array_update(
                    spec_array_update(self.controllers, 0, self.controllers[0].strobed()),
                    1,
                    self.controllers[1].strobed(),
                ),
                ..self
            }
        } else {
            self
        }
    }

    /// The address that the DMA unit reads next.
    pub open spec fn dma_address(self) -> u16 {
        (self.oam_bank * 256 + self.oam_cycle) as u16
    }

    /// Whether the sample fetch takes this cycle for its read: it is due to
    /// read, and this is a get cycle. A sample fetch comes before a sprite
    /// DMA.
    pub open spec fn dmc_reads(self) -> bool {
        self.dmc_dma == DmcDma::ToRead && !self.put_cycle
    }

    /// The sprite DMA unit. Asked for a transfer, it waits until the
    /// processor has stopped on a read. Then, from the first get cycle on,
    /// it reads a byte of the page on a get cycle and writes it to `$2004` on
    /// the cycle that follows, 256 times over. After the last write the bus
    /// is the processor's again.
    #[verifier::opaque]
    pub open spec fn clock_oam(self, bus: PinState) -> (ApuState, PinState) {
        match self.oam_dma {
            Dma::Idle => (self, bus),
            Dma::Halt => if bus.read {
                (
                    ApuState {
                        oam_dma: if self.put_cycle {
                            Dma::Get
                        } else {
                            Dma::Align
                        },
                        ..self
                    },
                    bus,
                )
            } else {
                (self, bus)
            },
            Dma::Align => (ApuState { oam_dma: Dma::Get, ..self }, bus),
            Dma::Get => if !self.put_cycle {
                (
                    ApuState { oam_dma: Dma::Put, ..self },
                    PinState { address: self.dma_address(), read: true, sync: false, ..bus },
                )
            } else {
                (self, bus)
            },
            Dma::Put => (
                ApuState {
                    oam_cycle: ((self.oam_cycle + 1) % 256) as u8,
                    oam_dma: if self.oam_cycle == 255 {
                        Dma::End
                    } else {
                        Dma::Get
                    },
                    ..self
                },
                PinState { address: 0x2004, read: false, sync: false, ..bus },
            ),
            Dma::End => (ApuState { oam_dma: Dma::Idle, ..self }, bus),
        }
    }

    /// The sample fetch. Once the processor has stopped, one cycle passes;
    /// on the next get cycle the unit reads the byte at the place of the
    /// fetch; in the cycle after, it takes the byte from the data lines. The
    /// last byte of a sample that neither loops nor is silenced raises the
    /// DMC interrupt. `cpu_reads` tells whether the processor shows a read.
    #[verifier::opaque]
    pub open spec fn clock_dmc_dma(self, bus: PinState, cpu_reads: bool) -> (ApuState, PinState) {
        match self.dmc_dma {
            DmcDma::Idle => (self, bus),
            DmcDma::Started => (
                if cpu_reads {
                    ApuState { dmc_dma: DmcDma::Dummy, ..self }
                } else {
                    self
                },
                bus,
            ),
            DmcDma::Dummy => (ApuState { dmc_dma: DmcDma::ToRead, ..self }, bus),
            DmcDma::ToRead => if !self.put_cycle {
                (
                    ApuState { dmc_dma: DmcDma::ToReceive, ..self },
                    PinState {
                        address: self.dmc.current_address,
                        read: true,
                        sync: false,
                        ..bus
                    },
                )
            } else {
                (self, bus)
            },
            DmcDma::ToReceive => (
                ApuState {
                    dmc: self.dmc.received(bus.data),
                    status: Status {
                        dmc_irq: self.status.dmc_irq || self.dmc.ends_with_irq(),
                        ..self.status
                    },
                    dmc_dma: DmcDma::Idle,
                    ..self
                },
                bus,
            ),
        }
    }

    /// The two DMA units in one cycle. In the cycle in which the sample
    /// fetch reads, the sprite DMA rests and goes on at the next get cycle.
    /// In every other cycle both units move on, and only the sprite DMA
    /// drives the bus.
    #[verifier::opaque]
    pub open spec fn clock_cpu(self, bus: PinState) -> (ApuState, PinState) {
        if self.dmc_reads() {
            self.clock_dmc_dma(bus, bus.read)
        } else {
            let (moved, driven) = self.clock_oam(bus);
            moved.clock_dmc_dma(driven, bus.read)
        }
    }

    /// The byte that a read of `$4015` returns: the two interrupt flags in
    /// bits 7 and 6, and in bit 4 whether the sample has bytes left.
    pub open spec fn status_byte(self) -> u8 {
        ((if self.status.dmc_irq {
            128int
        } else {
            0
        }) + (if self.status.frame_irq {
            64int
        } else {
            0
        }) + (if self.dmc.bytes_remaining > 0 {
            16int
        } else {
            0
        })) as u8
    }

    /// A write to one of the sample channel's registers at `$4010` to
    /// `$4013`: rate, loop and interrupt enable; the output level; the start
    /// of the sample; its length. Switching the interrupt off clears it.
    #[verifier::opaque]
    pub open spec fn write_dmc(self, address: u16, data: u8) -> ApuState {
        if address == 0x4010 {
            ApuState {
                dmc: Dmc {
                    irq_enable: data / 128 == 1,
                    loop_enable: (data / 64) % 2 == 1,
                    rate: data % 16,
                    ..self.dmc
                },
                status: Status {
                    dmc_irq: self.status.dmc_irq && data / 128 == 1,
                    ..self.status
                },
                ..self
            }
        } else if address == 0x4011 {
            ApuState { dmc: Dmc { level: data % 128, ..self.dmc }, ..self }
        } else if address == 0x4012 {
            ApuState { dmc: Dmc { sample_address: data, ..self.dmc }, ..self }
        } else if address == 0x4013 {
            ApuState { dmc: Dmc { sample_length: data, ..self.dmc }, ..self }
        } else {
            self
        }
    }

    /// The registers at `$4010` to `$4017`. Writes to `$4010` to `$4013` set
    /// up the sample channel. A write to `$4014` asks for a sprite DMA from
    /// the page written. `$4015` reports the interrupt flags and whether the
    /// sample has bytes left; reading it clears the frame interrupt, writing
    /// it clears the DMC interrupt and starts or stops the sample. A write
    /// to `$4016` sets the strobe; reads of `$4016` and `$4017` return the
    /// next button of the port. A write to `$4017` sets up the frame
    /// counter.
    #[verifier::opaque]
    pub open spec fn handle_cpu(self, bus: PinState) -> (ApuState, PinState) {
        if 0x4010 <= bus.address <= 0x4013 && !bus.read {
            (self.write_dmc(bus.address, bus.data), bus)
        } else if bus.address == 0x4014 && !bus.read {
            (ApuState { oam_bank: bus.data, oam_cycle: 0, oam_dma: Dma::Halt, ..self }, bus)
        } else if bus.address == 0x4015 && bus.read {
            (
                ApuState { status: Status { frame_irq: false, ..self.status }, ..self },
                PinState { data: self.status_byte(), ..bus },
            )
        } else if bus.address == 0x4015 {
            (
                ApuState {
                    status: Status { dmc_irq: false, ..self.status },
                    dmc: self.dmc.enabled((bus.data / 16) % 2 == 1),
                    ..self
                },
                bus,
            )
        } else if bus.address == 0x4016 && bus.read {
            (
                ApuState {
                    controllers: spec_array_update(
                        self.controllers,
                        0,
                        self.controllers[0].shifted(),
                    ),
                    ..self
                },
                PinState { data: self.controllers[0].read_byte(bus.data), ..bus },
            )
        } else if bus.address == 0x4016 {
            (ApuState { controller_strobe: bus.data % 2 == 1, ..self }, bus)
        } else if bus.address == 0x4017 && bus.read {
            (
                ApuState {
                    controllers: spec_array_update(
                        self.controllers,
                        1,
                        self.controllers[1].shifted(),
                    ),
                    ..self
                },
                PinState { data: self.controllers[1].read_byte(bus.data), ..bus },
            )
        } else if bus.address == 0x4017 {
            (
                ApuState {
                    frame_counter: FrameCounter {
                        mode: bus.data / 128 == 1,
                        irq_inhibit: (bus.data / 64) % 2 == 1,
                        step: 0,
                    },
                    status: Status {
                        frame_irq: self.status.frame_irq && (bus.data / 64) % 2 != 1,
                        ..self.status
                    },
                    ..self
                },
                bus,
            )
        } else {
            (self, bus)
        }
    }

    /// The sample channel's share of a cycle: the output unit counts down,
    /// and a fetch begins if one is due, none is under way and the credit
    /// is not used up. If the processor shows a read, this cycle is the one
    /// in which it stops.
    #[verifier::opaque]
    pub open spec fn clock_dmc(self, cpu_reads: bool) -> ApuState {
        let ticked = ApuState { dmc: self.dmc.ticked(), ..self };
        if ticked.dmc_dma == DmcDma::Idle && ticked.dmc.wants_byte() && ticked.dmc_credit > 0 {
            ApuState {
                dmc_dma: if cpu_reads {
                    DmcDma::Dummy
                } else {
                    DmcDma::Started
                },
                dmc_credit: (ticked.dmc_credit - 1) as u8,
                ..ticked
            }
        } else {
            ticked
        }
    }

    /// Whether a DMA unit asks the processor to stop.
    pub open spec fn holds_processor(self) -> bool {
        self.oam_dma != Dma::Idle || self.dmc_dma != DmcDma::Idle
    }

    /// A bound on the cycles that the sprite DMA still needs, counting a
    /// cycle of waiting for every cycle that falls on the wrong half.
    pub open spec fn oam_budget(self) -> nat {
        match self.oam_dma {
            Dma::Idle => 0,
            Dma::Halt => 520,
            Dma::Align => 518,
            Dma::Get => (2 * (256 - self.oam_cycle) + 2 + if self.put_cycle {
                1int
            } else {
                0
            }) as nat,
            Dma::Put => (2 * (256 - self.oam_cycle) + 1 + if self.put_cycle {
                0int
            } else {
                1
            }) as nat,
            Dma::End => 1,
        }
    }

    /// A bound on what the sample fetch under way still costs: three for
    /// each of its cycles, which pays for the cycle that its read sets a
    /// sprite DMA back.
    pub open spec fn dmc_budget(self) -> nat {
        match self.dmc_dma {
            DmcDma::Idle => 0,
            DmcDma::Started => 12,
            DmcDma::Dummy => 9,
            DmcDma::ToRead => if self.put_cycle {
                7
            } else {
                6
            },
            DmcDma::ToReceive => 3,
        }
    }

    /// A bound on the cycles for which the DMA units will yet answer a read
    /// of the processor with NOT_READY: what the transfers under way still
    /// need, and what the fetches that may yet begin would add.
    pub open spec fn dma_budget(self) -> nat {
        self.oam_budget() + self.dmc_budget() + 16 * self.dmc_credit as nat
    }

    /// Whether the frame counter steps at this cycle: on a put cycle at one
    /// of the four marks.
    pub open spec fn at_frame_mark(self) -> bool {
        self.put_cycle && (self.apu_cycle == APU_FRAME_COUNTER_TICK_ZERO || self.apu_cycle
            == APU_FRAME_COUNTER_TICK_ONE || self.apu_cycle == APU_FRAME_COUNTER_TICK_TWO
            || self.apu_cycle == APU_FRAME_COUNTER_TICK_THREE)
    }

    /// The frame counter's share of a cycle: at a mark it steps, raising its
    /// interrupt where the sequence says so.
    #[verifier::opaque]
    pub open spec fn clock_apu(self) -> ApuState {
        if self.at_frame_mark() {
            ApuState {
                status: Status {
                    frame_irq: self.status.frame_irq || self.frame_counter.raises_irq(),
                    ..self.status
                },
                frame_counter: self.frame_counter.ticked(),
                ..self
            }
        } else {
            self
        }
    }

    /// The end of a cycle: get and put cycles alternate, and every put cycle
    /// counts towards the frame sequence.
    #[verifier::opaque]
    pub open spec fn tick_counters(self) -> ApuState {
        ApuState {
            put_cycle: !self.put_cycle,
            apu_cycle: if !self.put_cycle {
                ((self.apu_cycle + 1) % (APU_CYCLES_PER_FRAME as int)) as u32
            } else {
                self.apu_cycle
            },
            ..self
        }
    }

    /// One processor cycle as the unit sees it. The bus comes in as the
    /// processor set it up and leaves as the devices after it shall see it:
    /// during a transfer with the DMA unit's address in place of the
    /// processor's, with the interrupt request line pulled high while an
    /// interrupt flag is up, and with NOT_READY high for as long as a
    /// transfer is asked for or under way. Whenever the processor is not
    /// held, the credit for sample fetches is made up again.
    #[verifier::opaque]
    pub open spec fn clock(self, bus: PinState) -> (ApuState, PinState) {
        let (driven, bus_out) = self.strobe_controllers().clock_cpu(bus);
        let (handled, bus_out) = driven.handle_cpu(
            PinState { irq: bus_out.irq || driven.status.irq_active(), ..bus_out },
        );
        let fetching = handled.clock_dmc(bus.read);
        let rested = ApuState {
            dmc_credit: if fetching.holds_processor() {
                fetching.dmc_credit
            } else {
                DMC_CREDIT
            },
            ..fetching
        };
        (
            rested.clock_apu().tick_counters(),
            PinState { not_ready: fetching.holds_processor(), ..bus_out },
        )
    }
}

/// The processor package without its core.
#[derive(Copy, Clone, Debug, PartialEq, Eq)]
pub struct Apu {
    state: ApuState,
}

impl View for Apu {
    type V = ApuState;

    closed spec fn view(&self) -> ApuState {
        self.state
    }
}

impl Apu {
    /// The unit at power-on.
    pub fn start() -> (apu: Self)
        ensures
            apu@ == ApuState::power_on(),
    {
        Self {
            state: ApuState {
                put_cycle: false,
                oam_dma: Dma::Idle,
                oam_bank: 0,
                oam_cycle: 0,
                dmc: Dmc::new(),
                dmc_dma: DmcDma::Idle,
                dmc_credit: DMC_CREDIT,
                status: Status::new(),
                apu_cycle: 0,
                frame_counter: FrameCounter::new(),
                controllers: [Controller::new(); 2],
                controller_strobe: false,
            },
        }
    }

    /// The two controller ports, for the driver to set the buttons.
    pub fn controllers(&mut self) -> (ports: &mut [Controller; 2])
        ensures
            *ports == old(self)@.controllers,
            final(self)@ == (ApuState { controllers: *final(ports), ..old(self)@ }),
    {
        &mut self.state.controllers
    }

    /// The byte in the sample buffer, if the buffer is full.
    pub fn sample_buffer(&self) -> (byte: Option<u8>)
        ensures
            byte == self@.dmc.buffer,
    {
        self.state.dmc.buffer
    }

    /// How many bytes of the sample are left to fetch.
    pub fn sample_bytes_remaining(&self) -> (bytes: u16)
        ensures
            bytes == self@.dmc.bytes_remaining,
    {
        self.state.dmc.bytes_remaining
    }

    /// Advances the unit by one processor cycle.
    pub fn clock(&mut self, bus: &mut CpuBus)
        ensures
            (final(self)@, final(bus)@) == old(self)@.clock(old(bus)@),
    {
        proof {
            reveal(ApuState::clock);
        }
        let cpu_reads = bus.read();
        self.strobe_controllers();
        self.clock_cpu(bus);
        self.handle_cpu(bus);
        self.clock_dmc(cpu_reads);
        let held = !matches!(self.state.oam_dma, Dma::Idle) || !matches!(
            self.state.dmc_dma,
            DmcDma::Idle
        );
        bus.set_not_ready(held);
        if !held {
            self.state.dmc_credit = DMC_CREDIT;
        }
        self.clock_apu();
        self.tick_counters();
    }

    fn strobe_controllers(&mut self)
        ensures
            final(self)@ == old(self)@.strobe_controllers(),
    {
        proof {
            reveal(ApuState::strobe_controllers);
        }
        if self.state.controller_strobe {
            self.state.controllers[0].strobe();
            self.state.controllers[1].strobe();
        }
    }

    fn clock_cpu(&mut self, bus: &mut CpuBus)
        ensures
            final(self)@ == old(self)@.clock_cpu(old(bus)@).0,
            final(bus)@ == (PinState {
                irq: old(self)@.clock_cpu(old(bus)@).1.irq || final(self)@.status.irq_active(),
                ..old(self)@.clock_cpu(old(bus)@).1
            }),
    {
        proof {
            reveal(ApuState::clock_cpu);
        }
        let cpu_reads = bus.read();
        let dmc_reads = matches!(self.state.dmc_dma, DmcDma::ToRead) && !self.state.put_cycle;
        if !dmc_reads {
            self.clock_oam(bus);
        }
        self.clock_dmc_dma(bus, cpu_reads);
        self.sync_cpu_bus(bus);
    }

    fn clock_oam(&mut self, bus: &mut CpuBus)
        ensures
            (final(self)@, final(bus)@) == old(self)@.clock_oam(old(bus)@),
    {
        proof {
            reveal(ApuState::clock_oam);
        }
        match self.state.oam_dma {
            Dma::Idle => {},
            Dma::Halt => {
                if bus.read() {
                    if self.state.put_cycle {
                        self.state.oam_dma = Dma::Get;
                    } else {
                        self.state.oam_dma = Dma::Align;
                    }
                }
            },
            Dma::Align => {
                self.state.oam_dma = Dma::Get;
            },
            Dma::Get => {
                if !self.state.put_cycle {
                    bus.set_address(
                        self.state.oam_bank as u16 * 256 + self.state.oam_cycle as u16,
                    );
                    bus.set_read(true);
                    bus.set_sync(false);
                    self.state.oam_dma = Dma::Put;
                }
            },
            Dma::Put => {
                bus.set_address(0x2004);
                bus.set_read(false);
                bus.set_sync(false);
                let end = self.state.oam_cycle == 255;
                self.state.oam_cycle = self.state.oam_cycle.wrapping_add(1);
                if end {
                    self.state.oam_dma = Dma::End
                } else {
                    self.state.oam_dma = Dma::Get;
                }
            },
            Dma::End => {
                self.state.oam_dma = Dma::Idle;
            },
        }
    }

    fn clock_dmc_dma(&mut self, bus: &mut CpuBus, cpu_reads: bool)
        ensures
            (final(self)@, final(bus)@) == old(self)@.clock_dmc_dma(old(bus)@, cpu_reads),
    {
        proof {
            reveal(ApuState::clock_dmc_dma);
        }
        match self.state.dmc_dma {
            DmcDma::Idle => {},
            DmcDma::Started => {
                if cpu_reads {
                    self.state.dmc_dma = DmcDma::Dummy;
                }
            },
            DmcDma::Dummy => {
                self.state.dmc_dma = DmcDma::ToRead;
            },
            DmcDma::ToRead => {
                if !self.state.put_cycle {
                    bus.set_address(self.state.dmc.current_address);
                    bus.set_read(true);
                    bus.set_sync(false);
                    self.state.dmc_dma = DmcDma::ToReceive;
                }
            },
            DmcDma::ToReceive => {
                let last = self.state.dmc.bytes_remaining <= 1 && !self.state.dmc.loop_enable
                    && self.state.dmc.irq_enable;
                self.state.dmc.receive(bus.data());
                if last {
                    self.state.status.dmc_irq = true;
                }
                self.state.dmc_dma = DmcDma::Idle;
            },
        }
    }

    fn clock_dmc(&mut self, cpu_reads: bool)
        ensures
            final(self)@ == old(self)@.clock_dmc(cpu_reads),
    {
        proof {
            reveal(ApuState::clock_dmc);
        }
        self.state.dmc.tick();
        let wants = self.state.dmc.buffer.is_none() && self.state.dmc.bytes_remaining > 0;
        if matches!(self.state.dmc_dma, DmcDma::Idle) && wants && self.state.dmc_credit > 0 {
            self.state.dmc_dma = if cpu_reads {
                DmcDma::Dummy
            } else {
                DmcDma::Started
            };
            self.state.dmc_credit -= 1;
        }
    }

    /// Pulls the interrupt request line high while an interrupt flag is up.
    fn sync_cpu_bus(&self, bus: &mut CpuBus)
        ensures
            final(bus)@ == (PinState {
                irq: old(bus)@.irq || self@.status.irq_active(),
                ..old(bus)@
            }),
    {
        bus.or_irq(self.state.status.is_irq_active());
    }

    fn handle_cpu(&mut self, bus: &mut CpuBus)
        ensures
            (final(self)@, final(bus)@) == old(self)@.handle_cpu(old(bus)@),
    {
        proof {
            reveal(ApuState::handle_cpu);
        }
        let rw = bus.read();
        let address = bus.address();
        if address >= 0x4010 && address <= 0x4013 {
            if !rw {
                self.write_dmc(address, bus.data());
            }
        } else if address == 0x4014 {
            if !rw {
                self.state.oam_bank = bus.data();
                self.state.oam_cycle = 0;
                self.state.oam_dma = Dma::Halt;
            }
        } else if address == 0x4015 {
            self.access_status(bus);
        } else if address == 0x4016 {
            if rw {
                self.state.controllers[0].read(bus);
                self.state.controllers[0].shift();
            } else {
                self.state.controller_strobe = bus.data() % 2 == 1;
            }
        } else if address == 0x4017 {
            if !rw {
                let data = bus.data();
                self.state.frame_counter.mode = data / 128 == 1;
                self.state.frame_counter.irq_inhibit = (data / 64) % 2 == 1;
                self.state.frame_counter.step = 0;
                if self.state.frame_counter.irq_inhibit {
                    self.state.status.frame_irq = false;
                }
            } else {
                self.state.controllers[1].read(bus);
                self.state.controllers[1].shift();
            }
        }
    }

    fn write_dmc(&mut self, address: u16, data: u8)
        ensures
            final(self)@ == old(self)@.write_dmc(address, data),
    {
        proof {
            reveal(ApuState::write_dmc);
        }
        if address == 0x4010 {
            self.state.dmc.irq_enable = data / 128 == 1;
            self.state.dmc.loop_enable = (data / 64) % 2 == 1;
            self.state.dmc.rate = data % 16;
            if !self.state.dmc.irq_enable {
                self.state.status.dmc_irq = false;
            }
        } else if address == 0x4011 {
            self.state.dmc.level = data % 128;
        } else if address == 0x4012 {
            self.state.dmc.sample_address = data;
        } else if address == 0x4013 {
            self.state.dmc.sample_length = data;
        }
    }

    /// An access to the status register at `$4015`.
    fn access_status(&mut self, bus: &mut CpuBus)
        requires
            old(bus)@.address == 0x4015,
        ensures
            (final(self)@, final(bus)@) == old(self)@.handle_cpu(old(bus)@),
    {
        proof {
            reveal(ApuState::handle_cpu);
        }
        if bus.read() {
            let i: u8 = if self.state.status.dmc_irq {
                128
            } else {
                0
            };
            let f: u8 = if self.state.status.frame_irq {
                64
            } else {
                0
            };
            let d: u8 = if self.state.dmc.bytes_remaining > 0 {
                16
            } else {
                0
            };
            bus.set_data(i + f + d);
            self.state.status.frame_irq = false;
        } else {
            self.state.status.dmc_irq = false;
            self.state.dmc.enable((bus.data() / 16) % 2 == 1);
        }
    }

    fn tick_counters(&mut self)
        ensures
            final(self)@ == old(self)@.tick_counters(),
    {
        proof {
            reveal(ApuState::tick_counters);
        }
        self.state.put_cycle = !self.state.put_cycle;
        if self.state.put_cycle {
            self.state.apu_cycle = ((self.state.apu_cycle as u64 + 1) % (
            APU_CYCLES_PER_FRAME as u64)) as u32;
        }
    }

    fn clock_apu(&mut self)
        ensures
            final(self)@ == old(self)@.clock_apu(),
    {
        proof {
            reveal(ApuState::clock_apu);
        }
        if self.state.put_cycle {
            self.do_apu_put_cycle();
        } else {
            self.do_apu_get_cycle();
        }
    }

    fn do_apu_get_cycle(&mut self)
        ensures
            final(self)@ == old(self)@,
    {
    }

    fn do_apu_put_cycle(&mut self)
        requires
            old(self)@.put_cycle,
        ensures
            final(self)@ == old(self)@.clock_apu(),
    {
        proof {
            reveal(ApuState::clock_apu);
        }
        let cycle = self.state.apu_cycle;
        if cycle == APU_FRAME_COUNTER_TICK_ZERO || cycle == APU_FRAME_COUNTER_TICK_ONE || cycle
            == APU_FRAME_COUNTER_TICK_TWO || cycle == APU_FRAME_COUNTER_TICK_THREE {
            self.tick_frame_counter();
        }
    }

    fn tick_frame_counter(&mut self)
        ensures
            final(self)@ == (ApuState {
                status: Status {
                    frame_irq: old(self)@.status.frame_irq || old(
                        self,
                    )@.frame_counter.raises_irq(),
                    ..old(self)@.status
                },
                frame_counter: old(self)@.frame_counter.ticked(),
                ..old(self)@
            }),
    {
        if self.state.frame_counter.should_raise_irq() {
            self.state.status.frame_irq = true;
        }
        if self.state.frame_counter.should_tick_envelope_and_linear() {
            self.tick_envelope_and_linear();
        }
        if self.state.frame_counter.should_tick_length_and_sweep() {
            self.tick_length_and_sweep();
        }
        self.state.frame_counter.tick();
    }

    /// The envelopes and the linear counter belong to sound synthesis, which
    /// the unit leaves out.
    fn tick_envelope_and_linear(&mut self)
        ensures
            final(self)@ == old(self)@,
    {
    }

    /// The length counters and sweep units belong to sound synthesis, which
    /// the unit leaves out.
    fn tick_length_and_sweep(&mut self)
        ensures
            final(self)@ == old(self)@,
    {
    }
}

} // verus!
