//! The processor package at the pace of the master clock: the core, the
//! sound unit and the sprite DMA unit on their shared buses. The core itself
//! is not part of this module: the package hands out the pins for it and
//! takes in what it drives.

use vstd::prelude::*;

use self::apu::{AInPins, Apu};
use self::apu::ApuState as SoundState;
use self::dma::InPins as DPins;
use self::dma::{OamDma, OamDmaState};

pub mod apu;
pub mod dma;

verus! {

/// What the package sees at a tick of the master clock.
#[derive(Copy, Clone, Debug, PartialEq, Eq, Structural)]
pub struct InPins {
    pub data: u8,
    pub reset: bool,
    pub irq: bool,
    pub nmi: bool,
}

/// What the package drives.
#[derive(Copy, Clone, Debug, PartialEq, Eq, Structural)]
pub struct OutPins {
    pub m2: bool,
    pub address: u16,
    pub data: u8,
    pub read: bool,
    pub sync: bool,
}

/// What the core sees when it is clocked.
#[derive(Copy, Clone, Debug, PartialEq, Eq, Structural)]
pub struct CorePins {
    pub data: u8,
    pub nmi: bool,
    pub irq: bool,
    pub ready: bool,
}

/// What the core drives.
#[derive(Copy, Clone, Debug, PartialEq, Eq, Structural)]
pub struct CoreOut {
    pub address: u16,
    pub data: u8,
    pub read: bool,
    pub sync: bool,
    pub halted: bool,
}

/// The state of the package.
pub struct ProcessorState {
    pub cpu_cycle: u8,
    pub core: CoreOut,
    pub apu: SoundState,
    pub dma: OamDmaState,
    pub cpu_pins: CorePins,
    pub apu_pins: AInPins,
    pub dma_pins: DPins,
    pub data_bus: u8,
    pub address_bus: u16,
    pub out: OutPins,
}

impl InPins {
    /// Every line low.
    pub fn init() -> (pins: Self)
        ensures
            pins == (InPins { data: 0, reset: false, irq: false, nmi: false }),
    {
        Self { data: 0, reset: false, irq: false, nmi: false }
    }
}

impl OutPins {
    /// Nothing driven, reading.
    pub open spec fn idle() -> OutPins {
        OutPins { m2: false, address: 0, data: 0, read: true, sync: false }
    }

    /// Nothing driven, reading.
    pub fn init() -> (pins: Self)
        ensures
            pins == OutPins::idle(),
    {
        Self { m2: false, address: 0, data: 0, read: true, sync: false }
    }
}

impl ProcessorState {
    /// Whether the core is clocked at this tick: once in twelve.
    pub open spec fn should_cycle_cpu(self) -> bool {
        self.cpu_cycle == 0
    }

    /// The pins of the three units set up for a tick: each sees the buses as
    /// the last tick left them; the core sees the interrupt lines, with the
    /// sound unit's request added, and is ready unless the DMA unit asks it
    /// to stop.
    pub open spec fn update_pins(self, pins: InPins) -> ProcessorState {
        ProcessorState {
            apu_pins: AInPins {
                m2: self.out.m2,
                address: self.address_bus,
                data: self.data_bus,
                read: self.out.read,
            },
            cpu_pins: CorePins {
                data: self.data_bus,
                nmi: pins.nmi,
                irq: pins.irq || self.apu.out.irq,
                ready: !self.dma.out.halt_cpu,
            },
            dma_pins: DPins {
                address: self.address_bus,
                data: self.data_bus,
                cpu_halted: self.core.halted,
                m2: self.out.m2,
                read: self.core.read,
            },
            ..self
        }
    }

    /// The first half of a tick: M2 takes its level, high in the second half
    /// of the core's cycle, and the pins are set up.
    pub open spec fn begin(self, pins: InPins) -> ProcessorState {
        ProcessorState { out: OutPins { m2: self.cpu_cycle >= 6, ..self.out }, ..self }.update_pins(
            pins,
        )
    }

    /// The buses after a tick. On the data bus a writing core comes first,
    /// then the sound unit, then the DMA unit, then the outside. On the
    /// address bus the DMA unit comes before the core.
    pub open spec fn update_busses(self, pins: InPins) -> ProcessorState {
        ProcessorState {
            data_bus: if !self.core.halted && !self.core.read {
                self.core.data
            } else if self.apu.out.data is Some {
                self.apu.out.data->Some_0
            } else if self.dma.out.data is Some {
                self.dma.out.data->Some_0
            } else {
                pins.data
            },
            address_bus: if self.dma.out.address is Some {
                self.dma.out.address->Some_0
            } else {
                self.core.address
            },
            ..self
        }
    }

    /// The package's outputs taken from the buses.
    pub open spec fn update_out_pins(self) -> ProcessorState {
        ProcessorState {
            out: OutPins {
                data: self.data_bus,
                read: self.core.read && self.dma.out.read,
                sync: self.core.sync,
                address: self.address_bus,
                ..self.out
            },
            ..self
        }
    }

    /// The second half of a tick, with what the core drives: the sound unit
    /// and the DMA unit act, the buses settle, and the tick is counted.
    pub open spec fn finish(self, pins: InPins, core: CoreOut) -> ProcessorState {
        let settled = ProcessorState {
            core,
            apu: self.apu.master_cycle(self.apu_pins),
            dma: self.dma.master_cycle(self.dma_pins),
            ..self
        }.update_busses(pins).update_out_pins();
        ProcessorState { cpu_cycle: ((self.cpu_cycle + 1) % 12) as u8, ..settled }
    }
}

/// The processor package around its core.
pub struct Processor {
    cpu_cycle: u8,
    core: CoreOut,
    apu: Apu,
    dma: OamDma,
    cpu_pins: CorePins,
    apu_pins: AInPins,
    dma_pins: DPins,
    data_bus: u8,
    address_bus: u16,
    out: OutPins,
}

impl View for Processor {
    type V = ProcessorState;

    closed spec fn view(&self) -> ProcessorState {
        ProcessorState {
            cpu_cycle: self.cpu_cycle,
            core: self.core,
            apu: self.apu@,
            dma: self.dma@,
            cpu_pins: self.cpu_pins,
            apu_pins: self.apu_pins,
            dma_pins: self.dma_pins,
            data_bus: self.data_bus,
            address_bus: self.address_bus,
            out: self.out,
        }
    }
}

impl Processor {
    /// The package at power-on, its core reading at address zero.
    pub fn new() -> (processor: Self)
        ensures
            processor@.cpu_cycle == 0,
            processor@.core == (CoreOut {
                address: 0,
                data: 0,
                read: true,
                sync: false,
                halted: false,
            }),
            processor@.apu == SoundState::power_on(),
            processor@.dma == OamDmaState::power_on(),
            processor@.data_bus == 0,
            processor@.address_bus == 0,
            processor@.out == OutPins::idle(),
    {
        Self {
            cpu_cycle: 0,
            core: CoreOut { address: 0, data: 0, read: true, sync: false, halted: false },
            cpu_pins: CorePins { data: 0, nmi: false, irq: false, ready: true },
            apu: Apu::init(),
            apu_pins: AInPins::init(),
            dma: OamDma::init(),
            dma_pins: DPins::init(),
            data_bus: 0,
            address_bus: 0,
            out: OutPins::init(),
        }
    }

    /// The first half of a tick of the master clock. The result holds the
    /// pins for the core if this is a tick at which the core is clocked.
    pub fn master_cycle(&mut self, pins: InPins) -> (core_pins: Option<CorePins>)
        ensures
            final(self)@ == old(self)@.begin(pins),
            core_pins == (if old(self)@.should_cycle_cpu() {
                Some(final(self)@.cpu_pins)
            } else {
                None
            }),
    {
        self.out.m2 = self.cpu_cycle >= 6;

        self.update_pins(pins);

        if self.should_cycle_cpu() {
            Some(self.cpu_pins)
        } else {
            None
        }
    }

    /// The second half of a tick of the master clock. `core` is what the
    /// core drives: after a tick at which it was clocked, its new outputs;
    /// otherwise those it had.
    pub fn finish_cycle(&mut self, pins: InPins, core: CoreOut)
        ensures
            final(self)@ == old(self)@.finish(pins, core),
    {
        self.core = core;
        self.apu.master_cycle(self.apu_pins);
        self.dma.master_cycle(self.dma_pins);

        self.update_busses(pins);
        self.update_out_pins();
        self.tick_counters();
    }

    fn should_cycle_cpu(&self) -> (clocked: bool)
        ensures
            clocked == self@.should_cycle_cpu(),
    {
        self.cpu_cycle == 0
    }

    fn tick_counters(&mut self)
        ensures
            final(self)@ == (ProcessorState {
                cpu_cycle: ((old(self)@.cpu_cycle + 1) % 12) as u8,
                ..old(self)@
            }),
    {
        self.cpu_cycle = ((self.cpu_cycle as u16 + 1) % 12) as u8;
    }

    fn update_pins(&mut self, pins: InPins)
        ensures
            final(self)@ == old(self)@.update_pins(pins),
    {
        self.apu_pins.m2 = self.out.m2;
        self.apu_pins.address = self.address_bus;
        self.apu_pins.data = self.data_bus;
        self.apu_pins.read = self.out.read;

        self.cpu_pins.data = self.data_bus;
        self.cpu_pins.nmi = pins.nmi;
        self.cpu_pins.irq = pins.irq || self.apu.out().irq;
        self.cpu_pins.ready = !self.dma.out().halt_cpu;

        self.dma_pins.address = self.address_bus;
        self.dma_pins.data = self.data_bus;
        self.dma_pins.cpu_halted = self.core.halted;
        self.dma_pins.m2 = self.out.m2;
        self.dma_pins.read = self.core.read;
    }

    fn update_busses(&mut self, pins: InPins)
        ensures
            final(self)@ == old(self)@.update_busses(pins),
    {
        let cpu_out = self.core;
        let apu_out = self.apu.out();
        let dma_out = self.dma.out();

        if !cpu_out.halted && !cpu_out.read {
            self.data_bus = cpu_out.data;
        } else if let Some(data) = apu_out.data {
            self.data_bus = data;
        } else if let Some(data) = dma_out.data {
            self.data_bus = data;
        } else {
            self.data_bus = pins.data;
        }

        if let Some(address) = dma_out.address {
            self.address_bus = address;
        } else {
            self.address_bus = cpu_out.address;
        }
    }

    fn update_out_pins(&mut self)
        ensures
            final(self)@ == old(self)@.update_out_pins(),
    {
        self.out.data = self.data_bus;
        self.out.read = self.core.read && self.dma.out().read;
        self.out.sync = self.core.sync;
        self.out.address = self.address_bus;
    }

    /// What the package drives.
    pub fn out(&self) -> (pins: OutPins)
        ensures
            pins == self@.out,
    {
        self.out
    }

    /// What the core drove last.
    pub fn cpu(&self) -> (core: CoreOut)
        ensures
            core == self@.core,
    {
        self.core
    }

    /// The place of the tick to come in the twelve ticks of a core cycle.
    pub fn cpu_cycle(&self) -> (tick: u8)
        ensures
            tick == self@.cpu_cycle,
    {
        self.cpu_cycle
    }

    /// The pins that were set up for the core last.
    pub fn cpu_pins(&self) -> (pins: CorePins)
        ensures
            pins == self@.cpu_pins,
    {
        self.cpu_pins
    }
}

} // verus!
